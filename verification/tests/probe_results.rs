use ffpipeline::capabilities::nvidia::{
    encoder_format, NvEncoderProbe, NvidiaCapabilities, NV_ENC_CODEC_AV1_GUID, NV_ENC_CODEC_H264_GUID, NV_ENC_CODEC_HEVC_GUID,
};
use ffpipeline::capabilities::qsv::{
    encoder_supports_10bit, is_10bit_profile, QsvCapabilities, QsvCodecDescription, MFX_CODEC_AV1, MFX_CODEC_AVC,
    MFX_CODEC_HEVC, MFX_CODEC_VP9, MFX_FOURCC_NV12, MFX_FOURCC_P010, MFX_PROFILE_AVC_HIGH10, MFX_PROFILE_HEVC_MAIN10,
};
use ffpipeline::capabilities::vaapi::{
    entrypoint_name, profile_name, rc_modes, VaEntrypointProbe, VaHdrCap, VaSurfaceAttribute, VaTonemapProbe,
    VaapiCapabilities, VA_ATTRIB_NOT_SUPPORTED, VA_ENTRYPOINT_ENC_SLICE, VA_ENTRYPOINT_VIDEO_PROC, VA_ENTRYPOINT_VLD,
    VA_FOURCC_NV12, VA_FOURCC_P010, VA_PROFILE_HEVC_MAIN10, VA_PROFILE_NONE, VA_RC_CBR, VA_RC_CQP, VA_RC_VBR,
};
use ffpipeline::capabilities::videotoolbox::{VideoToolboxCapabilities, K_CM_VIDEO_CODEC_TYPE_HEVC};
use ffpipeline::pipeline::{PixelFormat, VideoFormat};

#[test]
fn qsv_ten_bit_profiles() {
    assert!(is_10bit_profile(MFX_CODEC_AVC, MFX_PROFILE_AVC_HIGH10));
    assert!(!is_10bit_profile(MFX_CODEC_AVC, 100));
    assert!(is_10bit_profile(MFX_CODEC_HEVC, MFX_PROFILE_HEVC_MAIN10));
    assert!(!is_10bit_profile(MFX_CODEC_HEVC, 1));
    assert!(is_10bit_profile(MFX_CODEC_VP9, 3));
    assert!(is_10bit_profile(MFX_CODEC_VP9, 4));
    assert!(!is_10bit_profile(MFX_CODEC_VP9, 1));
    assert!(is_10bit_profile(MFX_CODEC_AV1, 1));
    assert!(encoder_supports_10bit(&vec![1, 2], MFX_CODEC_HEVC));
    assert!(!encoder_supports_10bit(&vec![], MFX_CODEC_AV1));
}

#[test]
fn qsv_capabilities_from_implementation() {
    let decoders = vec![
        QsvCodecDescription { codec_id: MFX_CODEC_AVC, profiles: vec![66, 77, 100] },
        QsvCodecDescription { codec_id: MFX_CODEC_HEVC, profiles: vec![1, MFX_PROFILE_HEVC_MAIN10] },
    ];
    let encoders = vec![
        QsvCodecDescription { codec_id: MFX_CODEC_AVC, profiles: vec![100] },
        QsvCodecDescription { codec_id: MFX_CODEC_HEVC, profiles: vec![] },
    ];
    let caps = QsvCapabilities::from_implementation(&decoders, &encoders, &vec![MFX_FOURCC_NV12, MFX_FOURCC_P010]);
    assert!(caps.can_decode(&VideoFormat::H264, 8));
    assert!(!caps.can_decode(&VideoFormat::H264, 10));
    assert!(caps.can_decode(&VideoFormat::Hevc, 10));
    assert!(!caps.can_decode(&VideoFormat::Vp9, 8));
    assert!(caps.can_encode(&VideoFormat::H264, 8));
    assert!(!caps.can_encode(&VideoFormat::Hevc, 8));
    assert!(caps.vpp_supports_format(&PixelFormat::P010le));
    assert!(!caps.vpp_supports_format(&PixelFormat::Bgra));
}

#[test]
fn videotoolbox_capabilities_from_support() {
    let caps = VideoToolboxCapabilities::from_support(&vec![true, true, false, false], &vec![K_CM_VIDEO_CODEC_TYPE_HEVC]);
    assert!(caps.can_decode(&VideoFormat::H264, 8));
    assert!(!caps.can_decode(&VideoFormat::H264, 10));
    assert!(caps.can_decode(&VideoFormat::Hevc, 10));
    assert!(!caps.can_decode(&VideoFormat::Vp9, 8));
    assert!(caps.can_encode(&VideoFormat::Hevc, 8));
    assert!(caps.can_encode(&VideoFormat::Hevc, 10));
    assert!(!caps.can_encode(&VideoFormat::H264, 8));
}

#[test]
fn nvidia_capabilities_from_probe() {
    let decode = vec![(true, false), (true, true), (false, false), (false, false), (false, false), (true, true), (false, true)];
    let encoders = vec![
        NvEncoderProbe { format: VideoFormat::H264, supports_10bit: false, b_frame_ref_mode: false },
        NvEncoderProbe { format: VideoFormat::Hevc, supports_10bit: true, b_frame_ref_mode: true },
        NvEncoderProbe { format: VideoFormat::H264, supports_10bit: true, b_frame_ref_mode: true },
    ];
    let caps = NvidiaCapabilities::from_probe(&decode, &encoders);
    assert!(caps.can_decode(&VideoFormat::H264, 8));
    assert!(!caps.can_decode(&VideoFormat::H264, 10));
    assert!(caps.can_decode(&VideoFormat::Hevc, 10));
    assert!(caps.can_decode(&VideoFormat::Vp9, 10));
    assert!(!caps.can_decode(&VideoFormat::Av1, 10));
    assert!(caps.can_encode(&VideoFormat::H264, 10), "the last answer for a format counts");
    assert!(caps.b_frame_ref_mode(&VideoFormat::Hevc));
    assert!(!caps.can_encode(&VideoFormat::Av1, 8));
}

#[test]
fn vaapi_names() {
    assert_eq!(profile_name(VA_PROFILE_HEVC_MAIN10), "HEVCMain10");
    assert_eq!(profile_name(VA_PROFILE_NONE), "None");
    assert_eq!(profile_name(-7), "Profile(-7)");
    assert_eq!(profile_name(99), "Profile(99)");
    assert_eq!(entrypoint_name(VA_ENTRYPOINT_VIDEO_PROC), "VideoProc");
    assert_eq!(entrypoint_name(3), "Entrypoint(3)");
    assert_eq!(rc_modes(VA_RC_CQP | VA_RC_VBR), vec!["CQP", "VBR"]);
    assert_eq!(rc_modes(VA_RC_CBR), vec!["CBR"]);
    assert!(rc_modes(0).is_empty());
}

fn pixel_format_attribute(fourcc: u32) -> VaSurfaceAttribute {
    VaSurfaceAttribute { attrib_type: 1, flags: 1, value_type: 1, value: fourcc as i32 }
}

#[test]
fn vaapi_capabilities_from_probe() {
    let entrypoints = vec![
        VaEntrypointProbe { profile: VA_PROFILE_HEVC_MAIN10, entrypoint: VA_ENTRYPOINT_VLD, rate_control: None },
        VaEntrypointProbe { profile: VA_PROFILE_HEVC_MAIN10, entrypoint: VA_ENTRYPOINT_ENC_SLICE, rate_control: Some(VA_RC_CQP) },
        VaEntrypointProbe { profile: VA_PROFILE_NONE, entrypoint: VA_ENTRYPOINT_VIDEO_PROC, rate_control: Some(VA_ATTRIB_NOT_SUPPORTED) },
    ];
    let attrs = vec![
        pixel_format_attribute(VA_FOURCC_NV12),
        pixel_format_attribute(VA_FOURCC_P010),
        VaSurfaceAttribute { attrib_type: 1, flags: 2, value_type: 1, value: 0x41524742 },
    ];
    let tonemap = vec![VaTonemapProbe {
        fourcc: VA_FOURCC_P010,
        caps: vec![VaHdrCap { metadata_type: 1, caps_flag: 0x2 }],
    }];
    let caps = VaapiCapabilities::from_probe(String::from("Mesa"), &entrypoints, &attrs, &tonemap, Some(1));
    assert_eq!(caps.vendor, "Mesa");
    assert_eq!(caps.supported.len(), 3);
    assert_eq!(caps.rate_control, vec![((VA_PROFILE_HEVC_MAIN10, VA_ENTRYPOINT_ENC_SLICE), VA_RC_CQP)]);
    assert_eq!(caps.vpp_pixel_formats, vec![VA_FOURCC_NV12, VA_FOURCC_P010]);
    assert!(caps.can_hdr_to_sdr_tonemap(&PixelFormat::P010le));
    assert!(!caps.can_hdr_to_hdr_tonemap(&PixelFormat::P010le));
    assert!(caps.can_overlay);
}

#[test]
fn vaapi_without_video_processor_has_no_processing() {
    let entrypoints =
        vec![VaEntrypointProbe { profile: VA_PROFILE_HEVC_MAIN10, entrypoint: VA_ENTRYPOINT_VLD, rate_control: None }];
    let caps = VaapiCapabilities::from_probe(String::new(), &entrypoints, &vec![pixel_format_attribute(VA_FOURCC_NV12)],
        &vec![], Some(1));
    assert!(caps.vpp_pixel_formats.is_empty());
    assert!(!caps.can_overlay);
}

#[test]
fn vaapi_lists_each_pair_and_format_once() {
    let entrypoints = vec![
        VaEntrypointProbe { profile: VA_PROFILE_HEVC_MAIN10, entrypoint: VA_ENTRYPOINT_ENC_SLICE, rate_control: Some(VA_RC_CQP) },
        VaEntrypointProbe { profile: VA_PROFILE_HEVC_MAIN10, entrypoint: VA_ENTRYPOINT_ENC_SLICE, rate_control: Some(VA_RC_VBR) },
        VaEntrypointProbe { profile: VA_PROFILE_NONE, entrypoint: VA_ENTRYPOINT_VIDEO_PROC, rate_control: None },
    ];
    let attrs = vec![pixel_format_attribute(VA_FOURCC_NV12), pixel_format_attribute(VA_FOURCC_NV12)];
    let caps = VaapiCapabilities::from_probe(String::new(), &entrypoints, &attrs, &vec![], None);
    assert_eq!(caps.count(), 2);
    assert_eq!(caps.rate_control, vec![((VA_PROFILE_HEVC_MAIN10, VA_ENTRYPOINT_ENC_SLICE), VA_RC_VBR)]);
    assert_eq!(caps.vpp_pixel_formats, vec![VA_FOURCC_NV12]);
}

#[test]
fn qsv_lists_each_processor_format_once() {
    let caps = QsvCapabilities::from_implementation(&vec![], &vec![], &vec![MFX_FOURCC_NV12, MFX_FOURCC_NV12, MFX_FOURCC_P010]);
    assert_eq!(caps.vpp_pixel_formats.len(), 2);
}

#[test]
fn nvenc_codec_guids_name_formats() {
    assert_eq!(encoder_format(NV_ENC_CODEC_H264_GUID), Some(VideoFormat::H264));
    assert_eq!(encoder_format(NV_ENC_CODEC_HEVC_GUID), Some(VideoFormat::Hevc));
    assert_eq!(encoder_format(NV_ENC_CODEC_AV1_GUID), Some(VideoFormat::Av1));
    assert_eq!(encoder_format(0), None);
}
