use ffpipeline::capabilities::nvidia::{EncoderCapability, NvidiaCapabilities};
use ffpipeline::capabilities::opencl::OpenCLCapabilities;
use ffpipeline::capabilities::qsv::{QsvCapabilities, QsvPixelFormat, MFX_FOURCC_NV12};
use ffpipeline::capabilities::rkmpp::RkmppCapabilities;
use ffpipeline::capabilities::vaapi::{
    RateControlMode, VaapiCapabilities, VA_ENTRYPOINT_ENC_SLICE, VA_ENTRYPOINT_ENC_SLICE_LP, VA_ENTRYPOINT_VLD,
    VA_FOURCC_NV12, VA_FOURCC_P010, VA_PROFILE_H264_HIGH, VA_PROFILE_HEVC_MAIN, VA_PROFILE_HEVC_MAIN10, VA_RC_CQP,
    VA_RC_VBR,
};
use ffpipeline::capabilities::videotoolbox::VideoToolboxCapabilities;
use ffpipeline::capabilities::vulkan::VulkanCapabilities;
use ffpipeline::pipeline::{PixelFormat, VideoFormat};

fn sample_rkmpp() -> RkmppCapabilities {
    RkmppCapabilities {
        supported_decoders: vec![
            (VideoFormat::H264, 8),
            (VideoFormat::Hevc, 8),
            (VideoFormat::Hevc, 10),
            (VideoFormat::Vp9, 8),
            (VideoFormat::Vp9, 10),
        ],
        supported_encoders: vec![(VideoFormat::H264, 8), (VideoFormat::Hevc, 8)],
    }
}

#[test]
fn can_decode_supported_codec() {
    let caps = sample_rkmpp();
    assert!(caps.can_decode(&VideoFormat::H264, 8));
    assert!(caps.can_decode(&VideoFormat::Hevc, 10));
    assert!(caps.can_decode(&VideoFormat::Vp9, 10));
}

#[test]
fn cannot_decode_unsupported_codec() {
    let caps = sample_rkmpp();
    assert!(!caps.can_decode(&VideoFormat::H264, 10));
    assert!(!caps.can_decode(&VideoFormat::Av1, 8));
}

#[test]
fn encoder_is_8bit_only() {
    let caps = sample_rkmpp();
    assert!(caps.can_encode(&VideoFormat::H264, 8));
    assert!(caps.can_encode(&VideoFormat::Hevc, 8));
    assert!(!caps.can_encode(&VideoFormat::Hevc, 10));
    assert!(!caps.can_encode(&VideoFormat::Vp9, 8));
}

fn sample_videotoolbox() -> VideoToolboxCapabilities {
    VideoToolboxCapabilities {
        supported_decoders: vec![(VideoFormat::H264, 8), (VideoFormat::Hevc, 8), (VideoFormat::Hevc, 10)],
        supported_encoders: vec![(VideoFormat::H264, 8), (VideoFormat::Hevc, 8), (VideoFormat::Hevc, 10)],
    }
}

#[test]
fn mod_can_decode_supported_codec() {
    let caps = sample_videotoolbox();
    assert!(caps.can_decode(&VideoFormat::H264, 8));
    assert!(caps.can_decode(&VideoFormat::Hevc, 8));
    assert!(caps.can_decode(&VideoFormat::Hevc, 10));
}

#[test]
fn mod_cannot_decode_unsupported_codec() {
    let caps = sample_videotoolbox();
    assert!(!caps.can_decode(&VideoFormat::H264, 10));
    assert!(!caps.can_decode(&VideoFormat::Av1, 8));
    assert!(!caps.can_decode(&VideoFormat::Vp9, 8));
}

#[test]
fn can_encode_supported_codec() {
    let caps = sample_videotoolbox();
    assert!(caps.can_encode(&VideoFormat::H264, 8));
    assert!(caps.can_encode(&VideoFormat::Hevc, 10));
}

#[test]
fn cannot_encode_unsupported_codec() {
    let caps = sample_videotoolbox();
    assert!(!caps.can_encode(&VideoFormat::H264, 10));
    assert!(!caps.can_encode(&VideoFormat::Av1, 8));
}

#[test]
fn empty_capabilities_deny_all() {
    let caps = VideoToolboxCapabilities { supported_decoders: Vec::new(), supported_encoders: Vec::new() };
    assert!(!caps.can_decode(&VideoFormat::H264, 8));
    assert!(!caps.can_encode(&VideoFormat::Hevc, 8));
}

#[test]
fn rkmpp_probe_results_follow_the_coding_tables() {
    // avc and hevc decode, vp8 and vp9 do not; only hevc encodes
    let caps = RkmppCapabilities::from_probe(&vec![true, true, false, false], &vec![false, true]);
    assert!(caps.can_decode(&VideoFormat::H264, 8));
    assert!(!caps.can_decode(&VideoFormat::H264, 10));
    assert!(caps.can_decode(&VideoFormat::Hevc, 10));
    assert!(!caps.can_decode(&VideoFormat::Vp9, 8));
    assert!(caps.can_encode(&VideoFormat::Hevc, 8));
    assert!(!caps.can_encode(&VideoFormat::H264, 8));
    assert!(!caps.can_encode(&VideoFormat::Hevc, 10));
}

#[test]
fn stub_probes_find_nothing() {
    let r = RkmppCapabilities::probe().ok().unwrap();
    assert!(r.supported_decoders.is_empty() && r.supported_encoders.is_empty());
    let v = VideoToolboxCapabilities::probe().ok().unwrap();
    assert!(v.supported_decoders.is_empty());
    let o = OpenCLCapabilities::probe().ok().unwrap();
    assert!(!o.can_tonemap() && !o.can_pad());
    let k = VulkanCapabilities::probe().ok().unwrap();
    assert_eq!(k.device_index, 0);
    let n = NvidiaCapabilities::probe().ok().unwrap();
    assert!(!n.can_decode(&VideoFormat::H264, 8));
    let q = QsvCapabilities::probe().ok().unwrap();
    assert!(!q.can_encode(&VideoFormat::H264, 8));
}

#[test]
fn nvidia_first_entry_of_a_format_counts() {
    let caps = NvidiaCapabilities {
        supported_decoders: vec![(VideoFormat::Hevc, vec![8, 10]), (VideoFormat::H264, vec![8])],
        supported_encoders: vec![(VideoFormat::Hevc, EncoderCapability { bit_depths: vec![8], b_frame_ref_mode: true })],
    };
    assert!(caps.can_decode(&VideoFormat::Hevc, 10));
    assert!(!caps.can_decode(&VideoFormat::H264, 10));
    assert!(caps.can_encode(&VideoFormat::Hevc, 8));
    assert!(!caps.can_encode(&VideoFormat::Hevc, 10));
    assert!(caps.b_frame_ref_mode(&VideoFormat::Hevc));
    assert!(!caps.b_frame_ref_mode(&VideoFormat::H264));
    assert!(caps.vpp_supports_format(&PixelFormat::P010le));
    assert!(!caps.vpp_supports_format(&PixelFormat::Yuv420p));
}

#[test]
fn opencl_counts_add_up() {
    let caps = OpenCLCapabilities::from_device_counts(2, &vec![1, 3]);
    assert_eq!(caps.platform_count, 2);
    assert_eq!(caps.gpu_device_count, 4);
    assert!(caps.can_tonemap());
    let none = OpenCLCapabilities::from_device_counts(1, &vec![0]);
    assert!(!none.can_pad());
}

#[test]
fn qsv_vpp_maps_software_formats_to_fourcc() {
    let caps = QsvCapabilities {
        supported_decoders: vec![(VideoFormat::H264, vec![8])],
        supported_encoders: Vec::new(),
        vpp_pixel_formats: vec![QsvPixelFormat(MFX_FOURCC_NV12)],
    };
    assert!(caps.vpp_supports_format(&PixelFormat::Yuv420p));
    assert!(caps.vpp_supports_format(&PixelFormat::Nv12));
    assert!(!caps.vpp_supports_format(&PixelFormat::P010le));
    assert!(!caps.vpp_supports_format(&PixelFormat::Bgra));
    assert!(caps.can_decode(&VideoFormat::H264, 8));
}

fn sample_vaapi() -> VaapiCapabilities {
    VaapiCapabilities {
        vendor: String::from("test"),
        supported: vec![
            (VA_PROFILE_H264_HIGH, VA_ENTRYPOINT_VLD),
            (VA_PROFILE_HEVC_MAIN, VA_ENTRYPOINT_ENC_SLICE_LP),
            (VA_PROFILE_HEVC_MAIN10, VA_ENTRYPOINT_ENC_SLICE),
        ],
        vpp_pixel_formats: vec![VA_FOURCC_NV12],
        can_hdr_to_sdr_tonemap: vec![VA_FOURCC_P010],
        can_hdr_to_hdr_tonemap: Vec::new(),
        can_overlay: true,
        rate_control: vec![
            ((VA_PROFILE_HEVC_MAIN, VA_ENTRYPOINT_ENC_SLICE_LP), VA_RC_CQP),
            ((VA_PROFILE_HEVC_MAIN10, VA_ENTRYPOINT_ENC_SLICE), VA_RC_CQP | VA_RC_VBR),
        ],
    }
}

#[test]
fn vaapi_decode_profiles_ignore_case_and_bit_depth_limits() {
    let caps = sample_vaapi();
    assert!(caps.can_decode("H264", "High", 8));
    assert!(caps.can_decode("h264", "100", 8));
    assert!(!caps.can_decode("h264", "high", 10));
    assert!(!caps.can_decode("hevc", "main", 8));
    assert!(!caps.can_decode("unknown", "main", 8));
}

#[test]
fn vaapi_encode_and_rate_control() {
    let caps = sample_vaapi();
    assert!(!caps.can_encode(&VideoFormat::Hevc, 8));
    assert!(caps.can_encode_low_power(&VideoFormat::Hevc, 8));
    assert!(caps.can_encode(&VideoFormat::Hevc, 10));
    assert_eq!(caps.rate_control_mode_for(&VideoFormat::Hevc, 8), Some(RateControlMode::Cqp));
    assert_eq!(caps.rate_control_mode_for(&VideoFormat::Hevc, 10), None);
    assert_eq!(caps.rate_control_mode_for(&VideoFormat::H264, 8), None);
    assert_eq!(caps.count(), 3);
    assert_eq!(caps.vendor(), "test");
    assert!(caps.can_hdr_to_sdr_tonemap(&PixelFormat::P010le));
    assert!(!caps.can_hdr_to_hdr_tonemap(&PixelFormat::P010le));
    assert!(caps.vpp_supports_format(&PixelFormat::Yuv420p));
    assert!(!caps.vpp_supports_format(&PixelFormat::Bgra));
    assert!(caps.can_overlay());
}
