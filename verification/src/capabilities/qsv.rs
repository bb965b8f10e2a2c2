use vstd::prelude::*;
use crate::capabilities::{depths_for, keys_unique, lemma_depths_for_push, lists_depth, lists_format_depth};
use crate::pipeline::{PixelFormat, VideoFormat};

verus! {

/// The oneVPL FourCC of NV12.
pub const MFX_FOURCC_NV12: u32 = 0x3231564E;
/// The oneVPL FourCC of P010.
pub const MFX_FOURCC_P010: u32 = 0x30313050;

/// The oneVPL codec identifiers (FourCC).
pub const MFX_CODEC_AVC: u32 = 0x20435641;
pub const MFX_CODEC_HEVC: u32 = 0x43564548;
pub const MFX_CODEC_MPEG2: u32 = 0x3247504D;
pub const MFX_CODEC_VC1: u32 = 0x20314356;
pub const MFX_CODEC_VP8: u32 = 0x20385056;
pub const MFX_CODEC_VP9: u32 = 0x20395056;
pub const MFX_CODEC_AV1: u32 = 0x20315641;

/// The oneVPL profiles that carry 10-bit video.
pub const MFX_PROFILE_AVC_HIGH10: u32 = 110;
pub const MFX_PROFILE_HEVC_MAIN10: u32 = 2;
pub const MFX_PROFILE_VP9_2: u32 = 3;
pub const MFX_PROFILE_VP9_3: u32 = 4;

/// A pixel format of the QSV video processor, by its FourCC.
#[derive(Debug, Clone, Copy, PartialEq, Eq, Structural)]
pub struct QsvPixelFormat(pub u32);

/// What Intel Quick Sync Video can decode, encode and process.
pub struct QsvCapabilities {
    pub supported_decoders: Vec<(VideoFormat, Vec<u8>)>,
    pub supported_encoders: Vec<(VideoFormat, Vec<u8>)>,
    pub vpp_pixel_formats: Vec<QsvPixelFormat>,
}

/// The FourCC that a pixel format is processed as, if any.
pub open spec fn qsv_fourcc(pixel_format: PixelFormat) -> Option<u32> {
    match pixel_format {
        PixelFormat::Nv12 | PixelFormat::Yuv420p => Some(MFX_FOURCC_NV12),
        PixelFormat::P010le | PixelFormat::Yuv420p10le => Some(MFX_FOURCC_P010),
        _ => None,
    }
}

impl QsvCapabilities {
    /// Each format is listed once among the decoders and once among the
    /// encoders, and each processor format once.
    pub open spec fn wf(&self) -> bool {
        keys_unique(self.supported_decoders@) && keys_unique(self.supported_encoders@)
            && self.vpp_pixel_formats@.no_duplicates()
    }

    pub open spec fn spec_vpp_supports(&self, pixel_format: PixelFormat) -> bool {
        match qsv_fourcc(pixel_format) {
            Some(c) => self.vpp_pixel_formats@.contains(QsvPixelFormat(c)),
            None => false,
        }
    }

    /// Whether frames of the format and bit depth can be decoded.
    pub fn can_decode(&self, format: &VideoFormat, bit_depth: u8) -> (r: bool)
        ensures
            r == lists_depth(self.supported_decoders@, *format, bit_depth),
    {
        lists_format_depth(&self.supported_decoders, *format, bit_depth)
    }

    /// Whether frames of the format and bit depth can be encoded.
    pub fn can_encode(&self, format: &VideoFormat, bit_depth: u8) -> (r: bool)
        ensures
            r == lists_depth(self.supported_encoders@, *format, bit_depth),
    {
        lists_format_depth(&self.supported_encoders, *format, bit_depth)
    }

    /// Whether the video processor takes the pixel format.
    pub fn vpp_supports_format(&self, pixel_format: &PixelFormat) -> (r: bool)
        ensures
            r == self.spec_vpp_supports(*pixel_format),
    {
        let fourcc: u32 = match pixel_format {
            PixelFormat::Nv12 | PixelFormat::Yuv420p => MFX_FOURCC_NV12,
            PixelFormat::P010le | PixelFormat::Yuv420p10le => MFX_FOURCC_P010,
            _ => return false,
        };
        let mut i: usize = 0;
        while i < self.vpp_pixel_formats.len()
            invariant
                qsv_fourcc(*pixel_format) == Some(fourcc),
                i <= self.vpp_pixel_formats.len(),
                forall|j: int| 0 <= j < i ==> self.vpp_pixel_formats@[j] != QsvPixelFormat(fourcc),
            decreases self.vpp_pixel_formats.len() - i,
        {
            if self.vpp_pixel_formats[i].0 == fourcc {
                assert(self.vpp_pixel_formats@[i as int] == QsvPixelFormat(fourcc));
                return true;
            }
            i = i + 1;
        }
        false
    }

    /// The capabilities on a platform without QSV: nothing is supported. Where
    /// oneVPL is there, its descriptions are read through the native library and
    /// turned into capabilities by `from_implementation`.
    pub fn probe() -> (r: Result<QsvCapabilities, crate::error::FFPipelineError>)
        ensures
            r matches Ok(c) && c.supported_decoders@.len() == 0 && c.supported_encoders@.len() == 0
                && c.vpp_pixel_formats@.len() == 0 && c.wf(),
    {
        Ok(QsvCapabilities { supported_decoders: Vec::new(), supported_encoders: Vec::new(), vpp_pixel_formats: Vec::new() })
    }
}


/// A codec that a oneVPL implementation describes, with its profiles.
pub struct QsvCodecDescription {
    pub codec_id: u32,
    pub profiles: Vec<u32>,
}

/// Whether a profile of a codec carries 10-bit video: high 10 for AVC, main 10
/// for HEVC, profiles 2 and 3 for VP9, any profile for AV1.
pub open spec fn spec_is_10bit_profile(codec_id: u32, profile: u32) -> bool {
    if codec_id == MFX_CODEC_AVC {
        profile == MFX_PROFILE_AVC_HIGH10
    } else if codec_id == MFX_CODEC_HEVC {
        profile == MFX_PROFILE_HEVC_MAIN10
    } else if codec_id == MFX_CODEC_VP9 {
        profile == MFX_PROFILE_VP9_2 || profile == MFX_PROFILE_VP9_3
    } else {
        codec_id == MFX_CODEC_AV1
    }
}

/// Whether a profile of a codec carries 10-bit video (see `spec_is_10bit_profile`).
pub fn is_10bit_profile(codec_id: u32, profile: u32) -> (r: bool)
    ensures
        r == spec_is_10bit_profile(codec_id, profile),
{
    if codec_id == MFX_CODEC_AVC {
        profile == MFX_PROFILE_AVC_HIGH10
    } else if codec_id == MFX_CODEC_HEVC {
        profile == MFX_PROFILE_HEVC_MAIN10
    } else if codec_id == MFX_CODEC_VP9 {
        profile == MFX_PROFILE_VP9_2 || profile == MFX_PROFILE_VP9_3
    } else {
        codec_id == MFX_CODEC_AV1
    }
}

/// Whether any of the profiles carries 10-bit video.
pub open spec fn any_10bit(codec_id: u32, profiles: Seq<u32>) -> bool {
    exists|i: int| 0 <= i < profiles.len() && spec_is_10bit_profile(codec_id, #[trigger] profiles[i])
}

/// Whether any of the profiles carries 10-bit video (see `any_10bit`).
pub fn encoder_supports_10bit(profiles: &Vec<u32>, codec_id: u32) -> (r: bool)
    ensures
        r == any_10bit(codec_id, profiles@),
{
    let mut i: usize = 0;
    while i < profiles.len()
        invariant
            i <= profiles.len(),
            forall|j: int| 0 <= j < i ==> !spec_is_10bit_profile(codec_id, #[trigger] profiles@[j]),
        decreases profiles.len() - i,
    {
        if is_10bit_profile(codec_id, profiles[i]) {
            return true;
        }
        i = i + 1;
    }
    false
}

/// The formats QSV is asked about, in order.
pub open spec fn qsv_formats() -> Seq<VideoFormat> {
    seq![VideoFormat::Av1, VideoFormat::H264, VideoFormat::Hevc, VideoFormat::Mpeg2Video, VideoFormat::Vc1,
        VideoFormat::Vp8, VideoFormat::Vp9]
}

/// The oneVPL codec of a format.
pub open spec fn spec_qsv_codec(format: VideoFormat) -> u32 {
    match format {
        VideoFormat::Av1 => MFX_CODEC_AV1,
        VideoFormat::H264 => MFX_CODEC_AVC,
        VideoFormat::Hevc => MFX_CODEC_HEVC,
        VideoFormat::Mpeg2Video => MFX_CODEC_MPEG2,
        VideoFormat::Vc1 => MFX_CODEC_VC1,
        VideoFormat::Vp8 => MFX_CODEC_VP8,
        VideoFormat::Vp9 => MFX_CODEC_VP9,
    }
}

/// The oneVPL codec of a format (see `spec_qsv_codec`).
pub fn qsv_codec(format: VideoFormat) -> (r: u32)
    ensures
        r == spec_qsv_codec(format),
{
    match format {
        VideoFormat::Av1 => MFX_CODEC_AV1,
        VideoFormat::H264 => MFX_CODEC_AVC,
        VideoFormat::Hevc => MFX_CODEC_HEVC,
        VideoFormat::Mpeg2Video => MFX_CODEC_MPEG2,
        VideoFormat::Vc1 => MFX_CODEC_VC1,
        VideoFormat::Vp8 => MFX_CODEC_VP8,
        VideoFormat::Vp9 => MFX_CODEC_VP9,
    }
}

/// The first description of a codec, if any.
pub open spec fn first_description(descs: Seq<QsvCodecDescription>, codec_id: u32) -> Option<int>
    decreases descs.len(),
{
    if descs.len() == 0 {
        None
    } else if descs[0].codec_id == codec_id {
        Some(0)
    } else {
        match first_description(descs.drop_first(), codec_id) {
            Some(i) => Some(i + 1),
            None => None,
        }
    }
}

/// 8 bits, and 10 bits too when `ten`.
pub open spec fn qsv_depths(ten: bool) -> Seq<u8> {
    if ten { seq![8u8, 10u8] } else { seq![8u8] }
}

/// The depths a format decodes at: none when no decoder describes its codec;
/// else 8 bits, and 10 too when a profile of the first description is 10-bit.
pub open spec fn qsv_decoder_depths(decoders: Seq<QsvCodecDescription>, format: VideoFormat) -> Option<Seq<u8>> {
    let id = spec_qsv_codec(format);
    match first_description(decoders, id) {
        Some(i) => Some(qsv_depths(any_10bit(id, decoders[i].profiles@))),
        None => None,
    }
}

/// The depths a format encodes at: none when the first encoder description of
/// its codec has no profile (or there is none); else 8 bits, and 10 too when one
/// of those profiles is 10-bit.
pub open spec fn qsv_encoder_depths(encoders: Seq<QsvCodecDescription>, format: VideoFormat) -> Option<Seq<u8>> {
    let id = spec_qsv_codec(format);
    match first_description(encoders, id) {
        Some(i) => if encoders[i].profiles@.len() > 0 {
            Some(qsv_depths(any_10bit(id, encoders[i].profiles@)))
        } else {
            None
        },
        None => None,
    }
}

/// The position of the first description of a codec (see `first_description`).
fn find_description(descs: &Vec<QsvCodecDescription>, codec_id: u32) -> (r: Option<usize>)
    ensures
        match r {
            Some(i) => first_description(descs@, codec_id) == Some(i as int) && i < descs@.len(),
            None => first_description(descs@, codec_id).is_none(),
        },
{
    let mut i: usize = 0;
    assert(descs@.skip(0) =~= descs@);
    while i < descs.len()
        invariant
            i <= descs.len(),
            forall|k: int| 0 <= k < i ==> descs@[k].codec_id != codec_id,
            first_description(descs@, codec_id) == match first_description(descs@.skip(i as int), codec_id) {
                Some(k) => Some(k + i),
                None => None,
            },
        decreases descs.len() - i,
    {
        assert(descs@.skip(i as int)[0] == descs@[i as int]);
        if descs[i].codec_id == codec_id {
            return Some(i);
        }
        assert(descs@.skip(i as int).drop_first() =~= descs@.skip(i as int + 1));
        i = i + 1;
    }
    assert(descs@.skip(i as int).len() == 0);
    None
}

/// Whether the processor format is listed.
fn lists_vpp_format(formats: &Vec<QsvPixelFormat>, f: QsvPixelFormat) -> (r: bool)
    ensures
        r == formats@.contains(f),
{
    let mut i: usize = 0;
    while i < formats.len()
        invariant
            i <= formats.len(),
            forall|k: int| 0 <= k < i ==> formats@[k] != f,
        decreases formats.len() - i,
    {
        if formats[i].0 == f.0 {
            assert(formats@[i as int] == f);
            return true;
        }
        i = i + 1;
    }
    false
}

fn depths_vec(ten: bool) -> (r: Vec<u8>)
    ensures
        r@ == qsv_depths(ten),
{
    let mut r: Vec<u8> = Vec::new();
    r.push(8);
    if ten {
        r.push(10);
    }
    assert(r@ =~= qsv_depths(ten));
    r
}

impl QsvCapabilities {
    /// The capabilities that an implementation's descriptions give: for each
    /// format, the depths of `qsv_decoder_depths` and `qsv_encoder_depths`, and
    /// the video processor's formats.
    pub fn from_implementation(decoders: &Vec<QsvCodecDescription>, encoders: &Vec<QsvCodecDescription>,
        vpp_formats: &Vec<u32>) -> (r: QsvCapabilities)
        ensures
            r.wf(),
            forall|f: VideoFormat| depths_for(r.supported_decoders@, f) == qsv_decoder_depths(decoders@, f),
            forall|f: VideoFormat| depths_for(r.supported_encoders@, f) == qsv_encoder_depths(encoders@, f),
            forall|c: u32| r.vpp_pixel_formats@.contains(QsvPixelFormat(c)) <==> vpp_formats@.contains(c),
    {
        let formats = vec![VideoFormat::Av1, VideoFormat::H264, VideoFormat::Hevc, VideoFormat::Mpeg2Video,
            VideoFormat::Vc1, VideoFormat::Vp8, VideoFormat::Vp9];
        assert(formats@ =~= qsv_formats());
        let mut supported_decoders: Vec<(VideoFormat, Vec<u8>)> = Vec::new();
        let mut supported_encoders: Vec<(VideoFormat, Vec<u8>)> = Vec::new();
        let mut i: usize = 0;
        while i < formats.len()
            invariant
                i <= formats.len(),
                formats@ == qsv_formats(),
                forall|f: VideoFormat| #[trigger] depths_for(supported_decoders@, f) == if formats@.take(i as int).contains(f) {
                    qsv_decoder_depths(decoders@, f)
                } else {
                    None
                },
                forall|f: VideoFormat| #[trigger] depths_for(supported_encoders@, f) == if formats@.take(i as int).contains(f) {
                    qsv_encoder_depths(encoders@, f)
                } else {
                    None
                },
                keys_unique(supported_decoders@),
                keys_unique(supported_encoders@),
                forall|m: int| 0 <= m < supported_decoders@.len() ==> formats@.take(i as int).contains(#[trigger] supported_decoders@[m].0),
                forall|m: int| 0 <= m < supported_encoders@.len() ==> formats@.take(i as int).contains(#[trigger] supported_encoders@[m].0),
            decreases formats.len() - i,
        {
            let format = formats[i];
            let id = qsv_codec(format);
            let ghost dec0 = supported_decoders@;
            let ghost enc0 = supported_encoders@;
            assert forall|f: VideoFormat| formats@.take(i as int + 1).contains(f) == (formats@.take(i as int).contains(f) || f == format) by {
                assert(formats@.take(i as int + 1) =~= formats@.take(i as int).push(format));
                if formats@.take(i as int + 1).contains(f) {
                    let k = choose|k: int| 0 <= k < i + 1 && #[trigger] formats@.take(i as int + 1)[k] == f;
                    if k < i {
                        assert(formats@.take(i as int)[k] == f);
                    }
                }
                if formats@.take(i as int).contains(f) {
                    let k = choose|k: int| 0 <= k < i && #[trigger] formats@.take(i as int)[k] == f;
                    assert(formats@.take(i as int + 1)[k] == f);
                }
                if f == format {
                    assert(formats@.take(i as int + 1)[i as int] == f);
                }
            }
            assert(!formats@.take(i as int).contains(format)) by {
                if formats@.take(i as int).contains(format) {
                    let k = choose|k: int| 0 <= k < i && #[trigger] formats@.take(i as int)[k] == format;
                    assert(formats@[k] == formats@[i as int]);
                }
            }
            match find_description(decoders, id) {
                Some(k) => {
                    let ten = encoder_supports_10bit(&decoders[k].profiles, id);
                    let e = (format, depths_vec(ten));
                    proof {
                        assert forall|f: VideoFormat| #[trigger] depths_for(dec0.push(e), f) == depths_for(dec0, f)
                            || f == format by {
                            lemma_depths_for_push(dec0, e, f);
                        }
                        lemma_depths_for_push(dec0, e, format);
                        assert forall|m: int| 0 <= m < dec0.len() implies dec0[m].0 != e.0 by {
                            assert(formats@.take(i as int).contains(dec0[m].0));
                        }
                    }
                    supported_decoders.push(e);
                    assert(supported_decoders@[dec0.len() as int] == e);
                },
                None => {},
            }
            match find_description(encoders, id) {
                Some(k) => if encoders[k].profiles.len() > 0 {
                    let ten = encoder_supports_10bit(&encoders[k].profiles, id);
                    let e = (format, depths_vec(ten));
                    proof {
                        assert forall|f: VideoFormat| #[trigger] depths_for(enc0.push(e), f) == depths_for(enc0, f)
                            || f == format by {
                            lemma_depths_for_push(enc0, e, f);
                        }
                        lemma_depths_for_push(enc0, e, format);
                        assert forall|m: int| 0 <= m < enc0.len() implies enc0[m].0 != e.0 by {
                            assert(formats@.take(i as int).contains(enc0[m].0));
                        }
                    }
                    supported_encoders.push(e);
                    assert(supported_encoders@[enc0.len() as int] == e);
                },
                None => {},
            }
            i = i + 1;
        }
        proof {
            assert(formats@.take(7) =~= qsv_formats());
            assert forall|f: VideoFormat| qsv_formats().contains(f) by {
                match f {
                    VideoFormat::Av1 => assert(qsv_formats()[0] == f),
                    VideoFormat::H264 => assert(qsv_formats()[1] == f),
                    VideoFormat::Hevc => assert(qsv_formats()[2] == f),
                    VideoFormat::Mpeg2Video => assert(qsv_formats()[3] == f),
                    VideoFormat::Vc1 => assert(qsv_formats()[4] == f),
                    VideoFormat::Vp8 => assert(qsv_formats()[5] == f),
                    VideoFormat::Vp9 => assert(qsv_formats()[6] == f),
                }
            }
        }
        let mut vpp_pixel_formats: Vec<QsvPixelFormat> = Vec::new();
        let mut j: usize = 0;
        while j < vpp_formats.len()
            invariant
                j <= vpp_formats.len(),
                vpp_pixel_formats@.no_duplicates(),
                forall|c: u32| vpp_pixel_formats@.contains(QsvPixelFormat(c)) <==> vpp_formats@.take(j as int).contains(c),
            decreases vpp_formats.len() - j,
        {
            let f = QsvPixelFormat(vpp_formats[j]);
            let ghost before = vpp_pixel_formats@;
            assert(vpp_formats@.take(j as int + 1) =~= vpp_formats@.take(j as int).push(vpp_formats@[j as int]));
            if !lists_vpp_format(&vpp_pixel_formats, f) {
                vpp_pixel_formats.push(f);
                proof {
                    assert forall|a: int, b: int| 0 <= a < vpp_pixel_formats@.len() && 0 <= b < vpp_pixel_formats@.len()
                        && a != b implies vpp_pixel_formats@[a] != vpp_pixel_formats@[b] by {
                        if a == before.len() as int {
                            assert(before.contains(before[b]));
                        } else if b == before.len() as int {
                            assert(before.contains(before[a]));
                        }
                    }
                }
            }
            proof {
                assert forall|c: u32| vpp_pixel_formats@.contains(QsvPixelFormat(c))
                    <==> vpp_formats@.take(j as int + 1).contains(c) by {
                    let t = vpp_formats@.take(j as int);
                    if vpp_formats@.take(j as int + 1).contains(c) {
                        let k = choose|k: int| 0 <= k < j + 1 && #[trigger] vpp_formats@.take(j as int + 1)[k] == c;
                        if k < j {
                            assert(t[k] == c);
                            assert(t.contains(c));
                            assert(before.contains(QsvPixelFormat(c)));
                            let m = choose|m: int| 0 <= m < before.len() && before[m] == QsvPixelFormat(c);
                            assert(vpp_pixel_formats@[m] == QsvPixelFormat(c));
                        } else if before.contains(f) {
                            let m = choose|m: int| 0 <= m < before.len() && before[m] == f;
                            assert(vpp_pixel_formats@[m] == QsvPixelFormat(c));
                        } else {
                            assert(vpp_pixel_formats@[before.len() as int] == QsvPixelFormat(c));
                        }
                    }
                    if vpp_pixel_formats@.contains(QsvPixelFormat(c)) {
                        let m = choose|m: int| 0 <= m < vpp_pixel_formats@.len() && vpp_pixel_formats@[m] == QsvPixelFormat(c);
                        if m < before.len() {
                            assert(before[m] == QsvPixelFormat(c));
                            assert(before.contains(QsvPixelFormat(c)));
                            assert(t.contains(c));
                            let k = choose|k: int| 0 <= k < t.len() && #[trigger] t[k] == c;
                            assert(vpp_formats@.take(j as int + 1)[k] == c);
                        } else {
                            assert(vpp_pixel_formats@[m] == f);
                            assert(f.0 == vpp_formats@[j as int]);
                            assert(vpp_formats@.take(j as int + 1)[j as int] == c);
                        }
                    }
                }
            }
            j = j + 1;
        }
        assert(vpp_formats@.take(j as int) =~= vpp_formats@);
        QsvCapabilities { supported_decoders, supported_encoders, vpp_pixel_formats }
    }
}

} // verus!
