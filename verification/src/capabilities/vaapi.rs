use vstd::prelude::*;
use crate::capabilities::{keys_unique, lemma_with_member_unique, with_member};
use crate::pipeline::{PixelFormat, VideoFormat};
use crate::text::{dec_int, eq_lower, i64_to_string, lower};

verus! {

pub const VA_PROFILE_NONE: i32 = -1;
pub const VA_PROFILE_MPEG2_SIMPLE: i32 = 0;
pub const VA_PROFILE_MPEG2_MAIN: i32 = 1;
pub const VA_PROFILE_MPEG4_SIMPLE: i32 = 2;
pub const VA_PROFILE_MPEG4_ADVANCED_SIMPLE: i32 = 3;
pub const VA_PROFILE_MPEG4_MAIN: i32 = 4;
pub const VA_PROFILE_H264_MAIN: i32 = 6;
pub const VA_PROFILE_H264_HIGH: i32 = 7;
pub const VA_PROFILE_VC1_SIMPLE: i32 = 8;
pub const VA_PROFILE_VC1_MAIN: i32 = 9;
pub const VA_PROFILE_VC1_ADVANCED: i32 = 10;
pub const VA_PROFILE_H264_CONSTRAINED_BASELINE: i32 = 13;
pub const VA_PROFILE_VP8_VERSION0_3: i32 = 14;
pub const VA_PROFILE_HEVC_MAIN: i32 = 17;
pub const VA_PROFILE_HEVC_MAIN10: i32 = 18;
pub const VA_PROFILE_VP9_PROFILE0: i32 = 19;
pub const VA_PROFILE_VP9_PROFILE1: i32 = 20;
pub const VA_PROFILE_VP9_PROFILE2: i32 = 21;
pub const VA_PROFILE_VP9_PROFILE3: i32 = 22;
pub const VA_PROFILE_AV1_PROFILE0: i32 = 32;
pub const VA_PROFILE_AV1_PROFILE1: i32 = 33;
pub const VA_PROFILE_H264_HIGH10: i32 = 36;

pub const VA_ENTRYPOINT_VLD: i32 = 1;
pub const VA_ENTRYPOINT_ENC_SLICE: i32 = 6;
pub const VA_ENTRYPOINT_ENC_SLICE_LP: i32 = 8;
pub const VA_ENTRYPOINT_VIDEO_PROC: i32 = 10;

pub const VA_RC_CBR: u32 = 0x2;
pub const VA_RC_VBR: u32 = 0x4;
pub const VA_RC_CQP: u32 = 0x10;

pub const VA_FOURCC_NV12: u32 = 0x3231564E;
pub const VA_FOURCC_P010: u32 = 0x30313050;
pub const VA_FOURCC_BGRA: u32 = 0x41524742;

pub const VA_ATTRIB_NOT_SUPPORTED: u32 = 0x80000000;
pub const VA_SURFACE_ATTRIB_PIXEL_FORMAT: i32 = 1;
pub const VA_SURFACE_ATTRIB_GETTABLE: u32 = 0x1;
pub const VA_GENERIC_VALUE_TYPE_INTEGER: i32 = 1;
pub const VA_PROC_HIGH_DYNAMIC_RANGE_METADATA_NONE: i32 = 0;
pub const VA_TONE_MAPPING_HDR_TO_HDR: u16 = 0x1;
pub const VA_TONE_MAPPING_HDR_TO_SDR: u16 = 0x2;

/// What a VA-API driver supports.
pub struct VaapiCapabilities {
    pub vendor: String,
    /// Supported (profile, entrypoint) pairs, each once.
    pub supported: Vec<(i32, i32)>,
    /// FourCC of the pixel formats the video processor takes.
    pub vpp_pixel_formats: Vec<u32>,
    /// FourCC of the formats that can be tonemapped from HDR to SDR.
    pub can_hdr_to_sdr_tonemap: Vec<u32>,
    /// FourCC of the formats that can be tonemapped from HDR to HDR.
    pub can_hdr_to_hdr_tonemap: Vec<u32>,
    pub can_overlay: bool,
    /// Bitmask of rate control modes per (profile, entrypoint); absent means unknown.
    pub rate_control: Vec<((i32, i32), u32)>,
}

/// The rate control that must be forced on an encoder.
#[derive(Debug, Clone, Copy, PartialEq, Eq, Structural)]
pub enum RateControlMode {
    Cqp,
}

/// The FourCC a pixel format has on a VA surface, if any.
pub open spec fn va_fourcc(pixel_format: PixelFormat) -> Option<u32> {
    match pixel_format {
        PixelFormat::Nv12 | PixelFormat::Yuv420p => Some(VA_FOURCC_NV12),
        PixelFormat::P010le | PixelFormat::Yuv420p10le => Some(VA_FOURCC_P010),
        PixelFormat::Bgra => Some(VA_FOURCC_BGRA),
        _ => None,
    }
}

/// The VA profile and its largest bit depth for an ffprobe codec and profile,
/// both compared without regard to ASCII case.
pub open spec fn profile_entry(codec: Seq<char>, profile: Seq<char>) -> Option<(i32, u8)> {
    let c = lower(codec);
    let p = lower(profile);
    if c == "h264"@ {
        if p == "main"@ || p == "77"@ { Some((VA_PROFILE_H264_MAIN, 8u8)) }
        else if p == "high"@ || p == "100"@ { Some((VA_PROFILE_H264_HIGH, 8u8)) }
        else if p == "high 10"@ || p == "110"@ { Some((VA_PROFILE_H264_HIGH10, 10u8)) }
        else if p == "baseline constrained"@ || p == "constrained baseline"@ || p == "578"@ {
            Some((VA_PROFILE_H264_CONSTRAINED_BASELINE, 8u8))
        } else { None }
    } else if c == "mpeg2video"@ {
        if p == "main"@ || p == "4"@ { Some((VA_PROFILE_MPEG2_MAIN, 8u8)) }
        else if p == "simple"@ || p == "5"@ { Some((VA_PROFILE_MPEG2_SIMPLE, 8u8)) }
        else { None }
    } else if c == "vc1"@ {
        if p == "simple"@ || p == "0"@ { Some((VA_PROFILE_VC1_SIMPLE, 8u8)) }
        else if p == "main"@ || p == "1"@ { Some((VA_PROFILE_VC1_MAIN, 8u8)) }
        else if p == "advanced"@ || p == "3"@ { Some((VA_PROFILE_VC1_ADVANCED, 8u8)) }
        else { None }
    } else if c == "hevc"@ {
        if p == "main"@ || p == "1"@ { Some((VA_PROFILE_HEVC_MAIN, 8u8)) }
        else if p == "main 10"@ || p == "2"@ { Some((VA_PROFILE_HEVC_MAIN10, 10u8)) }
        else { None }
    } else if c == "vp8"@ {
        if p == "0"@ { Some((VA_PROFILE_VP8_VERSION0_3, 8u8)) } else { None }
    } else if c == "vp9"@ {
        if p == "profile 0"@ || p == "0"@ { Some((VA_PROFILE_VP9_PROFILE0, 8u8)) }
        else if p == "profile 1"@ || p == "1"@ { Some((VA_PROFILE_VP9_PROFILE1, 8u8)) }
        else if p == "profile 2"@ || p == "2"@ { Some((VA_PROFILE_VP9_PROFILE2, 10u8)) }
        else if p == "profile 3"@ || p == "3"@ { Some((VA_PROFILE_VP9_PROFILE3, 10u8)) }
        else { None }
    } else if c == "av1"@ {
        if p == "main"@ || p == "0"@ { Some((VA_PROFILE_AV1_PROFILE0, 10u8)) } else { None }
    } else {
        None
    }
}

/// The VA profile that decodes the codec and profile at the bit depth, if any.
pub open spec fn decode_profile(codec: Seq<char>, profile: Seq<char>, bit_depth: u8) -> Option<i32> {
    match profile_entry(codec, profile) {
        Some((p, max)) => if bit_depth > max { None } else { Some(p) },
        None => None,
    }
}

/// The VA profile that encodes the format at the bit depth, if any.
pub open spec fn encode_profile(format: VideoFormat, bit_depth: u8) -> Option<i32> {
    if format == VideoFormat::H264 && bit_depth == 8 {
        Some(VA_PROFILE_H264_MAIN)
    } else if format == VideoFormat::Hevc && bit_depth == 8 {
        Some(VA_PROFILE_HEVC_MAIN)
    } else if format == VideoFormat::Hevc && bit_depth == 10 {
        Some(VA_PROFILE_HEVC_MAIN10)
    } else {
        None
    }
}

/// The rate control mask listed for a key: that of its first entry.
pub open spec fn mask_for(entries: Seq<((i32, i32), u32)>, key: (i32, i32)) -> Option<u32>
    decreases entries.len(),
{
    if entries.len() == 0 {
        None
    } else if entries[0].0 == key {
        Some(entries[0].1)
    } else {
        mask_for(entries.drop_first(), key)
    }
}

/// The decision a mask gives: `Some(Some(Cqp))` to force CQP, `Some(None)` when
/// VBR or CBR is there, `None` to look further.
pub open spec fn mask_decision(mask: Option<u32>) -> Option<Option<RateControlMode>> {
    match mask {
        Some(m) => if m & (VA_RC_VBR | VA_RC_CBR) != 0 {
            Some(None)
        } else if m & VA_RC_CQP != 0 {
            Some(Some(RateControlMode::Cqp))
        } else {
            None
        },
        None => None,
    }
}

/// Whether a FourCC is in a list.
pub fn lists_fourcc(list: &Vec<u32>, fourcc: u32) -> (r: bool)
    ensures
        r == list@.contains(fourcc),
{
    let mut i: usize = 0;
    while i < list.len()
        invariant
            i <= list.len(),
            forall|j: int| 0 <= j < i ==> list@[j] != fourcc,
        decreases list.len() - i,
    {
        if list[i] == fourcc {
            assert(list@[i as int] == fourcc);
            return true;
        }
        i = i + 1;
    }
    false
}

/// Whether a (profile, entrypoint) pair is in a list.
pub fn lists_profile(list: &Vec<(i32, i32)>, profile: i32, entrypoint: i32) -> (r: bool)
    ensures
        r == list@.contains((profile, entrypoint)),
{
    let mut i: usize = 0;
    while i < list.len()
        invariant
            i <= list.len(),
            forall|j: int| 0 <= j < i ==> list@[j] != (profile, entrypoint),
        decreases list.len() - i,
    {
        let (p, e) = list[i];
        if p == profile && e == entrypoint {
            assert(list@[i as int] == (profile, entrypoint));
            return true;
        }
        i = i + 1;
    }
    false
}

/// The FourCC a pixel format has on a VA surface (see `va_fourcc`).
pub fn fourcc_of(pixel_format: &PixelFormat) -> (r: Option<u32>)
    ensures
        r == va_fourcc(*pixel_format),
{
    match pixel_format {
        PixelFormat::Nv12 | PixelFormat::Yuv420p => Some(VA_FOURCC_NV12),
        PixelFormat::P010le | PixelFormat::Yuv420p10le => Some(VA_FOURCC_P010),
        PixelFormat::Bgra => Some(VA_FOURCC_BGRA),
        _ => None,
    }
}

fn lower_is_one_of(s: &str, a: &str, b: &str) -> (r: bool)
    ensures
        r == (lower(s@) == a@ || lower(s@) == b@),
{
    eq_lower(s, a) || eq_lower(s, b)
}

/// The VA profile and largest bit depth of an ffprobe codec and profile (see `profile_entry`).
pub fn profile_entry_of(codec: &str, profile: &str) -> (r: Option<(i32, u8)>)
    ensures
        r == profile_entry(codec@, profile@),
{
    if eq_lower(codec, "h264") {
        if lower_is_one_of(profile, "main", "77") { Some((VA_PROFILE_H264_MAIN, 8u8)) }
        else if lower_is_one_of(profile, "high", "100") { Some((VA_PROFILE_H264_HIGH, 8u8)) }
        else if lower_is_one_of(profile, "high 10", "110") { Some((VA_PROFILE_H264_HIGH10, 10u8)) }
        else if lower_is_one_of(profile, "baseline constrained", "constrained baseline") || eq_lower(profile, "578") {
            Some((VA_PROFILE_H264_CONSTRAINED_BASELINE, 8u8))
        } else { None }
    } else if eq_lower(codec, "mpeg2video") {
        if lower_is_one_of(profile, "main", "4") { Some((VA_PROFILE_MPEG2_MAIN, 8u8)) }
        else if lower_is_one_of(profile, "simple", "5") { Some((VA_PROFILE_MPEG2_SIMPLE, 8u8)) }
        else { None }
    } else if eq_lower(codec, "vc1") {
        if lower_is_one_of(profile, "simple", "0") { Some((VA_PROFILE_VC1_SIMPLE, 8u8)) }
        else if lower_is_one_of(profile, "main", "1") { Some((VA_PROFILE_VC1_MAIN, 8u8)) }
        else if lower_is_one_of(profile, "advanced", "3") { Some((VA_PROFILE_VC1_ADVANCED, 8u8)) }
        else { None }
    } else if eq_lower(codec, "hevc") {
        if lower_is_one_of(profile, "main", "1") { Some((VA_PROFILE_HEVC_MAIN, 8u8)) }
        else if lower_is_one_of(profile, "main 10", "2") { Some((VA_PROFILE_HEVC_MAIN10, 10u8)) }
        else { None }
    } else if eq_lower(codec, "vp8") {
        if eq_lower(profile, "0") { Some((VA_PROFILE_VP8_VERSION0_3, 8u8)) } else { None }
    } else if eq_lower(codec, "vp9") {
        if lower_is_one_of(profile, "profile 0", "0") { Some((VA_PROFILE_VP9_PROFILE0, 8u8)) }
        else if lower_is_one_of(profile, "profile 1", "1") { Some((VA_PROFILE_VP9_PROFILE1, 8u8)) }
        else if lower_is_one_of(profile, "profile 2", "2") { Some((VA_PROFILE_VP9_PROFILE2, 10u8)) }
        else if lower_is_one_of(profile, "profile 3", "3") { Some((VA_PROFILE_VP9_PROFILE3, 10u8)) }
        else { None }
    } else if eq_lower(codec, "av1") {
        if lower_is_one_of(profile, "main", "0") { Some((VA_PROFILE_AV1_PROFILE0, 10u8)) } else { None }
    } else {
        None
    }
}

impl VaapiCapabilities {
    /// Each pair, each format and each pair's mask is listed once.
    pub open spec fn wf(&self) -> bool {
        &&& self.supported@.no_duplicates()
        &&& self.vpp_pixel_formats@.no_duplicates()
        &&& self.can_hdr_to_sdr_tonemap@.no_duplicates()
        &&& self.can_hdr_to_hdr_tonemap@.no_duplicates()
        &&& keys_unique(self.rate_control@)
    }

    pub open spec fn spec_vpp_supports(&self, pixel_format: PixelFormat) -> bool {
        match va_fourcc(pixel_format) {
            Some(c) => self.vpp_pixel_formats@.contains(c),
            None => false,
        }
    }

    pub open spec fn spec_hdr_to_hdr(&self, pixel_format: PixelFormat) -> bool {
        match va_fourcc(pixel_format) {
            Some(c) => self.can_hdr_to_hdr_tonemap@.contains(c),
            None => false,
        }
    }

    pub open spec fn spec_hdr_to_sdr(&self, pixel_format: PixelFormat) -> bool {
        match va_fourcc(pixel_format) {
            Some(c) => self.can_hdr_to_sdr_tonemap@.contains(c),
            None => false,
        }
    }

    pub open spec fn spec_can_decode(&self, codec: Seq<char>, profile: Seq<char>, bit_depth: u8) -> bool {
        match decode_profile(codec, profile, bit_depth) {
            Some(p) => self.supported@.contains((p, VA_ENTRYPOINT_VLD)),
            None => false,
        }
    }

    pub open spec fn spec_can_encode(&self, format: VideoFormat, bit_depth: u8, entrypoint: i32) -> bool {
        match encode_profile(format, bit_depth) {
            Some(p) => self.supported@.contains((p, entrypoint)),
            None => false,
        }
    }

    /// Whether the video processor takes the pixel format.
    pub fn vpp_supports_format(&self, pixel_format: &PixelFormat) -> (r: bool)
        ensures
            r == self.spec_vpp_supports(*pixel_format),
    {
        match fourcc_of(pixel_format) {
            Some(c) => lists_fourcc(&self.vpp_pixel_formats, c),
            None => false,
        }
    }

    /// The VA profile that decodes the codec and profile at the bit depth (see `decode_profile`).
    pub fn decode_profile_for(codec: &str, profile: &str, bit_depth: u8) -> (r: Option<i32>)
        ensures
            r == decode_profile(codec@, profile@, bit_depth),
    {
        match profile_entry_of(codec, profile) {
            Some((p, max)) => if bit_depth > max { None } else { Some(p) },
            None => None,
        }
    }

    /// The VA profile that encodes the format at the bit depth (see `encode_profile`).
    pub fn encode_profile_for(format: &VideoFormat, bit_depth: u8) -> (r: Option<i32>)
        ensures
            r == encode_profile(*format, bit_depth),
    {
        match (format, bit_depth) {
            (VideoFormat::H264, 8) => Some(VA_PROFILE_H264_MAIN),
            (VideoFormat::Hevc, 8) => Some(VA_PROFILE_HEVC_MAIN),
            (VideoFormat::Hevc, 10) => Some(VA_PROFILE_HEVC_MAIN10),
            _ => None,
        }
    }

    /// Whether the driver decodes the codec and profile at the bit depth.
    pub fn can_decode(&self, codec: &str, profile: &str, bit_depth: u8) -> (r: bool)
        ensures
            r == self.spec_can_decode(codec@, profile@, bit_depth),
    {
        match Self::decode_profile_for(codec, profile, bit_depth) {
            Some(p) => lists_profile(&self.supported, p, VA_ENTRYPOINT_VLD),
            None => false,
        }
    }

    /// Whether the driver encodes the format at the bit depth.
    pub fn can_encode(&self, format: &VideoFormat, bit_depth: u8) -> (r: bool)
        ensures
            r == self.spec_can_encode(*format, bit_depth, VA_ENTRYPOINT_ENC_SLICE),
    {
        match Self::encode_profile_for(format, bit_depth) {
            Some(p) => lists_profile(&self.supported, p, VA_ENTRYPOINT_ENC_SLICE),
            None => false,
        }
    }

    /// Whether the driver encodes the format at the bit depth in low-power mode.
    pub fn can_encode_low_power(&self, format: &VideoFormat, bit_depth: u8) -> (r: bool)
        ensures
            r == self.spec_can_encode(*format, bit_depth, VA_ENTRYPOINT_ENC_SLICE_LP),
    {
        match Self::encode_profile_for(format, bit_depth) {
            Some(p) => lists_profile(&self.supported, p, VA_ENTRYPOINT_ENC_SLICE_LP),
            None => false,
        }
    }

    /// The driver's vendor text.
    pub fn vendor(&self) -> (r: &str)
        ensures
            r@ == self.vendor@,
    {
        self.vendor.as_str()
    }

    /// The number of supported (profile, entrypoint) pairs.
    pub fn count(&self) -> (r: usize)
        ensures
            r == self.supported@.len(),
    {
        self.supported.len()
    }

    /// Whether frames of the pixel format can be tonemapped from HDR to HDR.
    pub fn can_hdr_to_hdr_tonemap(&self, pixel_format: &PixelFormat) -> (r: bool)
        ensures
            r == self.spec_hdr_to_hdr(*pixel_format),
    {
        match fourcc_of(pixel_format) {
            Some(c) => lists_fourcc(&self.can_hdr_to_hdr_tonemap, c),
            None => false,
        }
    }

    /// Whether frames of the pixel format can be tonemapped from HDR to SDR.
    pub fn can_hdr_to_sdr_tonemap(&self, pixel_format: &PixelFormat) -> (r: bool)
        ensures
            r == self.spec_hdr_to_sdr(*pixel_format),
    {
        match fourcc_of(pixel_format) {
            Some(c) => lists_fourcc(&self.can_hdr_to_sdr_tonemap, c),
            None => false,
        }
    }

    /// Whether the driver can overlay.
    pub fn can_overlay(&self) -> (r: bool)
        ensures
            r == self.can_overlay,
    {
        self.can_overlay
    }

    fn mask_of(&self, key: (i32, i32)) -> (r: Option<u32>)
        ensures
            r == mask_for(self.rate_control@, key),
    {
        let entries = &self.rate_control;
        let mut i: usize = 0;
        assert(entries@.skip(0) =~= entries@);
        while i < entries.len()
            invariant
                entries == &self.rate_control,
                i <= entries.len(),
                mask_for(entries@, key) == mask_for(entries@.skip(i as int), key),
            decreases entries.len() - i,
        {
            assert(entries@.skip(i as int)[0] == entries@[i as int]);
            let ((p, e), m) = entries[i];
            if p == key.0 && e == key.1 {
                return Some(m);
            }
            assert(entries@.skip(i as int).drop_first() =~= entries@.skip(i as int + 1));
            i = i + 1;
        }
        assert(entries@.skip(i as int).len() == 0);
        None
    }

    /// The rate control to force on the encoder of the format and bit depth: the
    /// masks of the encode and then the low-power entrypoint are looked at in
    /// turn; VBR or CBR there means none, CQP alone means CQP.
    pub open spec fn spec_rate_control_mode(&self, format: VideoFormat, bit_depth: u8) -> Option<RateControlMode> {
        match encode_profile(format, bit_depth) {
            Some(p) => match mask_decision(mask_for(self.rate_control@, (p, VA_ENTRYPOINT_ENC_SLICE))) {
                Some(d) => d,
                None => match mask_decision(mask_for(self.rate_control@, (p, VA_ENTRYPOINT_ENC_SLICE_LP))) {
                    Some(d) => d,
                    None => None,
                },
            },
            None => None,
        }
    }

    fn decide(mask: Option<u32>) -> (r: Option<Option<RateControlMode>>)
        ensures
            r == mask_decision(mask),
    {
        match mask {
            Some(m) => if m & (VA_RC_VBR | VA_RC_CBR) != 0 {
                Some(None)
            } else if m & VA_RC_CQP != 0 {
                Some(Some(RateControlMode::Cqp))
            } else {
                None
            },
            None => None,
        }
    }

    /// Some(Cqp) when CQP is the only rate control the encoder has and must be
    /// forced; None when VBR or CBR is there or nothing is known.
    pub fn rate_control_mode_for(&self, format: &VideoFormat, bit_depth: u8) -> (r: Option<RateControlMode>)
        ensures
            r == self.spec_rate_control_mode(*format, bit_depth),
    {
        let profile = match Self::encode_profile_for(format, bit_depth) {
            Some(p) => p,
            None => return None,
        };
        match Self::decide(self.mask_of((profile, VA_ENTRYPOINT_ENC_SLICE))) {
            Some(d) => d,
            None => match Self::decide(self.mask_of((profile, VA_ENTRYPOINT_ENC_SLICE_LP))) {
                Some(d) => d,
                None => None,
            },
        }
    }
}


/// The name of a VA profile, or `Profile(N)` for one not known here.
pub open spec fn spec_profile_name(p: i32) -> Seq<char> {
    if p == VA_PROFILE_NONE { "None"@ }
    else if p == VA_PROFILE_MPEG2_SIMPLE { "MPEG2Simple"@ }
    else if p == VA_PROFILE_MPEG2_MAIN { "MPEG2Main"@ }
    else if p == VA_PROFILE_MPEG4_SIMPLE { "MPEG4Simple"@ }
    else if p == VA_PROFILE_MPEG4_ADVANCED_SIMPLE { "MPEG4AdvancedSimple"@ }
    else if p == VA_PROFILE_MPEG4_MAIN { "MPEG4Main"@ }
    else if p == VA_PROFILE_H264_MAIN { "H264Main"@ }
    else if p == VA_PROFILE_H264_HIGH { "H264High"@ }
    else if p == VA_PROFILE_VC1_SIMPLE { "VC1Simple"@ }
    else if p == VA_PROFILE_VC1_MAIN { "VC1Main"@ }
    else if p == VA_PROFILE_VC1_ADVANCED { "VC1Advanced"@ }
    else if p == VA_PROFILE_H264_CONSTRAINED_BASELINE { "H264ConstrainedBaseline"@ }
    else if p == VA_PROFILE_VP8_VERSION0_3 { "VP8Version0_3"@ }
    else if p == VA_PROFILE_HEVC_MAIN { "HEVCMain"@ }
    else if p == VA_PROFILE_HEVC_MAIN10 { "HEVCMain10"@ }
    else if p == VA_PROFILE_VP9_PROFILE0 { "VP9Profile0"@ }
    else if p == VA_PROFILE_VP9_PROFILE1 { "VP9Profile1"@ }
    else if p == VA_PROFILE_VP9_PROFILE2 { "VP9Profile2"@ }
    else if p == VA_PROFILE_VP9_PROFILE3 { "VP9Profile3"@ }
    else if p == VA_PROFILE_AV1_PROFILE0 { "AV1Profile0"@ }
    else if p == VA_PROFILE_AV1_PROFILE1 { "AV1Profile1"@ }
    else if p == VA_PROFILE_H264_HIGH10 { "H264High10"@ }
    else { "Profile("@ + dec_int(p as int) + ")"@ }
}

/// The name of a VA profile (see `spec_profile_name`).
pub fn profile_name(p: i32) -> (r: String)
    ensures
        r@ == spec_profile_name(p),
{
    let known: &str = if p == VA_PROFILE_NONE { "None" }
    else if p == VA_PROFILE_MPEG2_SIMPLE { "MPEG2Simple" }
    else if p == VA_PROFILE_MPEG2_MAIN { "MPEG2Main" }
    else if p == VA_PROFILE_MPEG4_SIMPLE { "MPEG4Simple" }
    else if p == VA_PROFILE_MPEG4_ADVANCED_SIMPLE { "MPEG4AdvancedSimple" }
    else if p == VA_PROFILE_MPEG4_MAIN { "MPEG4Main" }
    else if p == VA_PROFILE_H264_MAIN { "H264Main" }
    else if p == VA_PROFILE_H264_HIGH { "H264High" }
    else if p == VA_PROFILE_VC1_SIMPLE { "VC1Simple" }
    else if p == VA_PROFILE_VC1_MAIN { "VC1Main" }
    else if p == VA_PROFILE_VC1_ADVANCED { "VC1Advanced" }
    else if p == VA_PROFILE_H264_CONSTRAINED_BASELINE { "H264ConstrainedBaseline" }
    else if p == VA_PROFILE_VP8_VERSION0_3 { "VP8Version0_3" }
    else if p == VA_PROFILE_HEVC_MAIN { "HEVCMain" }
    else if p == VA_PROFILE_HEVC_MAIN10 { "HEVCMain10" }
    else if p == VA_PROFILE_VP9_PROFILE0 { "VP9Profile0" }
    else if p == VA_PROFILE_VP9_PROFILE1 { "VP9Profile1" }
    else if p == VA_PROFILE_VP9_PROFILE2 { "VP9Profile2" }
    else if p == VA_PROFILE_VP9_PROFILE3 { "VP9Profile3" }
    else if p == VA_PROFILE_AV1_PROFILE0 { "AV1Profile0" }
    else if p == VA_PROFILE_AV1_PROFILE1 { "AV1Profile1" }
    else if p == VA_PROFILE_H264_HIGH10 { "H264High10" }
    else {
        let mut s = "Profile(".to_owned();
        let n = i64_to_string(p as i64);
        s.append(n.as_str());
        s.append(")");
        return s;
    };
    known.to_owned()
}

/// The name of a VA entrypoint, or `Entrypoint(N)` for one not known here.
pub open spec fn spec_entrypoint_name(e: i32) -> Seq<char> {
    if e == VA_ENTRYPOINT_VLD { "VLD"@ }
    else if e == VA_ENTRYPOINT_ENC_SLICE { "EncSlice"@ }
    else if e == VA_ENTRYPOINT_ENC_SLICE_LP { "EncSliceLP"@ }
    else if e == VA_ENTRYPOINT_VIDEO_PROC { "VideoProc"@ }
    else { "Entrypoint("@ + dec_int(e as int) + ")"@ }
}

/// The name of a VA entrypoint (see `spec_entrypoint_name`).
pub fn entrypoint_name(e: i32) -> (r: String)
    ensures
        r@ == spec_entrypoint_name(e),
{
    if e == VA_ENTRYPOINT_VLD {
        "VLD".to_owned()
    } else if e == VA_ENTRYPOINT_ENC_SLICE {
        "EncSlice".to_owned()
    } else if e == VA_ENTRYPOINT_ENC_SLICE_LP {
        "EncSliceLP".to_owned()
    } else if e == VA_ENTRYPOINT_VIDEO_PROC {
        "VideoProc".to_owned()
    } else {
        let mut s = "Entrypoint(".to_owned();
        let n = i64_to_string(e as i64);
        s.append(n.as_str());
        s.append(")");
        s
    }
}

/// The names of the rate control modes in a mask, in the order CQP, CBR, VBR.
pub open spec fn spec_rc_modes(mask: u32) -> Seq<Seq<char>> {
    (if mask & VA_RC_CQP != 0 { seq!["CQP"@] } else { seq![] })
        + (if mask & VA_RC_CBR != 0 { seq!["CBR"@] } else { seq![] })
        + (if mask & VA_RC_VBR != 0 { seq!["VBR"@] } else { seq![] })
}

/// The names of the rate control modes in a mask (see `spec_rc_modes`).
pub fn rc_modes(mask: u32) -> (r: Vec<&'static str>)
    ensures
        r@.map_values(|s: &str| s@) == spec_rc_modes(mask),
{
    let mut r: Vec<&'static str> = Vec::new();
    if mask & VA_RC_CQP != 0 {
        r.push("CQP");
    }
    let ghost r1 = r@;
    if mask & VA_RC_CBR != 0 {
        r.push("CBR");
    }
    let ghost r2 = r@;
    if mask & VA_RC_VBR != 0 {
        r.push("VBR");
    }
    assert(r@.map_values(|s: &str| s@) =~= spec_rc_modes(mask));
    r
}


/// A (profile, entrypoint) pair the driver lists, with the rate control
/// attribute's value when querying it succeeded.
pub struct VaEntrypointProbe {
    pub profile: i32,
    pub entrypoint: i32,
    pub rate_control: Option<u32>,
}

/// A surface attribute of the video processor's configuration.
pub struct VaSurfaceAttribute {
    pub attrib_type: i32,
    pub flags: u32,
    pub value_type: i32,
    pub value: i32,
}

/// A high dynamic range capability of the video processor.
pub struct VaHdrCap {
    pub metadata_type: i32,
    pub caps_flag: u16,
}

/// The HDR capabilities the video processor gave for a format, when querying them succeeded.
pub struct VaTonemapProbe {
    pub fourcc: u32,
    pub caps: Vec<VaHdrCap>,
}

/// The position of the first entry for `key`, or -1.
pub open spec fn key_index(s: Seq<((i32, i32), u32)>, key: (i32, i32)) -> int
    decreases s.len(),
{
    if s.len() == 0 {
        -1
    } else if s[0].0 == key {
        0
    } else {
        let r = key_index(s.drop_first(), key);
        if r < 0 { -1 } else { r + 1 }
    }
}

/// The entries with `key` set to `mask`: the entry for the key replaced, or a
/// new entry at the end.
pub open spec fn with_mask(s: Seq<((i32, i32), u32)>, key: (i32, i32), mask: u32) -> Seq<((i32, i32), u32)> {
    let i = key_index(s, key);
    if i < 0 { s.push((key, mask)) } else { s.update(i, (key, mask)) }
}

/// The rate control masks of the pairs whose attribute is supported; a pair
/// answered twice keeps its last mask.
pub open spec fn probed_rate_control(probes: Seq<VaEntrypointProbe>) -> Seq<((i32, i32), u32)>
    decreases probes.len(),
{
    if probes.len() == 0 {
        seq![]
    } else {
        let rest = probed_rate_control(probes.drop_last());
        let p = probes.last();
        match p.rate_control {
            Some(v) => if v != VA_ATTRIB_NOT_SUPPORTED { with_mask(rest, (p.profile, p.entrypoint), v) } else { rest },
            None => rest,
        }
    }
}

proof fn lemma_key_index(s: Seq<((i32, i32), u32)>, key: (i32, i32))
    ensures
        key_index(s, key) < s.len(),
        key_index(s, key) >= 0 ==> s[key_index(s, key)].0 == key
            && forall|j: int| 0 <= j < key_index(s, key) ==> s[j].0 != key,
        key_index(s, key) < 0 ==> forall|j: int| 0 <= j < s.len() ==> s[j].0 != key,
    decreases s.len(),
{
    if s.len() > 0 && s[0].0 != key {
        lemma_key_index(s.drop_first(), key);
        assert forall|j: int| 0 < j < s.len() implies s[j] == s.drop_first()[j - 1] by {}
    }
}

/// Setting a mask keeps each pair listed once.
proof fn lemma_with_mask_unique(s: Seq<((i32, i32), u32)>, key: (i32, i32), mask: u32)
    requires
        keys_unique(s),
    ensures
        keys_unique(with_mask(s, key, mask)),
{
    lemma_key_index(s, key);
}

/// Whether a surface attribute gives a pixel format: a gettable pixel format of integer value.
pub open spec fn gives_pixel_format(a: VaSurfaceAttribute) -> bool {
    a.attrib_type == VA_SURFACE_ATTRIB_PIXEL_FORMAT && a.flags & VA_SURFACE_ATTRIB_GETTABLE != 0
        && a.value_type == VA_GENERIC_VALUE_TYPE_INTEGER
}

/// The pixel formats the surface attributes give, each once, in the order first given.
pub open spec fn probed_pixel_formats(attrs: Seq<VaSurfaceAttribute>) -> Seq<u32>
    decreases attrs.len(),
{
    if attrs.len() == 0 {
        seq![]
    } else {
        let rest = probed_pixel_formats(attrs.drop_last());
        if gives_pixel_format(attrs.last()) { with_member(rest, attrs.last().value as u32) } else { rest }
    }
}

/// Whether some capability has HDR metadata and some has the flag.
pub open spec fn hdr_caps_allow(caps: Seq<VaHdrCap>, flag: u16) -> bool {
    (exists|i: int| 0 <= i < caps.len() && #[trigger] caps[i].metadata_type != VA_PROC_HIGH_DYNAMIC_RANGE_METADATA_NONE)
        && (exists|i: int| 0 <= i < caps.len() && #[trigger] caps[i].caps_flag & flag != 0)
}

/// The formats, among those the video processor takes, whose capabilities allow
/// tonemapping with the flag, each once.
pub open spec fn probed_tonemap(probes: Seq<VaTonemapProbe>, vpp: Seq<u32>, flag: u16) -> Seq<u32>
    decreases probes.len(),
{
    if probes.len() == 0 {
        seq![]
    } else {
        let rest = probed_tonemap(probes.drop_last(), vpp, flag);
        let p = probes.last();
        if vpp.contains(p.fourcc) && hdr_caps_allow(p.caps@, flag) { with_member(rest, p.fourcc) } else { rest }
    }
}

/// Whether the capabilities allow tonemapping with the flag (see `hdr_caps_allow`).
fn caps_allow(caps: &Vec<VaHdrCap>, flag: u16) -> (r: bool)
    ensures
        r == hdr_caps_allow(caps@, flag),
{
    let mut has_metadata = false;
    let mut has_flag = false;
    let mut i: usize = 0;
    while i < caps.len()
        invariant
            i <= caps.len(),
            has_metadata == exists|k: int| 0 <= k < i && #[trigger] caps@[k].metadata_type != VA_PROC_HIGH_DYNAMIC_RANGE_METADATA_NONE,
            has_flag == exists|k: int| 0 <= k < i && #[trigger] caps@[k].caps_flag & flag != 0,
        decreases caps.len() - i,
    {
        if caps[i].metadata_type != VA_PROC_HIGH_DYNAMIC_RANGE_METADATA_NONE {
            has_metadata = true;
        }
        if caps[i].caps_flag & flag != 0 {
            has_flag = true;
        }
        i = i + 1;
    }
    has_metadata && has_flag
}

fn contains_u32(v: &Vec<u32>, x: u32) -> (r: bool)
    ensures
        r == v@.contains(x),
{
    let mut i: usize = 0;
    while i < v.len()
        invariant
            i <= v.len(),
            forall|k: int| 0 <= k < i ==> v@[k] != x,
        decreases v.len() - i,
    {
        if v[i] == x {
            assert(v@[i as int] == x);
            return true;
        }
        i = i + 1;
    }
    false
}

/// The tonemap formats for a flag (see `probed_tonemap`).
fn tonemap_formats(probes: &Vec<VaTonemapProbe>, vpp: &Vec<u32>, flag: u16) -> (r: Vec<u32>)
    ensures
        r@ == probed_tonemap(probes@, vpp@, flag),
        r@.no_duplicates(),
{
    let mut r: Vec<u32> = Vec::new();
    let mut i: usize = 0;
    while i < probes.len()
        invariant
            i <= probes.len(),
            r@ == probed_tonemap(probes@.take(i as int), vpp@, flag),
            r@.no_duplicates(),
        decreases probes.len() - i,
    {
        assert(probes@.take(i as int + 1).drop_last() =~= probes@.take(i as int));
        proof { lemma_with_member_unique(r@, probes@[i as int].fourcc); }
        if contains_u32(vpp, probes[i].fourcc) && caps_allow(&probes[i].caps, flag) {
            if !contains_u32(&r, probes[i].fourcc) {
                r.push(probes[i].fourcc);
            }
        }
        i = i + 1;
    }
    assert(probes@.take(i as int) =~= probes@);
    r
}

/// The (profile, entrypoint) pairs of the probes, each once, in the order first given.
pub open spec fn probed_pairs(probes: Seq<VaEntrypointProbe>) -> Seq<(i32, i32)>
    decreases probes.len(),
{
    if probes.len() == 0 {
        seq![]
    } else {
        with_member(probed_pairs(probes.drop_last()), (probes.last().profile, probes.last().entrypoint))
    }
}

/// The pairs of the probes are listed once each, and a pair is listed when
/// some probe has it.
proof fn lemma_probed_pairs(probes: Seq<VaEntrypointProbe>)
    ensures
        probed_pairs(probes).no_duplicates(),
        forall|x: (i32, i32)| probed_pairs(probes).contains(x)
            <==> exists|i: int| 0 <= i < probes.len() && (probes[i].profile, probes[i].entrypoint) == x,
    decreases probes.len(),
{
    if probes.len() > 0 {
        let d = probes.drop_last();
        lemma_probed_pairs(d);
        lemma_with_member_unique(probed_pairs(d), (probes.last().profile, probes.last().entrypoint));
        assert forall|x: (i32, i32)| probed_pairs(probes).contains(x)
            <==> exists|i: int| 0 <= i < probes.len() && (probes[i].profile, probes[i].entrypoint) == x by {
            if exists|i: int| 0 <= i < probes.len() && (probes[i].profile, probes[i].entrypoint) == x {
                let i = choose|i: int| 0 <= i < probes.len() && (probes[i].profile, probes[i].entrypoint) == x;
                if i < d.len() {
                    assert(d[i] == probes[i]);
                }
            }
            if probed_pairs(d).contains(x) {
                let i = choose|i: int| 0 <= i < d.len() && (d[i].profile, d[i].entrypoint) == x;
                assert(d[i] == probes[i]);
            }
        }
    }
}

/// The pixel formats are listed once each.
proof fn lemma_probed_pixel_formats(attrs: Seq<VaSurfaceAttribute>)
    ensures
        probed_pixel_formats(attrs).no_duplicates(),
    decreases attrs.len(),
{
    if attrs.len() > 0 {
        lemma_probed_pixel_formats(attrs.drop_last());
        lemma_with_member_unique(probed_pixel_formats(attrs.drop_last()), attrs.last().value as u32);
    }
}

/// Each pair has one mask.
proof fn lemma_probed_rate_control(probes: Seq<VaEntrypointProbe>)
    ensures
        keys_unique(probed_rate_control(probes)),
    decreases probes.len(),
{
    if probes.len() > 0 {
        lemma_probed_rate_control(probes.drop_last());
        let p = probes.last();
        match p.rate_control {
            Some(v) => lemma_with_mask_unique(probed_rate_control(probes.drop_last()), (p.profile, p.entrypoint), v),
            None => {},
        }
    }
}

/// Whether the pair is listed.
fn contains_pair(v: &Vec<(i32, i32)>, x: (i32, i32)) -> (r: bool)
    ensures
        r == v@.contains(x),
{
    let mut i: usize = 0;
    while i < v.len()
        invariant
            i <= v.len(),
            forall|k: int| 0 <= k < i ==> v@[k] != x,
        decreases v.len() - i,
    {
        if v[i].0 == x.0 && v[i].1 == x.1 {
            assert(v@[i as int] == x);
            return true;
        }
        i = i + 1;
    }
    false
}

/// Sets the mask of a pair (see `with_mask`).
fn set_mask(v: &mut Vec<((i32, i32), u32)>, key: (i32, i32), mask: u32)
    ensures
        final(v)@ == with_mask(old(v)@, key, mask),
{
    proof { lemma_key_index(v@, key); }
    let mut i: usize = 0;
    while i < v.len()
        invariant
            v@ == old(v)@,
            i <= v.len(),
            forall|k: int| 0 <= k < i ==> v@[k].0 != key,
            key_index(v@, key) < 0 ==> forall|j: int| 0 <= j < v@.len() ==> v@[j].0 != key,
            key_index(v@, key) >= 0 ==> v@[key_index(v@, key)].0 == key
                && forall|j: int| 0 <= j < key_index(v@, key) ==> v@[j].0 != key,
            key_index(v@, key) < v@.len(),
        decreases v.len() - i,
    {
        if v[i].0.0 == key.0 && v[i].0.1 == key.1 {
            assert(key_index(v@, key) == i as int);
            v.set(i, (key, mask));
            return;
        }
        i = i + 1;
    }
    v.push((key, mask));
}

impl VaapiCapabilities {
    /// The capabilities from what the driver answered: the pairs listed and their
    /// supported rate control masks; when the video processor is listed (no
    /// profile, video processing entrypoint), the pixel formats of its surface
    /// attributes, the formats among them whose HDR capabilities allow
    /// tonemapping to HDR and to SDR, and overlay when the blend flags of its
    /// pipeline are not zero; none of these without the video processor.
    pub fn from_probe(vendor: String, entrypoints: &Vec<VaEntrypointProbe>, surface_attributes: &Vec<VaSurfaceAttribute>,
        tonemap_probes: &Vec<VaTonemapProbe>, blend_flags: Option<u32>) -> (r: VaapiCapabilities)
        ensures
            r.wf(),
            r.vendor@ == vendor@,
            r.supported@ == probed_pairs(entrypoints@),
            r.rate_control@ == probed_rate_control(entrypoints@),
            ({
                let has_vpp = probed_pairs(entrypoints@).contains((VA_PROFILE_NONE, VA_ENTRYPOINT_VIDEO_PROC));
                let vpp = if has_vpp { probed_pixel_formats(surface_attributes@) } else { seq![] };
                &&& r.vpp_pixel_formats@ == vpp
                &&& r.can_hdr_to_hdr_tonemap@ == if has_vpp { probed_tonemap(tonemap_probes@, vpp, VA_TONE_MAPPING_HDR_TO_HDR) } else { seq![] }
                &&& r.can_hdr_to_sdr_tonemap@ == if has_vpp { probed_tonemap(tonemap_probes@, vpp, VA_TONE_MAPPING_HDR_TO_SDR) } else { seq![] }
                &&& r.can_overlay == (has_vpp && (blend_flags matches Some(b) && b > 0))
            }),
    {
        let mut supported: Vec<(i32, i32)> = Vec::new();
        let mut rate_control: Vec<((i32, i32), u32)> = Vec::new();
        let mut i: usize = 0;
        while i < entrypoints.len()
            invariant
                i <= entrypoints.len(),
                supported@ == probed_pairs(entrypoints@.take(i as int)),
                rate_control@ == probed_rate_control(entrypoints@.take(i as int)),
            decreases entrypoints.len() - i,
        {
            assert(entrypoints@.take(i as int + 1).drop_last() =~= entrypoints@.take(i as int));
            let e = &entrypoints[i];
            if !contains_pair(&supported, (e.profile, e.entrypoint)) {
                supported.push((e.profile, e.entrypoint));
            }
            match e.rate_control {
                Some(v) => if v != VA_ATTRIB_NOT_SUPPORTED {
                    set_mask(&mut rate_control, (e.profile, e.entrypoint), v);
                },
                None => {},
            }
            i = i + 1;
        }
        assert(entrypoints@.take(i as int) =~= entrypoints@);
        let mut has_vpp = false;
        let mut j: usize = 0;
        while j < supported.len()
            invariant
                j <= supported.len(),
                has_vpp == exists|k: int| 0 <= k < j && supported@[k] == (VA_PROFILE_NONE, VA_ENTRYPOINT_VIDEO_PROC),
            decreases supported.len() - j,
        {
            if supported[j].0 == VA_PROFILE_NONE && supported[j].1 == VA_ENTRYPOINT_VIDEO_PROC {
                has_vpp = true;
            }
            j = j + 1;
        }
        let mut vpp_pixel_formats: Vec<u32> = Vec::new();
        let mut can_hdr_to_hdr_tonemap: Vec<u32> = Vec::new();
        let mut can_hdr_to_sdr_tonemap: Vec<u32> = Vec::new();
        let mut can_overlay = false;
        if has_vpp {
            let mut k: usize = 0;
            while k < surface_attributes.len()
                invariant
                    k <= surface_attributes.len(),
                    vpp_pixel_formats@ == probed_pixel_formats(surface_attributes@.take(k as int)),
                decreases surface_attributes.len() - k,
            {
                assert(surface_attributes@.take(k as int + 1).drop_last() =~= surface_attributes@.take(k as int));
                let a = &surface_attributes[k];
                if a.attrib_type == VA_SURFACE_ATTRIB_PIXEL_FORMAT && a.flags & VA_SURFACE_ATTRIB_GETTABLE != 0
                    && a.value_type == VA_GENERIC_VALUE_TYPE_INTEGER {
                    if !contains_u32(&vpp_pixel_formats, a.value as u32) {
                        vpp_pixel_formats.push(a.value as u32);
                    }
                }
                k = k + 1;
            }
            assert(surface_attributes@.take(k as int) =~= surface_attributes@);
            can_hdr_to_hdr_tonemap = tonemap_formats(tonemap_probes, &vpp_pixel_formats, VA_TONE_MAPPING_HDR_TO_HDR);
            can_hdr_to_sdr_tonemap = tonemap_formats(tonemap_probes, &vpp_pixel_formats, VA_TONE_MAPPING_HDR_TO_SDR);
            can_overlay = match blend_flags {
                Some(b) => b > 0,
                None => false,
            };
        }
        proof {
            lemma_probed_pairs(entrypoints@);
            lemma_probed_pixel_formats(surface_attributes@);
            lemma_probed_rate_control(entrypoints@);
            if has_vpp {
                let k = choose|k: int| 0 <= k < supported@.len() && supported@[k] == (VA_PROFILE_NONE, VA_ENTRYPOINT_VIDEO_PROC);
                assert(probed_pairs(entrypoints@)[k] == (VA_PROFILE_NONE, VA_ENTRYPOINT_VIDEO_PROC));
            } else {
                assert(!probed_pairs(entrypoints@).contains((VA_PROFILE_NONE, VA_ENTRYPOINT_VIDEO_PROC)));
                assert(vpp_pixel_formats@ =~= seq![]);
                assert(can_hdr_to_hdr_tonemap@ =~= seq![]);
                assert(can_hdr_to_sdr_tonemap@ =~= seq![]);
            }
        }
        VaapiCapabilities {
            vendor,
            supported,
            vpp_pixel_formats,
            can_hdr_to_sdr_tonemap,
            can_hdr_to_hdr_tonemap,
            can_overlay,
            rate_control,
        }
    }
}

} // verus!
