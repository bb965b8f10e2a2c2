use vstd::prelude::*;
use crate::capabilities::{depths_for, has_depth, keys_unique, lemma_depths_for_push, lists_depth, lists_format_depth};
use crate::pipeline::{PixelFormat, VideoFormat};

verus! {

/// What NVENC can do for one format.
pub struct EncoderCapability {
    pub bit_depths: Vec<u8>,
    pub b_frame_ref_mode: bool,
}

/// What an NVIDIA GPU can decode (bit depths per format) and encode.
pub struct NvidiaCapabilities {
    pub supported_decoders: Vec<(VideoFormat, Vec<u8>)>,
    pub supported_encoders: Vec<(VideoFormat, EncoderCapability)>,
}

/// The encoder capability listed for `format`: that of its first entry.
pub open spec fn encoder_for(entries: Seq<(VideoFormat, EncoderCapability)>, format: VideoFormat) -> Option<EncoderCapability>
    decreases entries.len(),
{
    if entries.len() == 0 {
        None
    } else if entries[0].0 == format {
        Some(entries[0].1)
    } else {
        encoder_for(entries.drop_first(), format)
    }
}

impl NvidiaCapabilities {
    /// Each format is listed once among the decoders and once among the encoders.
    pub open spec fn wf(&self) -> bool {
        keys_unique(self.supported_decoders@) && keys_unique(self.supported_encoders@)
    }

    fn encoder_position(&self, format: VideoFormat) -> (r: Option<usize>)
        ensures
            match r {
                Some(i) => i < self.supported_encoders@.len()
                    && encoder_for(self.supported_encoders@, format) == Some(self.supported_encoders@[i as int].1),
                None => encoder_for(self.supported_encoders@, format).is_none(),
            },
    {
        let entries = &self.supported_encoders;
        let mut i: usize = 0;
        assert(entries@.skip(0) =~= entries@);
        while i < entries.len()
            invariant
                entries == &self.supported_encoders,
                i <= entries.len(),
                encoder_for(entries@, format) == encoder_for(entries@.skip(i as int), format),
            decreases entries.len() - i,
        {
            assert(entries@.skip(i as int)[0] == entries@[i as int]);
            if entries[i].0 == format {
                return Some(i);
            }
            assert(entries@.skip(i as int).drop_first() =~= entries@.skip(i as int + 1));
            i = i + 1;
        }
        assert(entries@.skip(i as int).len() == 0);
        None
    }

    /// Whether frames of the format and bit depth can be decoded.
    pub fn can_decode(&self, format: &VideoFormat, bit_depth: u8) -> (r: bool)
        ensures
            r == lists_depth(self.supported_decoders@, *format, bit_depth),
    {
        lists_format_depth(&self.supported_decoders, *format, bit_depth)
    }

    /// Whether frames of the format and bit depth can be encoded.
    pub fn can_encode(&self, format: &VideoFormat, bit_depth: u8) -> (r: bool)
        ensures
            r == match encoder_for(self.supported_encoders@, *format) {
                Some(c) => c.bit_depths@.contains(bit_depth),
                None => false,
            },
    {
        match self.encoder_position(*format) {
            Some(i) => has_depth(&self.supported_encoders[i].1.bit_depths, bit_depth),
            None => false,
        }
    }

    /// Whether the encoder of the format supports B-frames as references.
    pub fn b_frame_ref_mode(&self, format: &VideoFormat) -> (r: bool)
        ensures
            r == match encoder_for(self.supported_encoders@, *format) {
                Some(c) => c.b_frame_ref_mode,
                None => false,
            },
    {
        match self.encoder_position(*format) {
            Some(i) => self.supported_encoders[i].1.b_frame_ref_mode,
            None => false,
        }
    }

    /// Whether the CUDA scaler takes the pixel format: nv12 and p010le.
    pub fn vpp_supports_format(&self, pixel_format: &PixelFormat) -> (r: bool)
        ensures
            r == (*pixel_format == PixelFormat::Nv12 || *pixel_format == PixelFormat::P010le),
    {
        match pixel_format {
            PixelFormat::Nv12 | PixelFormat::P010le => true,
            _ => false,
        }
    }

    /// The capabilities on a platform without NVIDIA support: nothing is supported.
    /// Where the GPU is there, its answers are read through the native library
    /// and turned into capabilities by `from_probe`.
    pub fn probe() -> (r: Result<NvidiaCapabilities, crate::error::FFPipelineError>)
        ensures
            r matches Ok(c) && c.supported_decoders@.len() == 0 && c.supported_encoders@.len() == 0 && c.wf(),
    {
        Ok(NvidiaCapabilities { supported_decoders: Vec::new(), supported_encoders: Vec::new() })
    }
}


/// The formats NVDEC is asked about, in order.
pub open spec fn nv_decode_formats() -> Seq<VideoFormat> {
    seq![VideoFormat::H264, VideoFormat::Hevc, VideoFormat::Mpeg2Video, VideoFormat::Vc1, VideoFormat::Vp8,
        VideoFormat::Vp9, VideoFormat::Av1]
}

/// The decode depths a format gets from its answers: none unless 8-bit 4:2:0
/// decodes; then 8, and 10 when 10-bit decodes too.
pub open spec fn nv_decode_depths(answer: (bool, bool)) -> Option<Seq<u8>> {
    if !answer.0 { None } else if answer.1 { Some(seq![8u8, 10u8]) } else { Some(seq![8u8]) }
}

/// The NVENC codec GUIDs, each read as one 128-bit number in the order it is
/// written (`data1`, `data2`, `data3`, then the eight bytes of `data4`).
pub const NV_ENC_CODEC_H264_GUID: u128 = 0x6bc82762_4e63_4ca4_aa85_1e50f321f6bf;
pub const NV_ENC_CODEC_HEVC_GUID: u128 = 0x790cdc88_4522_4d7b_9425_bda9975f7603;
pub const NV_ENC_CODEC_AV1_GUID: u128 = 0x0a352289_0aa7_4759_862d_5d15cd16d254;

/// The format NVENC encodes under a codec GUID: H.264, HEVC or AV1; none for
/// another GUID.
pub open spec fn spec_encoder_format(guid: u128) -> Option<VideoFormat> {
    if guid == NV_ENC_CODEC_H264_GUID {
        Some(VideoFormat::H264)
    } else if guid == NV_ENC_CODEC_HEVC_GUID {
        Some(VideoFormat::Hevc)
    } else if guid == NV_ENC_CODEC_AV1_GUID {
        Some(VideoFormat::Av1)
    } else {
        None
    }
}

/// The format of an NVENC codec GUID (see `spec_encoder_format`).
pub fn encoder_format(guid: u128) -> (r: Option<VideoFormat>)
    ensures
        r == spec_encoder_format(guid),
{
    if guid == NV_ENC_CODEC_H264_GUID {
        Some(VideoFormat::H264)
    } else if guid == NV_ENC_CODEC_HEVC_GUID {
        Some(VideoFormat::Hevc)
    } else if guid == NV_ENC_CODEC_AV1_GUID {
        Some(VideoFormat::Av1)
    } else {
        None
    }
}

/// What NVENC answered for one of its codecs that is a known format.
pub struct NvEncoderProbe {
    pub format: VideoFormat,
    pub supports_10bit: bool,
    pub b_frame_ref_mode: bool,
}

/// The last answer for a format, if any.
pub open spec fn last_probe(probes: Seq<NvEncoderProbe>, format: VideoFormat) -> Option<NvEncoderProbe>
    decreases probes.len(),
{
    if probes.len() == 0 {
        None
    } else if probes.last().format == format {
        Some(probes.last())
    } else {
        last_probe(probes.drop_last(), format)
    }
}

/// The encoder depths of an answer: 8, and 10 when it supports 10 bits.
pub open spec fn nv_encode_depths(supports_10bit: bool) -> Seq<u8> {
    if supports_10bit { seq![8u8, 10u8] } else { seq![8u8] }
}

fn depth_list(ten: bool) -> (r: Vec<u8>)
    ensures
        r@ == nv_encode_depths(ten),
{
    let mut r: Vec<u8> = Vec::new();
    r.push(8);
    if ten {
        r.push(10);
    }
    assert(r@ =~= nv_encode_depths(ten));
    r
}

proof fn lemma_encoder_for_update(entries: Seq<(VideoFormat, EncoderCapability)>, k: int, e: (VideoFormat, EncoderCapability),
    g: VideoFormat)
    requires
        0 <= k < entries.len(),
        entries[k].0 == e.0,
        forall|j: int| 0 <= j < k ==> entries[j].0 != e.0,
    ensures
        encoder_for(entries.update(k, e), g) == if g == e.0 { Some(e.1) } else { encoder_for(entries, g) },
    decreases entries.len(),
{
    let u = entries.update(k, e);
    if k > 0 {
        assert(u.drop_first() =~= entries.drop_first().update(k - 1, e));
        assert(u[0] == entries[0]);
        assert forall|j: int| 0 <= j < k - 1 implies entries.drop_first()[j].0 != e.0 by {
            assert(entries.drop_first()[j] == entries[j + 1]);
        }
        lemma_encoder_for_update(entries.drop_first(), k - 1, e, g);
    } else {
        assert(u.drop_first() =~= entries.drop_first());
        assert(u[0] == e);
    }
}

proof fn lemma_encoder_for_push(entries: Seq<(VideoFormat, EncoderCapability)>, e: (VideoFormat, EncoderCapability), g: VideoFormat)
    requires
        encoder_for(entries, e.0).is_none(),
    ensures
        encoder_for(entries.push(e), g) == if g == e.0 { Some(e.1) } else { encoder_for(entries, g) },
    decreases entries.len(),
{
    let pe = entries.push(e);
    if entries.len() > 0 {
        assert(pe.drop_first() =~= entries.drop_first().push(e));
        assert(pe[0] == entries[0]);
        lemma_encoder_for_push(entries.drop_first(), e, g);
    } else {
        assert(pe[0] == e);
        assert(pe.drop_first().len() == 0);
        assert(encoder_for(pe.drop_first(), g).is_none());
        assert(encoder_for(entries, g).is_none());
    }
}

/// The position of the first entry for a format, if any.
fn find_encoder(entries: &Vec<(VideoFormat, EncoderCapability)>, format: VideoFormat) -> (r: Option<usize>)
    ensures
        match r {
            Some(k) => k < entries@.len() && entries@[k as int].0 == format
                && forall|m: int| 0 <= m < k ==> entries@[m].0 != format,
            None => encoder_for(entries@, format).is_none()
                && forall|m: int| 0 <= m < entries@.len() ==> entries@[m].0 != format,
        },
{
    let mut k: usize = 0;
    while k < entries.len()
        invariant
            k <= entries.len(),
            forall|m: int| 0 <= m < k ==> entries@[m].0 != format,
        decreases entries.len() - k,
    {
        if entries[k].0 == format {
            return Some(k);
        }
        k = k + 1;
    }
    proof {
        lemma_encoder_for_absent(entries@, format);
    }
    None
}

proof fn lemma_encoder_for_absent(entries: Seq<(VideoFormat, EncoderCapability)>, format: VideoFormat)
    requires
        forall|m: int| 0 <= m < entries.len() ==> entries[m].0 != format,
    ensures
        encoder_for(entries, format).is_none(),
    decreases entries.len(),
{
    if entries.len() > 0 {
        assert(entries[0].0 != format);
        assert forall|m: int| 0 <= m < entries.drop_first().len() implies entries.drop_first()[m].0 != format by {
            assert(entries.drop_first()[m] == entries[m + 1]);
        }
        lemma_encoder_for_absent(entries.drop_first(), format);
    }
}

impl NvidiaCapabilities {
    /// The capabilities from the probe's answers: `decode_answers[i]` tells
    /// whether the i-th format of `nv_decode_formats` decodes at 8 and at 10 bits;
    /// each format's encoder capability is that of its last answer.
    pub fn from_probe(decode_answers: &Vec<(bool, bool)>, encoder_probes: &Vec<NvEncoderProbe>) -> (r: NvidiaCapabilities)
        requires
            decode_answers@.len() == nv_decode_formats().len(),
        ensures
            r.wf(),
            forall|i: int| 0 <= i < nv_decode_formats().len() ==> depths_for(r.supported_decoders@, #[trigger] nv_decode_formats()[i])
                == nv_decode_depths(decode_answers@[i]),
            forall|f: VideoFormat| #[trigger] encoder_for(r.supported_encoders@, f) matches Some(c) ==> (last_probe(
                encoder_probes@, f) matches Some(p) && c.bit_depths@ == nv_encode_depths(p.supports_10bit)
                && c.b_frame_ref_mode == p.b_frame_ref_mode),
            forall|f: VideoFormat| #[trigger] encoder_for(r.supported_encoders@, f).is_none() ==> last_probe(encoder_probes@, f).is_none(),
    {
        let formats = vec![VideoFormat::H264, VideoFormat::Hevc, VideoFormat::Mpeg2Video, VideoFormat::Vc1, VideoFormat::Vp8,
            VideoFormat::Vp9, VideoFormat::Av1];
        assert(formats@ =~= nv_decode_formats());
        let mut supported_decoders: Vec<(VideoFormat, Vec<u8>)> = Vec::new();
        let mut i: usize = 0;
        while i < formats.len()
            invariant
                i <= formats.len(),
                formats@ == nv_decode_formats(),
                decode_answers@.len() == nv_decode_formats().len(),
                forall|k: int| 0 <= k < i ==> depths_for(supported_decoders@, #[trigger] nv_decode_formats()[k])
                    == nv_decode_depths(decode_answers@[k]),
                forall|f: VideoFormat| (forall|k: int| 0 <= k < i ==> nv_decode_formats()[k] != f)
                    ==> #[trigger] depths_for(supported_decoders@, f).is_none(),
                keys_unique(supported_decoders@),
                forall|m: int| 0 <= m < supported_decoders@.len() ==> exists|k: int| 0 <= k < i
                    && #[trigger] supported_decoders@[m].0 == nv_decode_formats()[k],
            decreases formats.len() - i,
        {
            let (ok8, ok10) = decode_answers[i];
            let ghost d0 = supported_decoders@;
            if ok8 {
                let e = (formats[i], depth_list(ok10));
                proof {
                    assert forall|f: VideoFormat| #[trigger] depths_for(d0.push(e), f) == match depths_for(d0, f) {
                        Some(d) => Some(d),
                        None => if e.0 == f { Some(e.1@) } else { None },
                    } by {
                        lemma_depths_for_push(d0, e, f);
                    }
                }
                supported_decoders.push(e);
                proof {
                    assert forall|m: int| 0 <= m < d0.len() implies d0[m].0 != e.0 by {
                        let k = choose|k: int| 0 <= k < i && #[trigger] d0[m].0 == nv_decode_formats()[k];
                    }
                    assert(supported_decoders@[d0.len() as int] == e);
                }
            }
            proof {
                assert(depths_for(d0, nv_decode_formats()[i as int]).is_none()) by {
                    assert forall|k: int| 0 <= k < i implies nv_decode_formats()[k] != nv_decode_formats()[i as int] by {}
                }
            }
            i = i + 1;
        }
        let mut supported_encoders: Vec<(VideoFormat, EncoderCapability)> = Vec::new();
        let mut j: usize = 0;
        while j < encoder_probes.len()
            invariant
                j <= encoder_probes.len(),
                forall|f: VideoFormat| #[trigger] encoder_for(supported_encoders@, f) matches Some(c) ==> (last_probe(
                    encoder_probes@.take(j as int), f) matches Some(p) && c.bit_depths@ == nv_encode_depths(p.supports_10bit)
                    && c.b_frame_ref_mode == p.b_frame_ref_mode),
                forall|f: VideoFormat| #[trigger] encoder_for(supported_encoders@, f).is_none()
                    ==> last_probe(encoder_probes@.take(j as int), f).is_none(),
                keys_unique(supported_encoders@),
            decreases encoder_probes.len() - j,
        {
            let p = &encoder_probes[j];
            let cap = EncoderCapability { bit_depths: depth_list(p.supports_10bit), b_frame_ref_mode: p.b_frame_ref_mode };
            let e = (p.format, cap);
            let ghost e0 = supported_encoders@;
            assert(encoder_probes@.take(j as int + 1).drop_last() =~= encoder_probes@.take(j as int));
            assert(encoder_probes@.take(j as int + 1).last() == *p);
            match find_encoder(&supported_encoders, e.0) {
                Some(k) => {
                    proof {
                        assert forall|f: VideoFormat| #[trigger] encoder_for(e0.update(k as int, e), f)
                            == if f == e.0 { Some(e.1) } else { encoder_for(e0, f) } by {
                            lemma_encoder_for_update(e0, k as int, e, f);
                        }
                    }
                    supported_encoders.set(k, e);
                },
                None => {
                    proof {
                        assert forall|f: VideoFormat| #[trigger] encoder_for(e0.push(e), f)
                            == if f == e.0 { Some(e.1) } else { encoder_for(e0, f) } by {
                            lemma_encoder_for_push(e0, e, f);
                        }
                    }
                    supported_encoders.push(e);
                },
            }
            j = j + 1;
        }
        assert(encoder_probes@.take(j as int) =~= encoder_probes@);
        NvidiaCapabilities { supported_decoders, supported_encoders }
    }
}

} // verus!
