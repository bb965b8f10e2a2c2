use vstd::prelude::*;
use crate::capabilities::{lemma_concat_no_duplicates, lists_pair};
use crate::pipeline::VideoFormat;

verus! {

/// What VideoToolbox can decode and encode in hardware, as (format, bit depth) pairs.
pub struct VideoToolboxCapabilities {
    pub supported_decoders: Vec<(VideoFormat, u8)>,
    pub supported_encoders: Vec<(VideoFormat, u8)>,
}

impl VideoToolboxCapabilities {
    /// Each pair is listed once.
    pub open spec fn wf(&self) -> bool {
        self.supported_decoders@.no_duplicates() && self.supported_encoders@.no_duplicates()
    }

    /// Whether frames of the format and bit depth can be decoded.
    pub fn can_decode(&self, format: &VideoFormat, bit_depth: u8) -> (r: bool)
        ensures
            r == self.supported_decoders@.contains((*format, bit_depth)),
    {
        lists_pair(&self.supported_decoders, *format, bit_depth)
    }

    /// Whether frames of the format and bit depth can be encoded.
    pub fn can_encode(&self, format: &VideoFormat, bit_depth: u8) -> (r: bool)
        ensures
            r == self.supported_encoders@.contains((*format, bit_depth)),
    {
        lists_pair(&self.supported_encoders, *format, bit_depth)
    }

    /// The capabilities on a platform without VideoToolbox: nothing is supported.
    /// Where it is there, its answers are read through the native framework and
    /// turned into capabilities by `from_support`.
    pub fn probe() -> (r: Result<VideoToolboxCapabilities, crate::error::FFPipelineError>)
        ensures
            r matches Ok(c) && c.supported_decoders@.len() == 0 && c.supported_encoders@.len() == 0 && c.wf(),
    {
        Ok(VideoToolboxCapabilities { supported_decoders: Vec::new(), supported_encoders: Vec::new() })
    }
}


/// The Core Media codec types probed.
pub const K_CM_VIDEO_CODEC_TYPE_H264: u32 = 0x61766331;
pub const K_CM_VIDEO_CODEC_TYPE_HEVC: u32 = 0x68766331;
pub const K_CM_VIDEO_CODEC_TYPE_VP9: u32 = 0x76703039;
pub const K_CM_VIDEO_CODEC_TYPE_AV1: u32 = 0x61763031;

/// The codecs probed: the codec type, its format, and whether hardware that
/// handles it handles 10 bits too.
pub open spec fn vt_codecs() -> Seq<(u32, VideoFormat, bool)> {
    seq![
        (K_CM_VIDEO_CODEC_TYPE_H264, VideoFormat::H264, false),
        (K_CM_VIDEO_CODEC_TYPE_HEVC, VideoFormat::Hevc, true),
        (K_CM_VIDEO_CODEC_TYPE_VP9, VideoFormat::Vp9, true),
        (K_CM_VIDEO_CODEC_TYPE_AV1, VideoFormat::Av1, true),
    ]
}

/// The codecs probed (see `vt_codecs`).
pub fn codecs() -> (r: Vec<(u32, VideoFormat, bool)>)
    ensures
        r@ == vt_codecs(),
{
    let r = vec![
        (K_CM_VIDEO_CODEC_TYPE_H264, VideoFormat::H264, false),
        (K_CM_VIDEO_CODEC_TYPE_HEVC, VideoFormat::Hevc, true),
        (K_CM_VIDEO_CODEC_TYPE_VP9, VideoFormat::Vp9, true),
        (K_CM_VIDEO_CODEC_TYPE_AV1, VideoFormat::Av1, true),
    ];
    assert(r@ =~= vt_codecs());
    r
}

/// Whether a pair is what a supported codec gives: its format at 8 bits, and at
/// 10 bits when it has 10-bit support.
pub open spec fn vt_gives(c: (u32, VideoFormat, bool), pair: (VideoFormat, u8)) -> bool {
    pair.0 == c.1 && (pair.1 == 8 || (pair.1 == 10 && c.2))
}

/// The pairs of the supported codecs.
pub open spec fn vt_pairs(supported: spec_fn(int) -> bool, pair: (VideoFormat, u8)) -> bool {
    exists|i: int| 0 <= i < vt_codecs().len() && supported(i) && vt_gives(vt_codecs()[i], pair)
}

/// Appends the pairs of a codec.
fn push_codec_pairs(pairs: &mut Vec<(VideoFormat, u8)>, c: (u32, VideoFormat, bool))
    ensures
        forall|p: (VideoFormat, u8)| final(pairs)@.contains(p) <==> (old(pairs)@.contains(p) || vt_gives(c, p)),
        old(pairs)@.no_duplicates() && (forall|p: (VideoFormat, u8)| old(pairs)@.contains(p) ==> p.0 != c.1)
            ==> final(pairs)@.no_duplicates(),
{
    let ghost p0 = pairs@;
    pairs.push((c.1, 8));
    if c.2 {
        pairs.push((c.1, 10));
    }
    proof {
        let added: Seq<(VideoFormat, u8)> = if c.2 { seq![(c.1, 8u8), (c.1, 10u8)] } else { seq![(c.1, 8u8)] };
        assert(pairs@ =~= p0 + added);
        if p0.no_duplicates() && (forall|p: (VideoFormat, u8)| p0.contains(p) ==> p.0 != c.1) {
            assert forall|x: (VideoFormat, u8)| p0.contains(x) implies !added.contains(x) by {
                if added.contains(x) {
                    let j = choose|j: int| 0 <= j < added.len() && added[j] == x;
                }
            }
            lemma_concat_no_duplicates(p0, added);
        }
    }
    assert forall|p: (VideoFormat, u8)| pairs@.contains(p) <==> (p0.contains(p) || vt_gives(c, p)) by {
        if pairs@.contains(p) {
            let k = choose|k: int| 0 <= k < pairs@.len() && #[trigger] pairs@[k] == p;
            if k >= p0.len() {
                assert(vt_gives(c, p));
            } else {
                assert(p0[k] == p);
            }
        }
        if p0.contains(p) {
            let k = choose|k: int| 0 <= k < p0.len() && #[trigger] p0[k] == p;
            assert(pairs@[k] == p);
        }
        if vt_gives(c, p) {
            if p.1 == 8 {
                assert(pairs@[p0.len() as int] == p);
            } else {
                assert(pairs@[p0.len() as int + 1] == p);
            }
        }
    }
}

impl VideoToolboxCapabilities {
    /// The capabilities that the probe's answers give: `decode_supported[i]` tells
    /// whether hardware decodes the i-th codec of `vt_codecs`; a codec encodes when
    /// its type is among the hardware encoders' codec types.
    pub fn from_support(decode_supported: &Vec<bool>, hw_encoder_types: &Vec<u32>) -> (r: VideoToolboxCapabilities)
        requires
            decode_supported@.len() == vt_codecs().len(),
        ensures
            r.wf(),
            forall|p: (VideoFormat, u8)| r.supported_decoders@.contains(p)
                <==> vt_pairs(|i: int| decode_supported@[i], p),
            forall|p: (VideoFormat, u8)| r.supported_encoders@.contains(p)
                <==> vt_pairs(|i: int| hw_encoder_types@.contains(vt_codecs()[i].0), p),
    {
        let table = codecs();
        let mut supported_decoders: Vec<(VideoFormat, u8)> = Vec::new();
        let mut supported_encoders: Vec<(VideoFormat, u8)> = Vec::new();
        let mut i: usize = 0;
        while i < table.len()
            invariant
                i <= table.len(),
                table@ == vt_codecs(),
                decode_supported@.len() == vt_codecs().len(),
                forall|p: (VideoFormat, u8)| supported_decoders@.contains(p) <==> exists|k: int| 0 <= k < i
                    && decode_supported@[k] && #[trigger] vt_gives(vt_codecs()[k], p),
                forall|p: (VideoFormat, u8)| supported_encoders@.contains(p) <==> exists|k: int| 0 <= k < i
                    && hw_encoder_types@.contains(vt_codecs()[k].0) && #[trigger] vt_gives(vt_codecs()[k], p),
                supported_decoders@.no_duplicates(),
                supported_encoders@.no_duplicates(),
            decreases table.len() - i,
        {
            let c = table[i];
            let ghost d0 = supported_decoders@;
            let ghost e0 = supported_encoders@;
            assert forall|p: (VideoFormat, u8)| d0.contains(p) implies p.0 != c.1 by {
                let k = choose|k: int| 0 <= k < i && decode_supported@[k] && #[trigger] vt_gives(vt_codecs()[k], p);
            }
            assert forall|p: (VideoFormat, u8)| e0.contains(p) implies p.0 != c.1 by {
                let k = choose|k: int| 0 <= k < i && hw_encoder_types@.contains(vt_codecs()[k].0)
                    && #[trigger] vt_gives(vt_codecs()[k], p);
            }
            if decode_supported[i] {
                push_codec_pairs(&mut supported_decoders, c);
            }
            assert forall|p: (VideoFormat, u8)| supported_decoders@.contains(p) <==> exists|k: int| 0 <= k < i + 1
                && decode_supported@[k] && #[trigger] vt_gives(vt_codecs()[k], p) by {
                if exists|k: int| 0 <= k < i + 1 && decode_supported@[k] && #[trigger] vt_gives(vt_codecs()[k], p) {
                    let k = choose|k: int| 0 <= k < i + 1 && decode_supported@[k] && #[trigger] vt_gives(vt_codecs()[k], p);
                    if k < i {
                        assert(d0.contains(p));
                    }
                }
                if d0.contains(p) {
                    let k = choose|k: int| 0 <= k < i && decode_supported@[k] && #[trigger] vt_gives(vt_codecs()[k], p);
                }
                if decode_supported@[i as int] && vt_gives(c, p) {
                    assert(vt_gives(vt_codecs()[i as int], p));
                }
            }
            let mut has_encoder = false;
            let mut j: usize = 0;
            while j < hw_encoder_types.len()
                invariant
                    j <= hw_encoder_types.len(),
                    has_encoder == exists|m: int| 0 <= m < j && hw_encoder_types@[m] == c.0,
                decreases hw_encoder_types.len() - j,
            {
                if hw_encoder_types[j] == c.0 {
                    has_encoder = true;
                }
                j = j + 1;
            }
            assert(has_encoder == hw_encoder_types@.contains(c.0)) by {
                if hw_encoder_types@.contains(c.0) {
                    let m = choose|m: int| 0 <= m < hw_encoder_types@.len() && #[trigger] hw_encoder_types@[m] == c.0;
                }
            }
            if has_encoder {
                push_codec_pairs(&mut supported_encoders, c);
            }
            assert forall|p: (VideoFormat, u8)| supported_encoders@.contains(p) <==> exists|k: int| 0 <= k < i + 1
                && hw_encoder_types@.contains(vt_codecs()[k].0) && #[trigger] vt_gives(vt_codecs()[k], p) by {
                if exists|k: int| 0 <= k < i + 1 && hw_encoder_types@.contains(vt_codecs()[k].0) && #[trigger] vt_gives(vt_codecs()[k], p) {
                    let k = choose|k: int| 0 <= k < i + 1 && hw_encoder_types@.contains(vt_codecs()[k].0) && #[trigger] vt_gives(vt_codecs()[k], p);
                    if k < i {
                        assert(e0.contains(p));
                    }
                }
                if e0.contains(p) {
                    let k = choose|k: int| 0 <= k < i && hw_encoder_types@.contains(vt_codecs()[k].0) && #[trigger] vt_gives(vt_codecs()[k], p);
                }
                if has_encoder && vt_gives(c, p) {
                    assert(vt_gives(vt_codecs()[i as int], p));
                }
            }
            i = i + 1;
        }
        VideoToolboxCapabilities { supported_decoders, supported_encoders }
    }
}

} // verus!
