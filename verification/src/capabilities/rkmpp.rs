use vstd::prelude::*;
use crate::capabilities::{lemma_concat_contains, lemma_concat_no_duplicates, lists_pair};
use crate::pipeline::VideoFormat;

verus! {

/// MPP coding type of H.264.
pub const MPP_CODING_AVC: i32 = 7;
/// MPP coding type of VP8.
pub const MPP_CODING_VP8: i32 = 9;
/// MPP coding type of VP9.
pub const MPP_CODING_VP9: i32 = 10;
/// MPP coding type of HEVC.
pub const MPP_CODING_HEVC: i32 = 0x0100_0004;

/// What the Rockchip media process platform can decode and encode, as
/// (format, bit depth) pairs.
pub struct RkmppCapabilities {
    pub supported_decoders: Vec<(VideoFormat, u8)>,
    pub supported_encoders: Vec<(VideoFormat, u8)>,
}

/// The codings probed for decoding: (MPP coding, format, whether 10-bit decoding
/// comes with it).
pub open spec fn decoder_codings() -> Seq<(i32, VideoFormat, bool)> {
    seq![
        (MPP_CODING_AVC, VideoFormat::H264, false),
        (MPP_CODING_HEVC, VideoFormat::Hevc, true),
        (MPP_CODING_VP8, VideoFormat::Vp8, false),
        (MPP_CODING_VP9, VideoFormat::Vp9, false),
    ]
}

/// The codings probed for encoding (ffmpeg encodes 8-bit only with rkmpp).
pub open spec fn encoder_codings() -> Seq<(i32, VideoFormat)> {
    seq![(MPP_CODING_AVC, VideoFormat::H264), (MPP_CODING_HEVC, VideoFormat::Hevc)]
}

/// The decoder table, to probe entry by entry.
pub fn decoder_coding_table() -> (r: Vec<(i32, VideoFormat, bool)>)
    ensures
        r@ == decoder_codings(),
{
    let mut r: Vec<(i32, VideoFormat, bool)> = Vec::new();
    r.push((MPP_CODING_AVC, VideoFormat::H264, false));
    r.push((MPP_CODING_HEVC, VideoFormat::Hevc, true));
    r.push((MPP_CODING_VP8, VideoFormat::Vp8, false));
    r.push((MPP_CODING_VP9, VideoFormat::Vp9, false));
    assert(r@ =~= decoder_codings());
    r
}

/// The encoder table, to probe entry by entry.
pub fn encoder_coding_table() -> (r: Vec<(i32, VideoFormat)>)
    ensures
        r@ == encoder_codings(),
{
    let mut r: Vec<(i32, VideoFormat)> = Vec::new();
    r.push((MPP_CODING_AVC, VideoFormat::H264));
    r.push((MPP_CODING_HEVC, VideoFormat::Hevc));
    assert(r@ =~= encoder_codings());
    r
}

/// Whether a decoded pair follows from the probe: its format's coding is
/// supported, at 8 bits, or at 10 bits where the table says so.
pub open spec fn decodes_after_probe(supported: Seq<bool>, pair: (VideoFormat, u8)) -> bool {
    exists|i: int| 0 <= i < decoder_codings().len() && supported[i] && decoder_codings()[i].1 == pair.0
        && (pair.1 == 8 || (pair.1 == 10 && decoder_codings()[i].2))
}

/// Whether an encoded pair follows from the probe: its coding is supported, at 8 bits.
pub open spec fn encodes_after_probe(supported: Seq<bool>, pair: (VideoFormat, u8)) -> bool {
    exists|i: int| 0 <= i < encoder_codings().len() && supported[i] && encoder_codings()[i].1 == pair.0
        && pair.1 == 8
}

impl RkmppCapabilities {
    /// Each pair is listed once.
    pub open spec fn wf(&self) -> bool {
        self.supported_decoders@.no_duplicates() && self.supported_encoders@.no_duplicates()
    }

    /// Whether frames of the format and bit depth can be decoded.
    pub fn can_decode(&self, format: &VideoFormat, bit_depth: u8) -> (r: bool)
        ensures
            r == self.supported_decoders@.contains((*format, bit_depth)),
    {
        lists_pair(&self.supported_decoders, *format, bit_depth)
    }

    /// Whether frames of the format and bit depth can be encoded.
    pub fn can_encode(&self, format: &VideoFormat, bit_depth: u8) -> (r: bool)
        ensures
            r == self.supported_encoders@.contains((*format, bit_depth)),
    {
        lists_pair(&self.supported_encoders, *format, bit_depth)
    }

    /// The capabilities on a platform without the MPP library: nothing is
    /// supported. Where it is there, its answers are read through the native
    /// library and turned into capabilities by `from_probe`.
    pub fn probe() -> (r: Result<RkmppCapabilities, crate::error::FFPipelineError>)
        ensures
            r matches Ok(c) && c.supported_decoders@.len() == 0 && c.supported_encoders@.len() == 0 && c.wf(),
    {
        Ok(RkmppCapabilities { supported_decoders: Vec::new(), supported_encoders: Vec::new() })
    }

    /// The capabilities that the library's answers give: `decoder_support[i]` tells
    /// whether the i-th coding of `decoder_codings` decodes, `encoder_support[i]`
    /// whether the i-th of `encoder_codings` encodes.
    pub fn from_probe(decoder_support: &Vec<bool>, encoder_support: &Vec<bool>) -> (r: RkmppCapabilities)
        requires
            decoder_support@.len() == decoder_codings().len(),
            encoder_support@.len() == encoder_codings().len(),
        ensures
            r.wf(),
            forall|p: (VideoFormat, u8)| r.supported_decoders@.contains(p) <==> decodes_after_probe(decoder_support@, p),
            forall|p: (VideoFormat, u8)| r.supported_encoders@.contains(p) <==> encodes_after_probe(encoder_support@, p),
    {
        let table = decoder_coding_table();
        let mut decoders: Vec<(VideoFormat, u8)> = Vec::new();
        let mut i: usize = 0;
        while i < table.len()
            invariant
                table@ == decoder_codings(),
                decoder_support@.len() == table@.len(),
                i <= table.len(),
                forall|p: (VideoFormat, u8)| decoders@.contains(p) <==> exists|k: int| 0 <= k < i && decoder_support@[k]
                    && #[trigger] table@[k].1 == p.0 && (p.1 == 8 || (p.1 == 10 && table@[k].2)),
                decoders@.no_duplicates(),
            decreases table.len() - i,
        {
            let (_coding, format, ten) = table[i];
            let ghost before = decoders@;
            if decoder_support[i] {
                decoders.push((format, 8));
                if ten {
                    decoders.push((format, 10));
                }
            }
            proof {
                let added: Seq<(VideoFormat, u8)> = if decoder_support@[i as int] {
                    if ten { seq![(format, 8u8), (format, 10u8)] } else { seq![(format, 8u8)] }
                } else {
                    Seq::empty()
                };
                assert(decoders@ =~= before + added);
                assert forall|x: (VideoFormat, u8)| before.contains(x) implies !added.contains(x) by {
                    let k = choose|k: int| 0 <= k < i && decoder_support@[k]
                        && #[trigger] table@[k].1 == x.0 && (x.1 == 8 || (x.1 == 10 && table@[k].2));
                    if added.contains(x) {
                        let j = choose|j: int| 0 <= j < added.len() && added[j] == x;
                        assert(x.0 == table@[i as int].1);
                    }
                }
                lemma_concat_no_duplicates(before, added);
                assert forall|p: (VideoFormat, u8)| decoders@.contains(p) <==> exists|k: int| 0 <= k < i + 1
                    && decoder_support@[k] && #[trigger] table@[k].1 == p.0 && (p.1 == 8 || (p.1 == 10 && table@[k].2)) by {
                    lemma_concat_contains(before, added, p);
                    assert(added.contains(p) <==> (decoder_support@[i as int] && format == p.0 && (p.1 == 8 || (p.1 == 10 && ten)))) by {
                        if added.contains(p) {
                            let j = choose|j: int| 0 <= j < added.len() && added[j] == p;
                        }
                        if decoder_support@[i as int] && format == p.0 && p.1 == 8 {
                            assert(added[0] == p);
                        }
                        if decoder_support@[i as int] && format == p.0 && p.1 == 10 && ten {
                            assert(added[1] == p);
                        }
                    }
                    if exists|k: int| 0 <= k < i + 1 && decoder_support@[k] && #[trigger] table@[k].1 == p.0
                        && (p.1 == 8 || (p.1 == 10 && table@[k].2)) {
                        let k = choose|k: int| 0 <= k < i + 1 && decoder_support@[k] && #[trigger] table@[k].1 == p.0
                            && (p.1 == 8 || (p.1 == 10 && table@[k].2));
                        if k == i {
                            assert(added.contains(p));
                        }
                    }
                    if added.contains(p) {
                        assert(table@[i as int].1 == p.0);
                    }
                }
            }
            i = i + 1;
        }
        let etable = encoder_coding_table();
        let mut encoders: Vec<(VideoFormat, u8)> = Vec::new();
        let mut i: usize = 0;
        while i < etable.len()
            invariant
                etable@ == encoder_codings(),
                encoder_support@.len() == etable@.len(),
                i <= etable.len(),
                forall|p: (VideoFormat, u8)| encoders@.contains(p) <==> exists|k: int| 0 <= k < i && encoder_support@[k]
                    && #[trigger] etable@[k].1 == p.0 && p.1 == 8,
                encoders@.no_duplicates(),
            decreases etable.len() - i,
        {
            let (_coding, format) = etable[i];
            let ghost before = encoders@;
            if encoder_support[i] {
                encoders.push((format, 8));
            }
            proof {
                let added: Seq<(VideoFormat, u8)> = if encoder_support@[i as int] { seq![(format, 8u8)] } else { Seq::empty() };
                assert(encoders@ =~= before + added);
                assert forall|x: (VideoFormat, u8)| before.contains(x) implies !added.contains(x) by {
                    let k = choose|k: int| 0 <= k < i && encoder_support@[k] && #[trigger] etable@[k].1 == x.0 && x.1 == 8;
                    if added.contains(x) {
                        let j = choose|j: int| 0 <= j < added.len() && added[j] == x;
                        assert(x.0 == etable@[i as int].1);
                    }
                }
                lemma_concat_no_duplicates(before, added);
                assert forall|p: (VideoFormat, u8)| encoders@.contains(p) <==> exists|k: int| 0 <= k < i + 1
                    && encoder_support@[k] && #[trigger] etable@[k].1 == p.0 && p.1 == 8 by {
                    lemma_concat_contains(before, added, p);
                    assert(added.contains(p) <==> (encoder_support@[i as int] && format == p.0 && p.1 == 8)) by {
                        if added.contains(p) {
                            let j = choose|j: int| 0 <= j < added.len() && added[j] == p;
                        }
                        if encoder_support@[i as int] && format == p.0 && p.1 == 8 {
                            assert(added[0] == p);
                        }
                    }
                    if exists|k: int| 0 <= k < i + 1 && encoder_support@[k] && #[trigger] etable@[k].1 == p.0 && p.1 == 8 {
                        let k = choose|k: int| 0 <= k < i + 1 && encoder_support@[k] && #[trigger] etable@[k].1 == p.0 && p.1 == 8;
                        if k == i {
                            assert(added.contains(p));
                        }
                    }
                    if added.contains(p) {
                        assert(etable@[i as int].1 == p.0);
                    }
                }
            }
            i = i + 1;
        }
        RkmppCapabilities { supported_decoders: decoders, supported_encoders: encoders }
    }
}

} // verus!
