use vstd::prelude::*;
use crate::pipeline::{PixelFormat, VideoFormat};

verus! {

/// `yes` for a supported entry, `-` otherwise.
pub fn yn(supported: bool) -> (r: &'static str)
    ensures
        r@ == if supported { "yes"@ } else { "-"@ },
{
    if supported { "yes" } else { "-" }
}

/// The display name of a format.
pub open spec fn spec_format_name(f: VideoFormat) -> Seq<char> {
    match f {
        VideoFormat::Av1 => "AV1"@,
        VideoFormat::H264 => "H.264"@,
        VideoFormat::Hevc => "HEVC"@,
        VideoFormat::Mpeg2Video => "MPEG-2"@,
        VideoFormat::Vc1 => "VC-1"@,
        VideoFormat::Vp8 => "VP8"@,
        VideoFormat::Vp9 => "VP9"@,
    }
}

/// The display name of a format (see `spec_format_name`).
pub fn format_name(f: &VideoFormat) -> (r: &'static str)
    ensures
        r@ == spec_format_name(*f),
{
    match f {
        VideoFormat::Av1 => "AV1",
        VideoFormat::H264 => "H.264",
        VideoFormat::Hevc => "HEVC",
        VideoFormat::Mpeg2Video => "MPEG-2",
        VideoFormat::Vc1 => "VC-1",
        VideoFormat::Vp8 => "VP8",
        VideoFormat::Vp9 => "VP9",
    }
}

/// The display name of a pixel format: its ffmpeg name.
pub fn pixel_format_name(f: &PixelFormat) -> (r: &'static str)
    ensures
        r@ == f.spec_name(),
{
    f.as_arg()
}

/// The codec and profile names that a format's decoder is asked about at a bit depth.
pub open spec fn spec_default_profile(format: VideoFormat, bit_depth: u8) -> (Seq<char>, Seq<char>) {
    match format {
        VideoFormat::H264 => ("h264"@, "main"@),
        VideoFormat::Hevc => if bit_depth == 10 { ("hevc"@, "main 10"@) } else { ("hevc"@, "main"@) },
        VideoFormat::Mpeg2Video => ("mpeg2video"@, "main"@),
        VideoFormat::Vc1 => ("vc1"@, "main"@),
        VideoFormat::Vp8 => ("vp8"@, "0"@),
        VideoFormat::Vp9 => if bit_depth == 10 { ("vp9"@, "profile 2"@) } else { ("vp9"@, "profile 0"@) },
        VideoFormat::Av1 => ("av1"@, "main"@),
    }
}

/// The codec and profile names of a format at a bit depth (see `spec_default_profile`).
pub fn default_profile(format: &VideoFormat, bit_depth: u8) -> (r: (&'static str, &'static str))
    ensures
        (r.0@, r.1@) == spec_default_profile(*format, bit_depth),
{
    match format {
        VideoFormat::H264 => ("h264", "main"),
        VideoFormat::Hevc => if bit_depth == 10 { ("hevc", "main 10") } else { ("hevc", "main") },
        VideoFormat::Mpeg2Video => ("mpeg2video", "main"),
        VideoFormat::Vc1 => ("vc1", "main"),
        VideoFormat::Vp8 => ("vp8", "0"),
        VideoFormat::Vp9 => if bit_depth == 10 { ("vp9", "profile 2") } else { ("vp9", "profile 0") },
        VideoFormat::Av1 => ("av1", "main"),
    }
}


/// The low power encoding bit depths: `8+10`, `8`, `10`, or `-`.
pub fn low_power_label(lp8: bool, lp10: bool) -> (r: &'static str)
    ensures
        r@ == if lp8 && lp10 { "8+10"@ } else if lp8 { "8"@ } else if lp10 { "10"@ } else { "-"@ },
{
    match (lp8, lp10) {
        (true, true) => "8+10",
        (true, false) => "8",
        (false, true) => "10",
        (false, false) => "-",
    }
}

} // verus!
