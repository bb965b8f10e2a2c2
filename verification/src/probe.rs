use vstd::prelude::*;
use crate::frame_rate::{frame_rate_value, FrameRate};
use crate::pipeline::{clone_opt_string, opt_string_view};
use crate::text::{lower, str_eq, eq_lower};

verus! {

/// A video stream as ffprobe reports it.
pub struct ProbeResultVideoStream {
    pub stream_index: u32,
    pub codec: String,
    pub profile: String,
    pub pix_fmt: String,
    pub height: u32,
    pub width: u32,
    pub frame_rate: FrameRate,
    pub sample_aspect_ratio: Option<String>,
    pub display_aspect_ratio: Option<String>,
    pub field_order: Option<String>,
    /// Whether the color parameters say HDR.
    pub is_hdr: bool,
}

/// An audio stream as ffprobe reports it.
pub struct ProbeResultAudioStream {
    pub stream_index: u32,
    pub codec: String,
    pub channels: u32,
}

/// A subtitle stream as ffprobe reports it.
pub struct ProbeResultSubtitleStream {
    pub stream_index: u32,
    pub codec: String,
    pub height: Option<u32>,
    pub width: Option<u32>,
    pub pix_fmt: String,
    pub sample_aspect_ratio: Option<String>,
    pub display_aspect_ratio: Option<String>,
}

/// A stream of a probed input.
pub enum ProbeResultStream {
    Video(ProbeResultVideoStream),
    Audio(ProbeResultAudioStream),
    Subtitle(ProbeResultSubtitleStream),
}

/// What ffprobe found in an input.
pub struct ProbeResult {
    pub path: String,
    pub streams: Vec<ProbeResultStream>,
    pub duration_ms: Option<u64>,
}

/// Whether a sample aspect ratio makes pixels non-square: present and neither
/// 1:1 nor 0:1 (unknown).
pub open spec fn sar_is_anamorphic(sar: Option<Seq<char>>) -> bool {
    match sar {
        Some(s) => s != "1:1"@ && s != "0:1"@,
        None => false,
    }
}

fn sar_anamorphic(sar: &Option<String>) -> (r: bool)
    ensures
        r == sar_is_anamorphic(opt_string_view(*sar)),
{
    match sar {
        Some(s) => !str_eq(s.as_str(), "1:1") && !str_eq(s.as_str(), "0:1"),
        None => false,
    }
}

impl ProbeResultVideoStream {
    /// Whether the pixels are not square (see `sar_is_anamorphic`).
    pub fn is_anamorphic(&self) -> (r: bool)
        ensures
            r == sar_is_anamorphic(opt_string_view(self.sample_aspect_ratio)),
    {
        sar_anamorphic(&self.sample_aspect_ratio)
    }

    pub open spec fn spec_is_interlaced(&self) -> bool {
        match self.field_order {
            Some(f) => f@ != "progressive"@ && f@ != "unknown"@,
            None => false,
        }
    }

    /// Whether the frames are interlaced: a field order other than progressive
    /// or unknown.
    pub fn is_interlaced(&self) -> (r: bool)
        ensures
            r == self.spec_is_interlaced(),
    {
        match &self.field_order {
            Some(f) => !str_eq(f.as_str(), "progressive") && !str_eq(f.as_str(), "unknown"),
            None => false,
        }
    }

    pub open spec fn spec_is_still_image(&self) -> bool {
        self.codec@ == "png"@ || self.codec@ == "mjpeg"@ || self.codec@ == "bmp"@
    }

    /// Whether the stream is a still image: png, mjpeg or bmp.
    pub fn is_still_image(&self) -> (r: bool)
        ensures
            r == self.spec_is_still_image(),
    {
        str_eq(self.codec.as_str(), "png") || str_eq(self.codec.as_str(), "mjpeg") || str_eq(self.codec.as_str(), "bmp")
    }
}

impl ProbeResultSubtitleStream {
    /// A copy of the stream.
    pub fn duplicate(&self) -> (r: ProbeResultSubtitleStream)
        ensures
            r == *self,
    {
        ProbeResultSubtitleStream {
            stream_index: self.stream_index,
            codec: self.codec.clone(),
            height: self.height,
            width: self.width,
            pix_fmt: self.pix_fmt.clone(),
            sample_aspect_ratio: clone_opt_string(&self.sample_aspect_ratio),
            display_aspect_ratio: clone_opt_string(&self.display_aspect_ratio),
        }
    }

    /// Whether the pixels are not square (see `sar_is_anamorphic`).
    pub fn is_anamorphic(&self) -> (r: bool)
        ensures
            r == sar_is_anamorphic(opt_string_view(self.sample_aspect_ratio)),
    {
        sar_anamorphic(&self.sample_aspect_ratio)
    }

    pub open spec fn spec_is_subtitle_image(&self) -> bool {
        self.codec@ == "hdmv_pgs_subtitle"@ || self.codec@ == "dvd_subtitle"@ || self.codec@ == "dvb_subtitle"@
            || self.codec@ == "xsub"@
    }

    /// Whether the subtitles are pictures (PGS, DVD, DVB, XSUB) rather than text.
    pub fn is_subtitle_image(&self) -> (r: bool)
        ensures
            r == self.spec_is_subtitle_image(),
    {
        str_eq(self.codec.as_str(), "hdmv_pgs_subtitle") || str_eq(self.codec.as_str(), "dvd_subtitle")
            || str_eq(self.codec.as_str(), "dvb_subtitle") || str_eq(self.codec.as_str(), "xsub")
    }
}

/// One stream of ffprobe's output, as read from its JSON.
pub struct ProbeOutputStream {
    pub index: u32,
    pub codec_type: String,
    pub codec_name: Option<String>,
    pub profile: Option<String>,
    pub pix_fmt: Option<String>,
    pub height: Option<u32>,
    pub width: Option<u32>,
    pub channels: Option<u32>,
    pub r_frame_rate: Option<String>,
    pub sample_aspect_ratio: Option<String>,
    pub display_aspect_ratio: Option<String>,
    pub field_order: Option<String>,
    pub color_transfer: Option<String>,
}

/// A text, or `dflt` when absent.
pub open spec fn or_text(o: Option<String>, dflt: Seq<char>) -> Seq<char> {
    match o {
        Some(s) => s@,
        None => dflt,
    }
}

fn or_string(o: &Option<String>, dflt: &str) -> (r: String)
    ensures
        r@ == or_text(*o, dflt@),
{
    match o {
        Some(s) => s.clone(),
        None => dflt.to_owned(),
    }
}

/// Whether a transfer characteristic is an HDR one (PQ or HLG).
pub open spec fn is_hdr_transfer(t: Option<String>) -> bool {
    match t {
        Some(s) => s@ == "smpte2084"@ || s@ == "arib-std-b67"@,
        None => false,
    }
}

impl ProbeOutputStream {
    /// The stream as the library keeps it: an audio stream needs a channel
    /// count; a video stream a width, a height and a frame rate; a subtitle
    /// stream nothing more; the codec type is compared without regard to ASCII
    /// case, and an unnamed codec is "unknown"; other streams are dropped.
    pub fn to_result(&self) -> (r: Option<ProbeResultStream>)
        ensures
            match r {
                None => !(lower(self.codec_type@) == "audio"@ && self.channels.is_some())
                    && !(lower(self.codec_type@) == "video"@ && self.height.is_some() && self.width.is_some()
                        && self.r_frame_rate.is_some())
                    && lower(self.codec_type@) != "subtitle"@,
                Some(ProbeResultStream::Audio(a)) => lower(self.codec_type@) == "audio"@ && a.stream_index == self.index
                    && a.codec@ == or_text(self.codec_name, "unknown"@) && Some(a.channels) == self.channels,
                Some(ProbeResultStream::Video(v)) => lower(self.codec_type@) == "video"@ && v.stream_index == self.index
                    && v.codec@ == or_text(self.codec_name, "unknown"@) && Some(v.height) == self.height
                    && Some(v.width) == self.width && (self.r_frame_rate matches Some(rf)
                    && v.frame_rate.r_frame_rate@ == rf@
                    && (v.frame_rate.num as nat, v.frame_rate.den as nat) == frame_rate_value(rf@))
                    && v.profile@ == or_text(self.profile, ""@) && v.pix_fmt@ == or_text(self.pix_fmt, ""@)
                    && v.sample_aspect_ratio == self.sample_aspect_ratio && v.display_aspect_ratio == self.display_aspect_ratio
                    && v.field_order == self.field_order && v.is_hdr == is_hdr_transfer(self.color_transfer),
                Some(ProbeResultStream::Subtitle(s)) => lower(self.codec_type@) == "subtitle"@ && s.stream_index == self.index
                    && s.codec@ == or_text(self.codec_name, "unknown"@) && s.height == self.height && s.width == self.width
                    && s.pix_fmt@ == or_text(self.pix_fmt, ""@)
                    && s.sample_aspect_ratio == self.sample_aspect_ratio && s.display_aspect_ratio == self.display_aspect_ratio,
            },
    {
        proof {
            reveal_strlit("audio");
            reveal_strlit("video");
            reveal_strlit("subtitle");
            assert("audio"@.len() != "subtitle"@.len());
            assert("video"@.len() != "subtitle"@.len());
            assert("audio"@ != "video"@) by {
                assert("audio"@[0] != "video"@[0]);
            }
        }
        if eq_lower(self.codec_type.as_str(), "audio") {
            match self.channels {
                Some(c) => Some(ProbeResultStream::Audio(ProbeResultAudioStream {
                    stream_index: self.index,
                    codec: or_string(&self.codec_name, "unknown"),
                    channels: c,
                })),
                None => None,
            }
        } else if eq_lower(self.codec_type.as_str(), "video") {
            if self.height.is_none() || self.width.is_none() || self.r_frame_rate.is_none() {
                return None;
            }
            let h = self.height.unwrap();
            let w = self.width.unwrap();
            let rf = self.r_frame_rate.as_ref().unwrap();
            let is_hdr = match &self.color_transfer {
                Some(t) => str_eq(t.as_str(), "smpte2084") || str_eq(t.as_str(), "arib-std-b67"),
                None => false,
            };
            Some(ProbeResultStream::Video(ProbeResultVideoStream {
                stream_index: self.index,
                codec: or_string(&self.codec_name, "unknown"),
                profile: or_string(&self.profile, ""),
                pix_fmt: or_string(&self.pix_fmt, ""),
                height: h,
                width: w,
                frame_rate: FrameRate::parse(rf.as_str()),
                sample_aspect_ratio: clone_opt_string(&self.sample_aspect_ratio),
                display_aspect_ratio: clone_opt_string(&self.display_aspect_ratio),
                field_order: clone_opt_string(&self.field_order),
                is_hdr,
            }))
        } else if eq_lower(self.codec_type.as_str(), "subtitle") {
            Some(ProbeResultStream::Subtitle(ProbeResultSubtitleStream {
                stream_index: self.index,
                codec: or_string(&self.codec_name, "unknown"),
                height: self.height,
                width: self.width,
                pix_fmt: or_string(&self.pix_fmt, ""),
                sample_aspect_ratio: clone_opt_string(&self.sample_aspect_ratio),
                display_aspect_ratio: clone_opt_string(&self.display_aspect_ratio),
            }))
        } else {
            None
        }
    }
}

} // verus!
