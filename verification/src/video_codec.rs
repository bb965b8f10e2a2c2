use vstd::prelude::*;
use crate::pipeline::{FrameSurface, PixelFormat, VideoFormat};
use crate::text::{push_arg, extend_args, views};

verus! {

/// A video encoder and what it prefers.
pub struct VideoCodec {
    pub codec_name: &'static str,
    pub options: Vec<String>,
    pub preferred_pixel_format_8bit: Option<PixelFormat>,
    pub preferred_pixel_format_10bit: Option<PixelFormat>,
    pub preferred_surface: FrameSurface,
}

/// The mathematical value of a video codec.
pub struct VideoCodecView {
    pub name: Seq<char>,
    pub options: Seq<Seq<char>>,
    pub pixel_format_8bit: Option<PixelFormat>,
    pub pixel_format_10bit: Option<PixelFormat>,
    pub surface: FrameSurface,
}

impl View for VideoCodec {
    type V = VideoCodecView;

    open spec fn view(&self) -> VideoCodecView {
        VideoCodecView {
            name: self.codec_name@,
            options: views(self.options@),
            pixel_format_8bit: self.preferred_pixel_format_8bit,
            pixel_format_10bit: self.preferred_pixel_format_10bit,
            surface: self.preferred_surface,
        }
    }
}

/// The view of a codec built from its parts.
pub open spec fn codec_view(name: Seq<char>, options: Seq<Seq<char>>, pf8: Option<PixelFormat>,
    pf10: Option<PixelFormat>, surface: FrameSurface) -> VideoCodecView {
    VideoCodecView { name, options, pixel_format_8bit: pf8, pixel_format_10bit: pf10, surface }
}

/// The view of an optional codec.
pub open spec fn opt_codec_view(c: Option<VideoCodec>) -> Option<VideoCodecView> {
    match c {
        Some(c) => Some(c@),
        None => None,
    }
}

/// The view of stream copy.
pub open spec fn copy_view() -> VideoCodecView {
    codec_view("copy"@, seq![], None, None, FrameSurface::System)
}

/// The format an ffmpeg video encoder produces, read from its name: the
/// libx264 encoder and the `h264_` hardware encoders make H.264, the libx265
/// encoder and the `hevc_` ones HEVC; other names no known format.
pub open spec fn encoded_format(name: Seq<char>) -> Option<VideoFormat> {
    if name == "libx264"@ || (name.len() >= 5 && name.subrange(0, 5) == "h264_"@) {
        Some(VideoFormat::H264)
    } else if name == "libx265"@ || (name.len() >= 5 && name.subrange(0, 5) == "hevc_"@) {
        Some(VideoFormat::Hevc)
    } else {
        None
    }
}

/// The view of the libx264 encoder.
pub open spec fn libx264_view() -> VideoCodecView {
    codec_view("libx264"@, seq![], Some(PixelFormat::Yuv420p), Some(PixelFormat::Yuv420p10le), FrameSurface::System)
}

/// The view of the libx265 encoder.
pub open spec fn libx265_view() -> VideoCodecView {
    codec_view("libx265"@, seq!["-tag:v"@, "hvc1"@, "-x265-params"@, "log-level=error"@],
        Some(PixelFormat::Yuv420p), Some(PixelFormat::Yuv420p10le), FrameSurface::System)
}

impl VideoCodec {
    pub const COPY: &'static str = "copy";

    /// Stream copy: no encoder.
    pub fn copy() -> (r: VideoCodec)
        ensures
            r@ == codec_view("copy"@, seq![], None, None, FrameSurface::System),
    {
        let r = VideoCodec {
            codec_name: "copy",
            options: Vec::new(),
            preferred_pixel_format_8bit: None,
            preferred_pixel_format_10bit: None,
            preferred_surface: FrameSurface::System,
        };
        assert(views(r.options@) =~= seq![]);
        r
    }

    /// The libx264 software encoder.
    pub fn libx264() -> (r: VideoCodec)
        ensures
            r@ == codec_view("libx264"@, seq![], Some(PixelFormat::Yuv420p), Some(PixelFormat::Yuv420p10le),
                FrameSurface::System),
    {
        let r = VideoCodec {
            codec_name: "libx264",
            options: Vec::new(),
            preferred_pixel_format_8bit: Some(PixelFormat::Yuv420p),
            preferred_pixel_format_10bit: Some(PixelFormat::Yuv420p10le),
            preferred_surface: FrameSurface::System,
        };
        assert(views(r.options@) =~= seq![]);
        r
    }

    /// The libx265 software encoder, tagged hvc1 and logging errors only.
    pub fn libx265() -> (r: VideoCodec)
        ensures
            r@ == codec_view("libx265"@, seq!["-tag:v"@, "hvc1"@, "-x265-params"@, "log-level=error"@],
                Some(PixelFormat::Yuv420p), Some(PixelFormat::Yuv420p10le), FrameSurface::System),
    {
        let mut options: Vec<String> = Vec::new();
        push_arg(&mut options, "-tag:v");
        push_arg(&mut options, "hvc1");
        push_arg(&mut options, "-x265-params");
        push_arg(&mut options, "log-level=error");
        assert(views(options@) =~= seq!["-tag:v"@, "hvc1"@, "-x265-params"@, "log-level=error"@]);
        VideoCodec {
            codec_name: "libx265",
            options,
            preferred_pixel_format_8bit: Some(PixelFormat::Yuv420p),
            preferred_pixel_format_10bit: Some(PixelFormat::Yuv420p10le),
            preferred_surface: FrameSurface::System,
        }
    }

    /// Whether this is stream copy.
    pub fn is_copy(&self) -> (r: bool)
        ensures
            r == (self.codec_name@ == "copy"@),
    {
        crate::text::str_eq(self.codec_name, "copy")
    }

    /// A copy of the codec.
    pub fn duplicate(&self) -> (r: VideoCodec)
        ensures
            r@ == self@,
    {
        let mut options: Vec<String> = Vec::new();
        extend_args(&mut options, &self.options);
        assert(views(options@) =~= views(self.options@));
        VideoCodec {
            codec_name: self.codec_name,
            options,
            preferred_pixel_format_8bit: self.preferred_pixel_format_8bit,
            preferred_pixel_format_10bit: self.preferred_pixel_format_10bit,
            preferred_surface: self.preferred_surface,
        }
    }

    /// The encoder's arguments: `-vcodec NAME` and its options.
    pub fn as_arg(&self) -> (r: Vec<String>)
        ensures
            views(r@) == seq!["-vcodec"@, self.codec_name@] + views(self.options@),
    {
        let mut args: Vec<String> = Vec::new();
        push_arg(&mut args, "-vcodec");
        push_arg(&mut args, self.codec_name);
        extend_args(&mut args, &self.options);
        assert(seq![].push("-vcodec"@).push(self.codec_name@) =~= seq!["-vcodec"@, self.codec_name@]);
        assert(views(Seq::<String>::empty()) =~= Seq::<Seq<char>>::empty());
        args
    }
}

/// An audio encoder, or stream copy.
#[derive(Debug, Clone, Copy, PartialEq, Eq, Structural)]
pub enum AudioCodec {
    Copy,
    Aac,
    Ac3,
}

impl AudioCodec {
    pub open spec fn spec_name(self) -> Seq<char> {
        match self {
            AudioCodec::Copy => "copy"@,
            AudioCodec::Aac => "aac"@,
            AudioCodec::Ac3 => "ac3"@,
        }
    }

    /// The encoder's arguments: `-acodec NAME`.
    pub fn as_arg(&self) -> (r: Vec<String>)
        ensures
            views(r@) == seq!["-acodec"@, self.spec_name()],
    {
        let mut args: Vec<String> = Vec::new();
        push_arg(&mut args, "-acodec");
        let name: &str = match self {
            AudioCodec::Copy => "copy",
            AudioCodec::Aac => "aac",
            AudioCodec::Ac3 => "ac3",
        };
        push_arg(&mut args, name);
        assert(views(Seq::<String>::empty()) =~= Seq::<Seq<char>>::empty());
        assert(seq![].push("-acodec"@).push(self.spec_name()) =~= seq!["-acodec"@, self.spec_name()]);
        args
    }
}

} // verus!
