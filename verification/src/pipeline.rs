use vstd::prelude::*;
use crate::audio_filter::AudioFilter;
use crate::error::FFPipelineError;
use crate::ffmpeg_info::FfmpegInfo;
use crate::filter_chain::{FilterChain, PipelineFilter, PipelineFilterView, filter_views};
use crate::frame_size::FrameSize;
use crate::global_option::{GlobalOption, LogLevel};
use crate::hw_accel::{HardwareAccel, HwAccel, HwDecoderView};
use crate::input::{audio_stream_position, subtitle_stream_position, video_stream_position, InputSettings, InputSource, ProbedInput};
use crate::output_option::OutputOption;
use crate::output_settings::{OutputSettings, ScalingMode, SubtitleMode};
use crate::overlay_filter::{OverlayFilter, OverlayFilterView, OverlayKind, OverlaySource, SoftwareOverlay};
use crate::probe::{ProbeResultStream, ProbeResultSubtitleStream, ProbeResultVideoStream, sar_is_anamorphic};
use crate::text::{eq_lower, lower, views};
use crate::video_codec::{copy_view, encoded_format, libx264_view, libx265_view, AudioCodec, VideoCodec, VideoCodecView};
use crate::video_decoder::VideoDecoder;
use crate::video_filter::{DeinterlaceFilter, LoopFilter, PadFilter, ScaleFilter, SoftwareDeinterlaceFilter, SubtitlesFilter, ToneMapFilter, VideoFilter};

verus! {

/// Seconds between forced key frames.
pub const KEYFRAME_INTERVAL_SECONDS: u32 = 2;

/// Length of one HLS segment, in seconds.
pub const SEGMENT_SECONDS: u32 = 4;

#[derive(Debug, Clone, Copy, PartialEq, Eq, Structural)]
pub enum AudioFormat {
    Aac,
    Ac3,
}

impl AudioFormat {
    pub open spec fn spec_name(self) -> Seq<char> {
        match self {
            AudioFormat::Aac => "aac"@,
            AudioFormat::Ac3 => "ac3"@,
        }
    }

    /// The lowercase name of the format.
    pub fn name(&self) -> (s: &'static str)
        ensures
            s@ == self.spec_name(),
    {
        match self {
            AudioFormat::Aac => "aac",
            AudioFormat::Ac3 => "ac3",
        }
    }
}

/// A bitrate in kilobits per second.
#[derive(Debug, Clone, Copy, PartialEq, Eq, Structural)]
pub struct Kbps(pub u32);

/// A sample rate in hertz.
#[derive(Debug, Clone, Copy, PartialEq, Eq, Structural)]
pub struct Hz(pub u32);

#[derive(Debug, Clone, Copy, PartialEq, Eq, Structural)]
pub enum VideoFormat {
    Av1,
    H264,
    Hevc,
    Mpeg2Video,
    Vc1,
    Vp8,
    Vp9,
}

impl VideoFormat {
    pub open spec fn spec_name(self) -> Seq<char> {
        match self {
            VideoFormat::Av1 => "av1"@,
            VideoFormat::H264 => "h264"@,
            VideoFormat::Hevc => "hevc"@,
            VideoFormat::Mpeg2Video => "mpeg2video"@,
            VideoFormat::Vc1 => "vc1"@,
            VideoFormat::Vp8 => "vp8"@,
            VideoFormat::Vp9 => "vp9"@,
        }
    }

    /// The lowercase name of the format, as ffmpeg names the codec.
    pub fn name(&self) -> (s: &'static str)
        ensures
            s@ == self.spec_name(),
    {
        match self {
            VideoFormat::Av1 => "av1",
            VideoFormat::H264 => "h264",
            VideoFormat::Hevc => "hevc",
            VideoFormat::Mpeg2Video => "mpeg2video",
            VideoFormat::Vc1 => "vc1",
            VideoFormat::Vp8 => "vp8",
            VideoFormat::Vp9 => "vp9",
        }
    }
}

/// An offset of output timestamps, in milliseconds.
#[derive(Debug, Clone, Copy, PartialEq, Eq, Structural)]
pub struct PtsOffset {
    pub duration_ms: u64,
}

impl PtsOffset {
    /// The zero offset.
    pub fn default() -> (r: PtsOffset)
        ensures
            r.duration_ms == 0,
    {
        PtsOffset { duration_ms: 0 }
    }
}

#[derive(Debug, Clone, Copy, PartialEq, Eq, Structural)]
pub enum FrameSurface {
    System,
    Cuda,
    Qsv,
    Vaapi,
    VideoToolbox,
    Vulkan,
    OpenCL,
    Rkmpp,
    Amf,
}

impl FrameSurface {
    pub open spec fn spec_device_name(self) -> Option<Seq<char>> {
        match self {
            FrameSurface::Cuda => Some("cuda"@),
            FrameSurface::OpenCL => Some("opencl"@),
            FrameSurface::Qsv => Some("qsv"@),
            FrameSurface::Vaapi => Some("vaapi"@),
            FrameSurface::Vulkan => Some("vulkan"@),
            FrameSurface::VideoToolbox => Some("videotoolbox"@),
            FrameSurface::System => None,
            FrameSurface::Rkmpp => None,
            FrameSurface::Amf => None,
        }
    }

    /// The name of the ffmpeg hardware device type that holds frames of this surface.
    pub fn device_name(&self) -> (r: Option<&'static str>)
        ensures
            opt_str_view(r) == self.spec_device_name(),
    {
        match self {
            FrameSurface::Cuda => Some("cuda"),
            FrameSurface::OpenCL => Some("opencl"),
            FrameSurface::Qsv => Some("qsv"),
            FrameSurface::Vaapi => Some("vaapi"),
            FrameSurface::Vulkan => Some("vulkan"),
            FrameSurface::VideoToolbox => Some("videotoolbox"),
            FrameSurface::System => None,
            FrameSurface::Rkmpp => None,
            FrameSurface::Amf => None,
        }
    }
}

/// The view of an optional string slice.
pub open spec fn opt_str_view(o: Option<&str>) -> Option<Seq<char>> {
    match o {
        Some(s) => Some(s@),
        None => None,
    }
}

/// The view of an optional string.
pub open spec fn opt_string_view(o: Option<String>) -> Option<Seq<char>> {
    match o {
        Some(s) => Some(s@),
        None => None,
    }
}

/// A set of frame surfaces, kept as a list without repetitions.
pub struct SurfaceSet {
    pub items: Vec<FrameSurface>,
}

impl View for SurfaceSet {
    type V = Set<FrameSurface>;

    open spec fn view(&self) -> Set<FrameSurface> {
        self.items@.to_set()
    }
}

impl SurfaceSet {
    pub open spec fn wf(&self) -> bool {
        self.items@.no_duplicates()
    }

    /// The empty set.
    pub fn new() -> (r: SurfaceSet)
        ensures
            r.wf(),
            r@ == Set::<FrameSurface>::empty(),
    {
        let r = SurfaceSet { items: Vec::new() };
        assert(r@ =~= Set::<FrameSurface>::empty());
        r
    }

    /// Whether `s` is a member.
    pub fn contains(&self, s: &FrameSurface) -> (r: bool)
        ensures
            r == self@.contains(*s),
    {
        let mut i: usize = 0;
        while i < self.items.len()
            invariant
                i <= self.items.len(),
                forall|j: int| 0 <= j < i ==> self.items@[j] != *s,
            decreases self.items.len() - i,
        {
            if self.items[i] == *s {
                assert(self.items@.contains(*s));
                return true;
            }
            i = i + 1;
        }
        proof {
            if self.items@.to_set().contains(*s) {
                assert(self.items@.contains(*s));
            }
        }
        false
    }

    /// Adds `s`.
    pub fn insert(&mut self, s: FrameSurface)
        requires
            old(self).wf(),
        ensures
            final(self).wf(),
            final(self)@ == old(self)@.insert(s),
    {
        if !self.contains(&s) {
            self.items.push(s);
            proof {
                assert(self.items@ =~= old(self).items@.push(s));
                assert forall|a: int, b: int| 0 <= a < b < self.items@.len() implies self.items@[a] != self.items@[b] by {
                    if b == self.items@.len() - 1 {
                        assert(old(self).items@.contains(old(self).items@[a]));
                    }
                }
            }
            proof { old(self).items@.lemma_push_to_set_commute(s); }
            assert(self@ =~= old(self)@.insert(s));
        } else {
            assert(self@ =~= old(self)@.insert(s));
        }
    }

    /// Adds every member of `other`.
    pub fn extend(&mut self, other: &SurfaceSet)
        requires
            old(self).wf(),
        ensures
            final(self).wf(),
            final(self)@ == old(self)@.union(other@),
    {
        let mut i: usize = 0;
        while i < other.items.len()
            invariant
                i <= other.items.len(),
                self.wf(),
                self@ == old(self)@.union(other.items@.take(i as int).to_set()),
            decreases other.items.len() - i,
        {
            let s = other.items[i];
            self.insert(s);
            proof {
                assert(other.items@.take(i as int + 1) =~= other.items@.take(i as int).push(s));
                other.items@.take(i as int).lemma_push_to_set_commute(s);
                assert(self@ =~= old(self)@.union(other.items@.take(i as int + 1).to_set()));
            }
            i = i + 1;
        }
        assert(other.items@.take(other.items.len() as int) =~= other.items@);
    }

    /// Whether some member is not the system surface.
    pub fn any_hardware(&self) -> (r: bool)
        ensures
            r == exists|s: FrameSurface| self@.contains(s) && s != FrameSurface::System,
    {
        let mut i: usize = 0;
        while i < self.items.len()
            invariant
                i <= self.items.len(),
                forall|j: int| 0 <= j < i ==> self.items@[j] == FrameSurface::System,
            decreases self.items.len() - i,
        {
            if self.items[i] != FrameSurface::System {
                assert(self@.contains(self.items@[i as int]));
                return true;
            }
            i = i + 1;
        }
        proof {
            assert forall|s: FrameSurface| self@.contains(s) implies s == FrameSurface::System by {
                let k = choose|k: int| 0 <= k < self.items@.len() && self.items@[k] == s;
            }
        }
        false
    }

    /// A copy of the set.
    pub fn copy(&self) -> (r: SurfaceSet)
        ensures
            r.items@ == self.items@,
    {
        let mut items: Vec<FrameSurface> = Vec::new();
        let mut i: usize = 0;
        while i < self.items.len()
            invariant
                i <= self.items.len(),
                items@ == self.items@.take(i as int),
            decreases self.items.len() - i,
        {
            items.push(self.items[i]);
            assert(self.items@.take(i as int + 1) =~= self.items@.take(i as int).push(self.items@[i as int]));
            i = i + 1;
        }
        assert(self.items@.take(self.items.len() as int) =~= self.items@);
        SurfaceSet { items }
    }
}

#[derive(Debug, Clone, Copy, PartialEq, Eq, Structural)]
pub enum PixelFormat {
    Bgra,
    Yuv420p,
    Yuv420p10le,
    Yuva420p,
    Yuva420p10le,
    Nv12,
    Nv15,
    P010le,
    P016,
}

impl PixelFormat {
    pub open spec fn spec_bit_depth(self) -> u8 {
        match self {
            PixelFormat::Bgra | PixelFormat::Yuv420p | PixelFormat::Yuva420p | PixelFormat::Nv12 => 8,
            PixelFormat::Yuv420p10le | PixelFormat::Yuva420p10le | PixelFormat::P010le
            | PixelFormat::Nv15 => 10,
            PixelFormat::P016 => 16,
        }
    }

    pub open spec fn spec_has_alpha(self) -> bool {
        self == PixelFormat::Bgra || self == PixelFormat::Yuva420p || self == PixelFormat::Yuva420p10le
    }

    pub open spec fn spec_name(self) -> Seq<char> {
        match self {
            PixelFormat::Bgra => "bgra"@,
            PixelFormat::Yuv420p => "yuv420p"@,
            PixelFormat::Yuv420p10le => "yuv420p10le"@,
            PixelFormat::Yuva420p => "yuva420p"@,
            PixelFormat::Yuva420p10le => "yuva420p10le"@,
            PixelFormat::Nv12 => "nv12"@,
            PixelFormat::Nv15 => "nv15"@,
            PixelFormat::P010le => "p010le"@,
            PixelFormat::P016 => "p016"@,
        }
    }

    /// The format that `parse` gives for a name: a known name compared without
    /// regard to ASCII case, and yuv420p for any other name.
    pub open spec fn spec_parse(name: Seq<char>) -> PixelFormat {
        let l = lower(name);
        if l == "bgra"@ {
            PixelFormat::Bgra
        } else if l == "yuv420p"@ {
            PixelFormat::Yuv420p
        } else if l == "yuv420p10le"@ {
            PixelFormat::Yuv420p10le
        } else if l == "yuva420p"@ {
            PixelFormat::Yuva420p
        } else if l == "yuva420p10le"@ {
            PixelFormat::Yuva420p10le
        } else if l == "nv12"@ {
            PixelFormat::Nv12
        } else if l == "p010le"@ {
            PixelFormat::P010le
        } else {
            PixelFormat::Yuv420p
        }
    }

    /// Parses an ffprobe pixel format name; unknown names are taken as yuv420p.
    pub fn parse(pix_fmt: &str) -> (r: PixelFormat)
        ensures
            r == Self::spec_parse(pix_fmt@),
    {
        if eq_lower(pix_fmt, "bgra") {
            PixelFormat::Bgra
        } else if eq_lower(pix_fmt, "yuv420p") {
            PixelFormat::Yuv420p
        } else if eq_lower(pix_fmt, "yuv420p10le") {
            PixelFormat::Yuv420p10le
        } else if eq_lower(pix_fmt, "yuva420p") {
            PixelFormat::Yuva420p
        } else if eq_lower(pix_fmt, "yuva420p10le") {
            PixelFormat::Yuva420p10le
        } else if eq_lower(pix_fmt, "nv12") {
            PixelFormat::Nv12
        } else if eq_lower(pix_fmt, "p010le") {
            PixelFormat::P010le
        } else {
            PixelFormat::Yuv420p
        }
    }

    /// Bits per color component.
    pub fn bit_depth(&self) -> (r: u8)
        ensures
            r == self.spec_bit_depth(),
    {
        match self {
            PixelFormat::Bgra | PixelFormat::Yuv420p | PixelFormat::Yuva420p | PixelFormat::Nv12 => 8,
            PixelFormat::Yuv420p10le | PixelFormat::Yuva420p10le | PixelFormat::P010le
            | PixelFormat::Nv15 => 10,
            PixelFormat::P016 => 16,
        }
    }

    /// Whether the format carries an alpha channel.
    pub fn has_alpha(&self) -> (r: bool)
        ensures
            r == self.spec_has_alpha(),
    {
        match self {
            PixelFormat::Bgra | PixelFormat::Yuva420p | PixelFormat::Yuva420p10le => true,
            _ => false,
        }
    }

    /// The ffmpeg name of the format.
    pub fn as_arg(&self) -> (r: &'static str)
        ensures
            r@ == self.spec_name(),
    {
        match self {
            PixelFormat::Bgra => "bgra",
            PixelFormat::Yuv420p => "yuv420p",
            PixelFormat::Yuv420p10le => "yuv420p10le",
            PixelFormat::Yuva420p => "yuva420p",
            PixelFormat::Yuva420p10le => "yuva420p10le",
            PixelFormat::Nv12 => "nv12",
            PixelFormat::Nv15 => "nv15",
            PixelFormat::P010le => "p010le",
            PixelFormat::P016 => "p016",
        }
    }
}

/// Reading the name of a pixel format back gives the format, nv15 and p016
/// excepted: `parse` does not know them.
pub proof fn law_pixel_format_name_round_trip(pf: PixelFormat)
    requires
        pf != PixelFormat::Nv15,
        pf != PixelFormat::P016,
    ensures
        PixelFormat::spec_parse(pf.spec_name()) == pf,
{
    reveal_strlit("bgra");
    reveal_strlit("yuv420p");
    reveal_strlit("yuv420p10le");
    reveal_strlit("yuva420p");
    reveal_strlit("yuva420p10le");
    reveal_strlit("nv12");
    reveal_strlit("p010le");
    let n = pf.spec_name();
    assert(lower(n) =~= n) by {
        assert forall|i: int| 0 <= i < n.len() implies lower(n)[i] == n[i] by {
            assert(!('A' <= n[i] && n[i] <= 'Z'));
        }
    }
    assert("bgra"@[0] != "yuv420p"@[0]);
    assert("yuv420p"@.len() != "yuv420p10le"@.len());
    assert("yuva420p"@[3] != "yuv420p"@[3]);
    assert("yuva420p10le"@.len() != "yuva420p"@.len());
    assert("yuva420p10le"@[3] != "yuv420p10le"@[3]);
    assert("nv12"@[0] != "yuv420p"@[0]);
    assert("p010le"@[0] != "yuv420p"@[0]);
    assert("nv12"@.len() != "yuva420p"@.len());
    assert("p010le"@.len() != "yuv420p10le"@.len());
}

/// The pixel formats that hardware surfaces hold.
#[derive(Debug, Clone, Copy, PartialEq, Eq, Structural)]
pub enum HwPixelFormat {
    Nv12,
    P010le,
    Nv15,
}

impl HwPixelFormat {
    pub open spec fn spec_format(self) -> PixelFormat {
        match self {
            HwPixelFormat::Nv12 => PixelFormat::Nv12,
            HwPixelFormat::P010le => PixelFormat::P010le,
            HwPixelFormat::Nv15 => PixelFormat::Nv15,
        }
    }

    /// The pixel format this hardware format stands for.
    pub fn format(&self) -> (r: PixelFormat)
        ensures
            r == self.spec_format(),
    {
        match self {
            HwPixelFormat::Nv12 => PixelFormat::Nv12,
            HwPixelFormat::P010le => PixelFormat::P010le,
            HwPixelFormat::Nv15 => PixelFormat::Nv15,
        }
    }

    /// The ffmpeg name of the format.
    pub fn as_arg(&self) -> (r: &'static str)
        ensures
            r@ == self.spec_format().spec_name(),
    {
        self.format().as_arg()
    }
}

/// What the output options need to know of the encoders and the media.
pub struct OutputContext {
    pub media_frame_rate: crate::frame_rate::FrameRate,
    pub audio_codec: crate::video_codec::AudioCodec,
    pub audio_channels: Option<u32>,
    pub video_codec: crate::video_codec::VideoCodec,
    pub pts_offset: Option<PtsOffset>,
    pub preferred_surface: FrameSurface,
    pub preferred_pixel_format: Option<PixelFormat>,
}

/// A key and value for the environment of the ffmpeg process.
pub struct EnvironmentVariable {
    pub key: String,
    pub value: String,
}

/// The state of the frames at one point of the filter graph.
pub struct FrameState {
    pub size: FrameSize,
    pub is_anamorphic: bool,
    pub is_interlaced: bool,
    pub sample_aspect_ratio: Option<String>,
    pub display_aspect_ratio: Option<String>,
    pub surface: FrameSurface,
    pub pixel_format: PixelFormat,
    pub is_hdr: bool,
}

/// The mathematical value of a frame state.
pub struct FrameStateView {
    pub size: FrameSize,
    pub is_anamorphic: bool,
    pub is_interlaced: bool,
    pub sample_aspect_ratio: Option<Seq<char>>,
    pub display_aspect_ratio: Option<Seq<char>>,
    pub surface: FrameSurface,
    pub pixel_format: PixelFormat,
    pub is_hdr: bool,
}

impl View for FrameState {
    type V = FrameStateView;

    open spec fn view(&self) -> FrameStateView {
        FrameStateView {
            size: self.size,
            is_anamorphic: self.is_anamorphic,
            is_interlaced: self.is_interlaced,
            sample_aspect_ratio: opt_string_view(self.sample_aspect_ratio),
            display_aspect_ratio: opt_string_view(self.display_aspect_ratio),
            surface: self.surface,
            pixel_format: self.pixel_format,
            is_hdr: self.is_hdr,
        }
    }
}

/// A copy of an optional string.
pub fn clone_opt_string(o: &Option<String>) -> (r: Option<String>)
    ensures
        r == *o,
{
    match o {
        Some(s) => Some(s.clone()),
        None => None,
    }
}

impl FrameState {
    /// A copy of the state.
    pub fn duplicate(&self) -> (r: FrameState)
        ensures
            r == *self,
    {
        FrameState {
            size: self.size,
            is_anamorphic: self.is_anamorphic,
            is_interlaced: self.is_interlaced,
            sample_aspect_ratio: clone_opt_string(&self.sample_aspect_ratio),
            display_aspect_ratio: clone_opt_string(&self.display_aspect_ratio),
            surface: self.surface,
            pixel_format: self.pixel_format,
            is_hdr: self.is_hdr,
        }
    }
}

/// An input of the ffmpeg process, with where to start in it (milliseconds).
pub enum PipelineInput {
    Audio {
        input_source: InputSource,
        index: u32,
        path: String,
        seek_ms: u64,
        channels: u32,
    },
    Video {
        input_source: InputSource,
        index: u32,
        path: String,
        seek_ms: u64,
        realtime: bool,
        decoder: VideoDecoder,
    },
    Subtitle {
        input_source: InputSource,
        index: u32,
        path: String,
        seek_ms: u64,
    },
}

impl PipelineInput {
    pub open spec fn spec_sort_order(&self) -> u8 {
        match self {
            PipelineInput::Video { .. } => 0,
            PipelineInput::Audio { .. } => 1,
            PipelineInput::Subtitle { .. } => 2,
        }
    }

    /// Where the input goes among the inputs: video, then audio, then subtitles.
    pub fn sort_order(&self) -> (r: u8)
        ensures
            r == self.spec_sort_order(),
    {
        match self {
            PipelineInput::Video { .. } => 0,
            PipelineInput::Audio { .. } => 1,
            PipelineInput::Subtitle { .. } => 2,
        }
    }
}

/// A complete ffmpeg invocation: options, inputs, filters and outputs.
pub struct Pipeline {
    pub ffmpeg_info: FfmpegInfo,
    pub accel: Option<HardwareAccel>,
    pub initial_state: FrameState,
    pub global_options: Vec<GlobalOption>,
    pub inputs: Vec<PipelineInput>,
    pub filter_chain: FilterChain,
    pub output_options: Vec<OutputOption>,
    pub output_context: OutputContext,
    pub filter_options: crate::output_settings::VideoFilterOptions,
}

/// The accel kept: dropped when ffmpeg does not list the hwaccel it needs.
#[verifier::opaque]
pub open spec fn kept_accel(info: FfmpegInfo, accel: Option<HardwareAccel>) -> Option<HardwareAccel> {
    match accel {
        Some(a) => match a.spec_known_accel() {
            Some(k) => if info.spec_has_hw_accel(k) { Some(a) } else { None },
            None => Some(a),
        },
        None => None,
    }
}

/// The audio encoder of an audio format: stream copy without one.
pub open spec fn audio_codec_for(format: Option<AudioFormat>) -> AudioCodec {
    match format {
        Some(AudioFormat::Aac) => AudioCodec::Aac,
        Some(AudioFormat::Ac3) => AudioCodec::Ac3,
        None => AudioCodec::Copy,
    }
}

/// The software encoder of a format: libx265 for HEVC, libx264 for H.264,
/// stream copy otherwise.
pub open spec fn software_codec_for(format: Option<VideoFormat>) -> VideoCodecView {
    match format {
        Some(VideoFormat::Hevc) => libx265_view(),
        Some(VideoFormat::H264) => libx264_view(),
        _ => copy_view(),
    }
}

/// The video encoder: the accel's encoder for the format when it has one and
/// encodes the bit depth (8 by default); else the software encoder.
#[verifier::opaque]
pub open spec fn video_codec_for(accel: Option<HardwareAccel>, format: Option<VideoFormat>, bit_depth: Option<u8>,
    video_size: Option<FrameSize>) -> VideoCodecView {
    let bd = match bit_depth { Some(b) => b, None => 8u8 };
    match (accel, format) {
        (Some(a), Some(f)) => match a.spec_codec_for_format(f, bd, video_size) {
            Some(c) => if a.spec_can_encode(f, bd) { c } else { software_codec_for(format) },
            None => software_codec_for(format),
        },
        _ => software_codec_for(format),
    }
}

/// The hardware decoder of the video, if any: none when the video is copied or a
/// still image, else the accel's decoder for the stream.
#[verifier::opaque]
pub open spec fn hw_decoder_for(info: FfmpegInfo, stream: ProbeResultVideoStream, copies_video: bool,
    accel: Option<HardwareAccel>) -> Option<HwDecoderView> {
    if copies_video || stream.spec_is_still_image() {
        None
    } else {
        match accel {
            Some(a) => a.spec_make_decoder(info, stream.codec@, stream.profile@, stream.pix_fmt@, stream.is_hdr),
            None => None,
        }
    }
}

/// The state of the decoded frames.
#[verifier::opaque]
pub open spec fn initial_state_for(info: FfmpegInfo, stream: ProbeResultVideoStream, copies_video: bool,
    accel: Option<HardwareAccel>, deinterlace: bool) -> FrameStateView {
    let source = PixelFormat::spec_parse(stream.pix_fmt@);
    FrameStateView {
        size: FrameSize { width: stream.width, height: stream.height },
        is_anamorphic: sar_is_anamorphic(opt_string_view(stream.sample_aspect_ratio)),
        is_interlaced: deinterlace && stream.spec_is_interlaced(),
        sample_aspect_ratio: opt_string_view(stream.sample_aspect_ratio),
        display_aspect_ratio: opt_string_view(stream.display_aspect_ratio),
        surface: match hw_decoder_for(info, stream, copies_video, accel) {
            Some(d) => d.surface,
            None => FrameSurface::System,
        },
        pixel_format: match hw_decoder_for(info, stream, copies_video, accel) {
            Some(_) => accel.unwrap().spec_output_format(source).spec_format(),
            None => source,
        },
        is_hdr: stream.is_hdr,
    }
}

/// The pixel format the encoder prefers at the bit depth asked for, if any.
pub open spec fn preferred_format_for(codec: VideoCodecView, bit_depth: Option<u8>) -> Option<PixelFormat> {
    match bit_depth {
        Some(10) => codec.pixel_format_10bit,
        Some(8) => codec.pixel_format_8bit,
        _ => None,
    }
}

/// The filters a pipeline starts with: loudness normalization, resampling and
/// padding of audio; the decoder's filters; looping of a png, tonemapping,
/// deinterlacing, scaling and padding of video.
#[verifier::opaque]
pub open spec fn base_filters(settings: OutputSettings, decoder_filters: Seq<PipelineFilterView>, stream: ProbeResultVideoStream,
    initial: FrameStateView) -> Seq<PipelineFilterView> {
    seq![
        PipelineFilterView::Audio(AudioFilter::LoudNorm { settings: settings.audio.loudness, sample_rate: settings.audio.sample_rate }),
        PipelineFilterView::Audio(AudioFilter::Resample),
        PipelineFilterView::Audio(AudioFilter::Pad),
    ] + decoder_filters + seq![
        PipelineFilterView::Video(VideoFilter::Loop(LoopFilter { codec: stream.codec })),
        PipelineFilterView::Video(VideoFilter::ToneMap(ToneMapFilter {
            algorithm: settings.filter_options.tonemap.tonemap,
            output_format: if settings.bit_depth == Some(10u8) { PixelFormat::Yuv420p10le } else { PixelFormat::Yuv420p },
        })),
        PipelineFilterView::Video(VideoFilter::Deinterlace(DeinterlaceFilter {
            filter: SoftwareDeinterlaceFilter::Yadif,
            input_is_interlaced: initial.is_interlaced,
        })),
        PipelineFilterView::Video(VideoFilter::Scale(ScaleFilter {
            size: settings.video_size,
            scaling_mode: settings.scaling_mode,
            input_is_anamorphic: initial.is_anamorphic,
            force_original_aspect_ratio: None,
        })),
        PipelineFilterView::Video(VideoFilter::Pad(PadFilter { size: settings.video_size, scaling_mode: settings.scaling_mode })),
    ]
}

/// The state of picture subtitles: their size, on system memory, bgra unless
/// ffprobe names their format.
pub open spec fn subtitle_state(sub: ProbeResultSubtitleStream) -> FrameStateView {
    FrameStateView {
        size: FrameSize { width: sub.width.unwrap(), height: sub.height.unwrap() },
        is_anamorphic: sar_is_anamorphic(opt_string_view(sub.sample_aspect_ratio)),
        is_interlaced: false,
        sample_aspect_ratio: opt_string_view(sub.sample_aspect_ratio),
        display_aspect_ratio: opt_string_view(sub.display_aspect_ratio),
        surface: FrameSurface::System,
        pixel_format: if sub.pix_fmt@.len() == 0 { PixelFormat::Bgra } else { PixelFormat::spec_parse(sub.pix_fmt@) },
        is_hdr: false,
    }
}

/// What the subtitles add: for picture subtitles with a size, a software overlay
/// of them scaled to the output size; for text subtitles to burn in, a subtitles
/// filter; nothing otherwise.
#[verifier::opaque]
pub open spec fn subtitle_filters(settings: OutputSettings, sub: Option<(ProbeResultSubtitleStream, ProbedInput)>) -> Seq<PipelineFilterView> {
    match sub {
        Some((s, input)) => if s.spec_is_subtitle_image() && s.height.is_some() && s.width.is_some() {
            seq![PipelineFilterView::Overlay(OverlayFilterView {
                kind: OverlayKind::Software(SoftwareOverlay { bit_depth: 8 }),
                secondary: seq![VideoFilter::Scale(ScaleFilter {
                    size: settings.video_size,
                    scaling_mode: ScalingMode::ScaleAndPad,
                    input_is_anamorphic: sar_is_anamorphic(opt_string_view(s.sample_aspect_ratio)),
                    force_original_aspect_ratio: None,
                })],
                secondary_initial_state: subtitle_state(s),
                secondary_source: OverlaySource::Subtitle,
                location: None,
            })]
        } else if !s.spec_is_subtitle_image() && settings.subtitle_mode == SubtitleMode::Burn {
            seq![PipelineFilterView::Video(VideoFilter::Subtitles(SubtitlesFilter {
                path: input.probe_result.path,
                seek_ms: input.in_point_ms,
            }))]
        } else {
            seq![]
        },
        None => seq![],
    }
}

/// The subtitle stream and input in use, if any.
#[verifier::opaque]
pub open spec fn subtitle_choice(input_settings: InputSettings) -> Option<(ProbeResultSubtitleStream, ProbedInput)> {
    match input_settings.subtitle_input {
        Some(input) => match subtitle_stream_position(input) {
            Some(i) => Some((input.probe_result.streams@[i]->Subtitle_0, input)),
            None => None,
        },
        None => None,
    }
}

/// The global options: one thread with an accel (else ffmpeg picks), no stdin,
/// no banner, errors only, generated timestamps.
pub open spec fn global_args(opts: Seq<GlobalOption>) -> Seq<Seq<char>>
    decreases opts.len(),
{
    if opts.len() == 0 { seq![] } else { global_args(opts.drop_last()) + opts.last().spec_arg() }
}

/// The duration of the output: the shorter of the audio and video parts.
pub open spec fn output_duration(input_settings: InputSettings) -> nat {
    let a = input_settings.audio_input.out_point_ms - input_settings.audio_input.in_point_ms;
    let v = input_settings.video_input.out_point_ms - input_settings.video_input.in_point_ms;
    (if a <= v { a } else { v }) as nat
}

/// The video encoder (see `video_codec_for`).
pub fn choose_video_codec(accel: &Option<HardwareAccel>, format: Option<VideoFormat>, bit_depth: Option<u8>,
    video_size: Option<FrameSize>) -> (r: VideoCodec)
    ensures
        r@ == video_codec_for(*accel, format, bit_depth, video_size),
{
    reveal(video_codec_for);
    let bd: u8 = match bit_depth {
        Some(b) => b,
        None => 8,
    };
    match (accel, format) {
        (Some(a), Some(f)) => match a.codec_for_format(&f, bd, video_size) {
            Some(c) => if a.can_encode(&f, bd) { c } else { software_codec(format) },
            None => software_codec(format),
        },
        _ => software_codec(format),
    }
}

/// The state of the decoded frames (see `initial_state_for`).
fn initial_state_of(info: &FfmpegInfo, stream: &ProbeResultVideoStream, copies_video: bool, accel: &Option<HardwareAccel>,
    deinterlace: bool, decoder: &VideoDecoder) -> (r: FrameState)
    requires
        (copies_video || stream.spec_is_still_image()) ==> decoder is Disabled,
        !(copies_video || stream.spec_is_still_image()) ==> match accel {
            Some(a) => match a.spec_make_decoder(*info, stream.codec@, stream.profile@, stream.pix_fmt@, stream.is_hdr) {
                Some(d) => (decoder matches VideoDecoder::HardwareAccel { accel: ra, decoder: hd } && hd@ == d
                    && forall|pf: PixelFormat| ra.spec_output_format(pf) == a.spec_output_format(pf)),
                None => decoder is Software,
            },
            None => decoder is Software,
        },
    ensures
        r@ == initial_state_for(*info, *stream, copies_video, *accel, deinterlace),
{
    reveal(initial_state_for);
    reveal(hw_decoder_for);
    let source = PixelFormat::parse(stream.pix_fmt.as_str());
    FrameState {
        size: FrameSize { width: stream.width, height: stream.height },
        is_anamorphic: stream.is_anamorphic(),
        is_interlaced: deinterlace && stream.is_interlaced(),
        sample_aspect_ratio: clone_opt_string(&stream.sample_aspect_ratio),
        display_aspect_ratio: clone_opt_string(&stream.display_aspect_ratio),
        surface: decoder.output_surface(),
        pixel_format: decoder.output_format(&source),
        is_hdr: stream.is_hdr,
    }
}

/// The filters a pipeline starts with (see `base_filters`).
fn base_filter_list(settings: &OutputSettings, decoder_filters: Vec<PipelineFilter>, stream: &ProbeResultVideoStream,
    initial: &FrameState) -> (r: Vec<PipelineFilter>)
    ensures
        filter_views(r@) == base_filters(*settings, filter_views(decoder_filters@), *stream, initial@),
{
    reveal(base_filters);
    let mut filters: Vec<PipelineFilter> = Vec::new();
    filters.push(PipelineFilter::Audio(AudioFilter::LoudNorm { settings: settings.audio.loudness, sample_rate: settings.audio.sample_rate }));
    filters.push(PipelineFilter::Audio(AudioFilter::Resample));
    filters.push(PipelineFilter::Audio(AudioFilter::Pad));
    let ghost head = filters@;
    let mut dfs = decoder_filters;
    filters.append(&mut dfs);
    let ghost mid = filters@;
    let loop_filter = VideoFilter::Loop(LoopFilter { codec: stream.codec.clone() });
    let tonemap = VideoFilter::ToneMap(ToneMapFilter {
        algorithm: clone_opt_string(&settings.filter_options.tonemap.tonemap),
        output_format: match settings.bit_depth {
            Some(10) => PixelFormat::Yuv420p10le,
            _ => PixelFormat::Yuv420p,
        },
    });
    let deinterlace = VideoFilter::Deinterlace(DeinterlaceFilter {
        filter: SoftwareDeinterlaceFilter::Yadif,
        input_is_interlaced: initial.is_interlaced,
    });
    let scale = VideoFilter::Scale(ScaleFilter {
        size: settings.video_size,
        scaling_mode: settings.scaling_mode,
        input_is_anamorphic: initial.is_anamorphic,
        force_original_aspect_ratio: None,
    });
    let pad = VideoFilter::Pad(PadFilter { size: settings.video_size, scaling_mode: settings.scaling_mode });
    let ghost tail = seq![loop_filter, tonemap, deinterlace, scale, pad];
    filters.push(PipelineFilter::Video(loop_filter));
    filters.push(PipelineFilter::Video(tonemap));
    filters.push(PipelineFilter::Video(deinterlace));
    filters.push(PipelineFilter::Video(scale));
    filters.push(PipelineFilter::Video(pad));
    assert(filter_views(filters@) =~= filter_views(head) + filter_views(decoder_filters@)
        + tail.map_values(|v: VideoFilter| PipelineFilterView::Video(v)));
    filters
}

/// What the subtitles add (see `subtitle_filters`), and the subtitle input for
/// picture subtitles.
fn subtitle_parts(settings: &OutputSettings, sub: Option<&ProbeResultSubtitleStream>, input: Option<ProbedInput>)
    -> (r: (Vec<PipelineFilter>, Option<PipelineInput>))
    ensures
        filter_views(r.0@) == subtitle_filters(*settings, match (sub, input) {
            (Some(s), Some(i)) => Some((*s, i)),
            _ => None,
        }),
        r.1.is_some() <==> (r.0@.len() > 0 && r.0@[0] is Overlay),
        r.1 matches Some(i) ==> (sub, input) matches (Some(s), Some(pi)) && i == (PipelineInput::Subtitle {
            input_source: pi.input_source,
            index: s.stream_index,
            path: pi.probe_result.path,
            seek_ms: pi.in_point_ms,
        }),
{
    reveal(subtitle_filters);
    let mut filters: Vec<PipelineFilter> = Vec::new();
    match (sub, input) {
        (Some(s), Some(input)) => {
            let image = s.is_subtitle_image();
            if image && s.height.is_some() && s.width.is_some() {
                let state = FrameState {
                    size: FrameSize { width: s.width.unwrap(), height: s.height.unwrap() },
                    is_anamorphic: s.is_anamorphic(),
                    is_interlaced: false,
                    sample_aspect_ratio: clone_opt_string(&s.sample_aspect_ratio),
                    display_aspect_ratio: clone_opt_string(&s.display_aspect_ratio),
                    surface: FrameSurface::System,
                    pixel_format: if s.pix_fmt.unicode_len() == 0 { PixelFormat::Bgra } else { PixelFormat::parse(s.pix_fmt.as_str()) },
                    is_hdr: false,
                };
                let mut secondary: Vec<VideoFilter> = Vec::new();
                secondary.push(VideoFilter::Scale(ScaleFilter {
                    size: settings.video_size,
                    scaling_mode: ScalingMode::ScaleAndPad,
                    input_is_anamorphic: s.is_anamorphic(),
                    force_original_aspect_ratio: None,
                }));
                let overlay = OverlayFilter {
                    kind: OverlayKind::Software(SoftwareOverlay::default()),
                    secondary,
                    secondary_initial_state: state,
                    secondary_source: OverlaySource::Subtitle,
                    location: None,
                };
                let ghost ov = overlay@;
                filters.push(PipelineFilter::Overlay(overlay));
                assert(filter_views(filters@) =~= seq![PipelineFilterView::Overlay(ov)]);
                let ProbedInput { input_source, probe_result, in_point_ms, .. } = input;
                let sub_input = PipelineInput::Subtitle {
                    input_source,
                    index: s.stream_index,
                    path: probe_result.path,
                    seek_ms: in_point_ms,
                };
                (filters, Some(sub_input))
            } else if !image && settings.subtitle_mode == SubtitleMode::Burn {
                let f = VideoFilter::Subtitles(SubtitlesFilter { path: input.probe_result.path.clone(), seek_ms: input.in_point_ms });
                filters.push(PipelineFilter::Video(f));
                assert(filter_views(filters@) =~= seq![PipelineFilterView::Video(f)]);
                (filters, None)
            } else {
                assert(filter_views(filters@) =~= seq![]);
                (filters, None)
            }
        },
        _ => {
            assert(filter_views(filters@) =~= seq![]);
            (filters, None)
        },
    }
}

/// The arguments of the standard global options: one thread with an accel
/// (else ffmpeg picks), no stdin, no banner, errors only, generated timestamps.
pub open spec fn standard_global_args(has_accel: bool) -> Seq<Seq<char>> {
    seq!["-threads"@, crate::text::dec(if has_accel { 1nat } else { 0nat }), "-nostdin"@, "-hide_banner"@, "-loglevel"@,
        "error"@, "-fflags"@, "+genpts+discardcorrupt+igndts"@]
}

/// The standard global options: one thread with an accel (else ffmpeg picks),
/// no stdin, no banner, errors only, generated timestamps.
pub open spec fn standard_global_options(has_accel: bool) -> Seq<GlobalOption> {
    seq![GlobalOption::Threads(if has_accel { 1u32 } else { 0u32 }), GlobalOption::NoStdIn, GlobalOption::HideBanner,
        GlobalOption::LogLevel(LogLevel::Error), GlobalOption::StandardFormatFlags]
}

/// What the pipeline built from the inputs and settings holds.
pub open spec fn built_as(p: Pipeline, info: FfmpegInfo, input_settings: InputSettings, output_settings: OutputSettings) -> bool {
    let vin = input_settings.video_input;
    let ain = input_settings.audio_input;
    let vs = vin.probe_result.streams@[video_stream_position(vin).unwrap()]->Video_0;
    let aus = ain.probe_result.streams@[audio_stream_position(ain).unwrap()]->Audio_0;
    let accel = kept_accel(info, output_settings.accel);
    let copies = output_settings.video_format.is_none();
    let codec = video_codec_for(accel, output_settings.video_format, output_settings.bit_depth, output_settings.video_size);
    let initial = initial_state_for(info, vs, copies, accel, output_settings.deinterlace);
    let dec_filters = match hw_decoder_for(info, vs, copies, accel) { Some(d) => d.filters, None => seq![] };
    let sub = subtitle_filters(output_settings, subtitle_choice(input_settings));
    &&& p.accel == accel
    &&& p.ffmpeg_info.hwaccels@ == info.hwaccels@
    &&& p.ffmpeg_info.video_filters@ == info.video_filters@
    &&& p.ffmpeg_info.preferred_filters@ == info.preferred_filters@
    &&& p.initial_state@ == initial
    &&& p.output_context.video_codec@ == codec
    &&& p.output_context.audio_codec == audio_codec_for(output_settings.audio.format)
    &&& p.output_context.audio_channels == output_settings.audio.channels
    &&& p.output_context.pts_offset == output_settings.pts_offset
    &&& p.output_context.preferred_surface == codec.surface
    &&& p.output_context.preferred_pixel_format == preferred_format_for(codec, output_settings.bit_depth)
    &&& p.output_context.media_frame_rate == vs.frame_rate
    &&& p.filter_chain.wf()
    &&& p.filter_chain.filters_view() == base_filters(output_settings, dec_filters, vs, initial) + sub
    &&& p.global_options@ == standard_global_options(accel.is_some())
    &&& p.inputs@.len() == 2 + (if sub.len() > 0 && sub[0] is Overlay { 1int } else { 0int })
    &&& p.inputs@[0] == (PipelineInput::Audio {
            input_source: ain.input_source,
            index: aus.stream_index,
            path: ain.probe_result.path,
            seek_ms: ain.in_point_ms,
            channels: aus.channels,
        })
    &&& (p.inputs@[1] matches PipelineInput::Video { input_source, index, path, seek_ms, realtime, decoder }
        && input_source == vin.input_source && index == vs.stream_index && path == vin.probe_result.path
        && seek_ms == vin.in_point_ms && realtime == output_settings.realtime
        && decoder.spec_args() == match hw_decoder_for(info, vs, copies, accel) { Some(d) => d.args, None => seq![] })
    &&& (p.inputs@.len() == 3 ==> (subtitle_choice(input_settings) matches Some((s, si)) && p.inputs@[2] == (PipelineInput::Subtitle {
            input_source: si.input_source,
            index: s.stream_index,
            path: si.probe_result.path,
            seek_ms: si.in_point_ms,
        })))
    &&& p.output_options@.len() == 17
    &&& p.output_options@[0] is NoDemuxDecodeDelay
    &&& p.output_options@[1] is MovFlagsFastStart
    &&& p.output_options@[2] is CudaNoAutoScale
    &&& p.output_options@[3] == OutputOption::AudioCodec(audio_codec_for(output_settings.audio.format))
    &&& p.output_options@[4] == OutputOption::AudioBitrate(output_settings.audio.bitrate)
    &&& p.output_options@[5] == OutputOption::AudioBuffer(output_settings.audio.buffer)
    &&& p.output_options@[6] == OutputOption::AudioChannels(output_settings.audio.channels)
    &&& p.output_options@[7] == OutputOption::AudioSampleRate(output_settings.audio.sample_rate)
    &&& (p.output_options@[8] matches OutputOption::VideoCodec(c) && c@ == codec)
    &&& p.output_options@[9] == OutputOption::VideoBitrate(output_settings.video_bitrate)
    &&& p.output_options@[10] == OutputOption::VideoBuffer(output_settings.video_buffer)
    &&& p.output_options@[11] is DoNotMapMetadata
    &&& p.output_options@[12] == OutputOption::Duration(output_duration(input_settings) as u64)
    &&& p.output_options@[13] == OutputOption::TsOffset(output_settings.pts_offset)
    &&& p.output_options@[14] == OutputOption::VideoTrackTimeScale(90_000)
    &&& p.output_options@[15] == OutputOption::FrameRate(output_settings.frame_rate)
    &&& p.output_options@[16] == OutputOption::Format(output_settings.format)
    &&& p.filter_options == output_settings.filter_options
}

proof fn lemma_filters_ignore_accel(a: OutputSettings, b: OutputSettings, decoder_filters: Seq<PipelineFilterView>,
    stream: ProbeResultVideoStream, initial: FrameStateView, sub: Option<(ProbeResultSubtitleStream, ProbedInput)>)
    requires
        a.audio == b.audio,
        a.filter_options == b.filter_options,
        a.bit_depth == b.bit_depth,
        a.video_size == b.video_size,
        a.scaling_mode == b.scaling_mode,
        a.subtitle_mode == b.subtitle_mode,
    ensures
        base_filters(a, decoder_filters, stream, initial) == base_filters(b, decoder_filters, stream, initial),
        subtitle_filters(a, sub) == subtitle_filters(b, sub),
{
    reveal(base_filters);
    reveal(subtitle_filters);
}

/// The global options (see `standard_global_options`), whose arguments are
/// `standard_global_args`.
fn global_option_list(has_accel: bool) -> (r: Vec<GlobalOption>)
    ensures
        r@ == standard_global_options(has_accel),
        global_args(r@) == standard_global_args(has_accel),
{
    let mut r: Vec<GlobalOption> = Vec::new();
    r.push(GlobalOption::Threads(if has_accel { 1 } else { 0 }));
    r.push(GlobalOption::NoStdIn);
    r.push(GlobalOption::HideBanner);
    r.push(GlobalOption::LogLevel(LogLevel::Error));
    r.push(GlobalOption::StandardFormatFlags);
    proof {
        reveal_with_fuel(global_args, 6);
        let q = r@;
        assert(q.drop_last().drop_last().drop_last().drop_last().drop_last() =~= seq![]);
        assert(q.drop_last().drop_last().drop_last().drop_last().last() == GlobalOption::Threads(if has_accel { 1u32 } else { 0u32 }));
        assert(global_args(r@) =~= standard_global_args(has_accel));
        assert(r@ =~= standard_global_options(has_accel));
    }
    r
}

impl Pipeline {
    /// Builds the pipeline for the inputs and output settings (see the spec
    /// functions above). It fails when there is no video stream, and then when
    /// there is no audio stream.
    #[verifier::rlimit(100)]
    pub fn full(info: &FfmpegInfo, input_settings: InputSettings, output_settings: OutputSettings)
        -> (r: Result<Pipeline, FFPipelineError>)
        requires
            input_settings.audio_input.in_point_ms <= input_settings.audio_input.out_point_ms,
            input_settings.video_input.in_point_ms <= input_settings.video_input.out_point_ms,
        ensures
            video_stream_position(input_settings.video_input).is_none() ==> r matches Err(FFPipelineError::VideoInputIsRequired),
            video_stream_position(input_settings.video_input).is_some() && audio_stream_position(input_settings.audio_input).is_none()
                ==> r matches Err(FFPipelineError::AudioInputIsRequired),
            video_stream_position(input_settings.video_input).is_some() && audio_stream_position(input_settings.audio_input).is_some()
                ==> r is Ok,
            r matches Ok(p) ==> built_as(p, *info, input_settings, output_settings),
    {
        reveal(kept_accel);
        reveal(subtitle_choice);
        reveal(hw_decoder_for);
        let mut settings = output_settings;
        let keep = match &settings.accel {
            Some(a) => match a.known_accel() {
                Some(k) => info.has_hw_accel(&k),
                None => true,
            },
            None => true,
        };
        if !keep {
            settings.accel = None;
        }
        let a_len = input_settings.audio_input.out_point_ms - input_settings.audio_input.in_point_ms;
        let v_len = input_settings.video_input.out_point_ms - input_settings.video_input.in_point_ms;
        let duration_ms = if a_len <= v_len { a_len } else { v_len };
        let audio_codec = match settings.audio.format {
            Some(AudioFormat::Aac) => AudioCodec::Aac,
            Some(AudioFormat::Ac3) => AudioCodec::Ac3,
            None => AudioCodec::Copy,
        };
        let video_stream = match input_settings.select_video_stream() {
            Ok(v) => v,
            Err(e) => return Err(e),
        };
        let audio_stream = match input_settings.select_audio_stream() {
            Ok(a) => a,
            Err(e) => return Err(e),
        };
        let subtitle_stream = match input_settings.select_subtitle_stream() {
            Some(t) => Some(t.duplicate()),
            None => None,
        };
        let copies = settings.video_format.is_none();
        let video_codec = choose_video_codec(&settings.accel, settings.video_format, settings.bit_depth, settings.video_size);
        let is_still_image = video_stream.is_still_image();
        let video_decoder = VideoDecoder::new(info, video_stream, is_still_image, copies, &settings.accel);
        let initial_state = initial_state_of(info, video_stream, copies, &settings.accel, settings.deinterlace, &video_decoder);
        let preferred_pixel_format = match settings.bit_depth {
            Some(10) => video_codec.preferred_pixel_format_10bit,
            Some(8) => video_codec.preferred_pixel_format_8bit,
            _ => None,
        };
        let output_context = OutputContext {
            media_frame_rate: video_stream.frame_rate.duplicate(),
            audio_codec,
            audio_channels: settings.audio.channels,
            video_codec: video_codec.duplicate(),
            pts_offset: settings.pts_offset,
            preferred_surface: video_codec.preferred_surface,
            preferred_pixel_format,
        };
        let dec_filters = video_decoder.filters();
        let ghost settings0 = settings;
        let mut filters = base_filter_list(&settings, video_decoder.filters(), video_stream, &initial_state);
        let audio_index = audio_stream.stream_index;
        let audio_channels = audio_stream.channels;
        let video_index = video_stream.stream_index;
        let InputSettings { audio_input, video_input, subtitle_input } = input_settings;
        let (mut sub_filters, sub_input) = subtitle_parts(&settings, subtitle_stream.as_ref(), subtitle_input);
        filters.append(&mut sub_filters);
        let mut inputs: Vec<PipelineInput> = Vec::new();
        inputs.push(PipelineInput::Audio {
            input_source: audio_input.input_source,
            index: audio_index,
            path: audio_input.probe_result.path,
            seek_ms: audio_input.in_point_ms,
            channels: audio_channels,
        });
        inputs.push(PipelineInput::Video {
            input_source: video_input.input_source,
            index: video_index,
            path: video_input.probe_result.path,
            seek_ms: video_input.in_point_ms,
            realtime: settings.realtime,
            decoder: video_decoder,
        });
        match sub_input {
            Some(i) => inputs.push(i),
            None => {},
        }
        let has_accel = settings.accel.is_some();
        let OutputSettings { audio, video_bitrate, video_buffer, pts_offset, frame_rate, format, accel, filter_options, .. } = settings;
        let mut output_options: Vec<OutputOption> = Vec::new();
        output_options.push(OutputOption::NoDemuxDecodeDelay);
        output_options.push(OutputOption::MovFlagsFastStart);
        output_options.push(OutputOption::CudaNoAutoScale);
        output_options.push(OutputOption::AudioCodec(audio_codec));
        output_options.push(OutputOption::AudioBitrate(audio.bitrate));
        output_options.push(OutputOption::AudioBuffer(audio.buffer));
        output_options.push(OutputOption::AudioChannels(audio.channels));
        output_options.push(OutputOption::AudioSampleRate(audio.sample_rate));
        output_options.push(OutputOption::VideoCodec(video_codec));
        output_options.push(OutputOption::VideoBitrate(video_bitrate));
        output_options.push(OutputOption::VideoBuffer(video_buffer));
        output_options.push(OutputOption::DoNotMapMetadata);
        output_options.push(OutputOption::Duration(duration_ms));
        output_options.push(OutputOption::TsOffset(pts_offset));
        output_options.push(OutputOption::VideoTrackTimeScale(90_000));
        output_options.push(OutputOption::FrameRate(frame_rate));
        output_options.push(OutputOption::Format(format));
        let p = Pipeline {
            ffmpeg_info: info.duplicate(),
            accel,
            initial_state,
            global_options: global_option_list(has_accel),
            inputs,
            filter_chain: FilterChain::new(filters),
            output_options,
            output_context,
            filter_options,
        };
        proof {
            let vs = input_settings.video_input.probe_result.streams@[video_stream_position(input_settings.video_input).unwrap()]->Video_0;
            assert(vs == *video_stream);
            lemma_filters_ignore_accel(settings0, output_settings, filter_views(dec_filters@), vs, p.initial_state@,
                subtitle_choice(input_settings));
            let ka = kept_accel(*info, output_settings.accel);
            assert(p.accel == ka);
            let codec = video_codec_for(ka, output_settings.video_format, output_settings.bit_depth, output_settings.video_size);
            assert(p.output_context.video_codec@ == codec);
            assert(p.initial_state@ == initial_state_for(*info, vs, output_settings.video_format.is_none(), ka, output_settings.deinterlace));
            assert(p.output_context.preferred_pixel_format == preferred_format_for(codec, output_settings.bit_depth));
            assert(p.filter_chain.filters_view() == base_filters(output_settings, match hw_decoder_for(*info, vs, output_settings.video_format.is_none(), ka) { Some(d) => d.filters, None => seq![] }, vs, p.initial_state@)
                + subtitle_filters(output_settings, subtitle_choice(input_settings)));
            assert(p.global_options@ == standard_global_options(ka.is_some()));
            let sub = subtitle_filters(output_settings, subtitle_choice(input_settings));
            assert(p.inputs@.len() == 2 + (if sub.len() > 0 && sub[0] is Overlay { 1int } else { 0int }));
            assert(p.inputs@[0] is Audio && p.inputs@[1] is Video);
            assert(p.output_options@.len() == 17);
            assert(p.output_options@[12] == OutputOption::Duration(output_duration(input_settings) as u64));
            assert(p.output_options@[16] matches OutputOption::Format(f) && f == output_settings.format);
            assert(p.output_context.audio_codec == audio_codec_for(output_settings.audio.format));
            assert(p.output_context.media_frame_rate == vs.frame_rate);
            assert(p.output_context.preferred_surface == codec.surface);
            assert(p.filter_chain.wf());
        }
        Ok(p)
    }
}

/// Builds the pipeline for the inputs and output settings (see `Pipeline::full`).
pub fn generate_pipeline(info: &FfmpegInfo, input_settings: InputSettings, output_settings: OutputSettings)
    -> (r: Result<Pipeline, FFPipelineError>)
    requires
        input_settings.audio_input.in_point_ms <= input_settings.audio_input.out_point_ms,
        input_settings.video_input.in_point_ms <= input_settings.video_input.out_point_ms,
    ensures
        video_stream_position(input_settings.video_input).is_none() ==> r matches Err(FFPipelineError::VideoInputIsRequired),
        video_stream_position(input_settings.video_input).is_some() && audio_stream_position(input_settings.audio_input).is_none()
            ==> r matches Err(FFPipelineError::AudioInputIsRequired),
        video_stream_position(input_settings.video_input).is_some() && audio_stream_position(input_settings.audio_input).is_some()
            ==> r is Ok,
        r matches Ok(p) ==> built_as(p, *info, input_settings, output_settings),
{
    Pipeline::full(info, input_settings, output_settings)
}

/// The software encoder of a format (see `software_codec_for`).
pub fn software_codec(format: Option<VideoFormat>) -> (r: VideoCodec)
    ensures
        r@ == software_codec_for(format),
{
    match format {
        Some(VideoFormat::Hevc) => VideoCodec::libx265(),
        Some(VideoFormat::H264) => VideoCodec::libx264(),
        _ => VideoCodec::copy(),
    }
}

/// Whether an option is dropped for stream-copied audio: bitrate, buffer,
/// channels and sample rate.
pub open spec fn is_audio_detail(o: OutputOption) -> bool {
    o is AudioBitrate || o is AudioBuffer || o is AudioChannels || o is AudioSampleRate
}

/// Whether an option is dropped for stream-copied video: bitrate and buffer.
pub open spec fn is_video_detail(o: OutputOption) -> bool {
    o is VideoBitrate || o is VideoBuffer
}

/// The kinds of options that can be dropped.
pub enum OptionKind {
    AudioDetail,
    AudioChannels,
    VideoDetail,
}

pub open spec fn of_kind(o: OutputOption, kind: OptionKind) -> bool {
    match kind {
        OptionKind::AudioDetail => is_audio_detail(o),
        OptionKind::AudioChannels => o is AudioChannels,
        OptionKind::VideoDetail => is_video_detail(o),
    }
}

/// The options not of the kind, in order.
pub open spec fn without_kind(opts: Seq<OutputOption>, kind: OptionKind) -> Seq<OutputOption>
    decreases opts.len(),
{
    if opts.len() == 0 {
        seq![]
    } else {
        (if of_kind(opts[0], kind) { seq![] } else { seq![opts[0]] }) + without_kind(opts.drop_first(), kind)
    }
}

fn exec_of_kind(o: &OutputOption, kind: &OptionKind) -> (r: bool)
    ensures
        r == of_kind(*o, *kind),
{
    match kind {
        OptionKind::AudioDetail => match o {
            OutputOption::AudioBitrate(_) | OutputOption::AudioBuffer(_) | OutputOption::AudioChannels(_)
            | OutputOption::AudioSampleRate(_) => true,
            _ => false,
        },
        OptionKind::AudioChannels => match o {
            OutputOption::AudioChannels(_) => true,
            _ => false,
        },
        OptionKind::VideoDetail => match o {
            OutputOption::VideoBitrate(_) | OutputOption::VideoBuffer(_) => true,
            _ => false,
        },
    }
}

/// Drops the options of a kind.
fn drop_options(opts: &mut Vec<OutputOption>, kind: OptionKind)
    ensures
        final(opts)@ == without_kind(old(opts)@, kind),
{
    let mut rest: Vec<OutputOption> = Vec::new();
    std::mem::swap(&mut rest, opts);
    let ghost all = rest@;
    assert(opts@ + without_kind(rest@, kind) =~= without_kind(all, kind));
    while rest.len() > 0
        invariant
            opts@ + without_kind(rest@, kind) == without_kind(all, kind),
        decreases rest.len(),
    {
        let ghost before = rest@;
        let o = rest.remove(0);
        assert(before.drop_first() =~= rest@);
        let ghost prev = opts@;
        if !exec_of_kind(&o, &kind) {
            opts.push(o);
            assert(prev + without_kind(before, kind) =~= opts@ + without_kind(rest@, kind));
        } else {
            assert(prev + without_kind(before, kind) =~= opts@ + without_kind(rest@, kind));
        }
    }
    assert(opts@ + without_kind(rest@, kind) =~= opts@);
}

/// The channel count of the first audio input, if any.
pub open spec fn first_audio_channels(inputs: Seq<PipelineInput>) -> Option<u32> {
    if exists|i: int| 0 <= i < inputs.len() && #[trigger] inputs[i] is Audio {
        let i = choose|i: int| 0 <= i < inputs.len() && #[trigger] inputs[i] is Audio
            && forall|j: int| 0 <= j < i ==> !(#[trigger] inputs[j] is Audio);
        Some(inputs[i]->Audio_channels)
    } else {
        None
    }
}

fn first_audio_channels_of(inputs: &Vec<PipelineInput>) -> (r: Option<u32>)
    ensures
        r == first_audio_channels(inputs@),
{
    let mut i: usize = 0;
    while i < inputs.len()
        invariant
            i <= inputs.len(),
            forall|j: int| 0 <= j < i ==> !(#[trigger] inputs@[j] is Audio),
        decreases inputs.len() - i,
    {
        match &inputs[i] {
            PipelineInput::Audio { channels, .. } => {
                proof {
                    let c = choose|k: int| 0 <= k < inputs@.len() && #[trigger] inputs@[k] is Audio
                        && forall|j: int| 0 <= j < k ==> !(#[trigger] inputs@[j] is Audio);
                    assert(inputs@[i as int] is Audio);
                    if c < i {
                        assert(!(inputs@[c] is Audio));
                    } else if c > i {
                        assert(!(inputs@[i as int] is Audio));
                    }
                }
                return Some(*channels);
            },
            _ => {},
        }
        i = i + 1;
    }
    None
}

/// The options after optimization: details of copied audio dropped, the channel
/// count dropped when the input already has it, details of copied video dropped.
pub open spec fn optimized_options(opts: Seq<OutputOption>, ctx: OutputContext, inputs: Seq<PipelineInput>) -> Seq<OutputOption> {
    let o1 = if ctx.audio_codec == AudioCodec::Copy { without_kind(opts, OptionKind::AudioDetail) } else { opts };
    let o2 = if first_audio_channels(inputs).is_some() && first_audio_channels(inputs) == ctx.audio_channels {
        without_kind(o1, OptionKind::AudioChannels)
    } else {
        o1
    };
    if ctx.video_codec.codec_name@ == "copy"@ { without_kind(o2, OptionKind::VideoDetail) } else { o2 }
}

/// The filters after optimization, before resolution: audio filters dropped for
/// copied audio, video filters dropped for copied video.
pub open spec fn trimmed_filters(fs: Seq<PipelineFilterView>, ctx: OutputContext) -> Seq<PipelineFilterView> {
    let f1 = if ctx.audio_codec == AudioCodec::Copy { crate::filter_chain::without_audio(fs) } else { fs };
    if ctx.video_codec.codec_name@ == "copy"@ { crate::filter_chain::without_video(f1) } else { f1 }
}

impl Pipeline {
    pub open spec fn wf(&self) -> bool {
        self.filter_chain.wf()
    }

    /// Optimizes the pipeline: drops what copied streams do not need (see
    /// `optimized_options` and `trimmed_filters`), evaluates, resolves and
    /// reorders the filters, and sets up the accel's devices when some surface
    /// in use is a hardware one.
    pub fn optimize(&mut self)
        requires
            old(self).wf(),
        ensures
            final(self).wf(),
            final(self).output_options@ == optimized_options(old(self).output_options@, old(self).output_context, old(self).inputs@),
            final(self).filter_chain.filters_view() == crate::filter_chain::spec_optimize(crate::filter_chain::spec_resolve(
                crate::filter_chain::evaluate_chain(trimmed_filters(old(self).filter_chain.filters_view(), old(self).output_context),
                    old(self).initial_state@, old(self).ffmpeg_info).0,
                old(self).initial_state@, old(self).ffmpeg_info, old(self).accel, old(self).filter_options,
                old(self).output_context.preferred_surface, old(self).output_context.preferred_pixel_format).filters),
            final(self).global_options@.len() >= old(self).global_options@.len(),
            forall|i: int| 0 <= i < old(self).global_options@.len() ==> final(self).global_options@[i] == old(self).global_options@[i],
            ({
                let surfaces = crate::filter_chain::spec_resolve(
                    crate::filter_chain::evaluate_chain(trimmed_filters(old(self).filter_chain.filters_view(), old(self).output_context),
                        old(self).initial_state@, old(self).ffmpeg_info).0,
                    old(self).initial_state@, old(self).ffmpeg_info, old(self).accel, old(self).filter_options,
                    old(self).output_context.preferred_surface, old(self).output_context.preferred_pixel_format).surfaces
                    .insert(old(self).initial_state.surface).insert(old(self).output_context.preferred_surface);
                match old(self).accel {
                    Some(a) => if exists|x: FrameSurface| surfaces.contains(x) && x != FrameSurface::System {
                        final(self).global_options@.len() == old(self).global_options@.len() + 1
                            && (final(self).global_options@.last() matches GlobalOption::InitHwDevice(args)
                            && views(args@) == a.spec_init_hw_device(surfaces))
                    } else {
                        final(self).global_options@.len() == old(self).global_options@.len()
                    },
                    None => final(self).global_options@.len() == old(self).global_options@.len(),
                }
            }),
            final(self).accel == old(self).accel,
            final(self).initial_state == old(self).initial_state,
            final(self).ffmpeg_info == old(self).ffmpeg_info,
            final(self).output_context == old(self).output_context,
            final(self).filter_options == old(self).filter_options,
            final(self).inputs == old(self).inputs,
    {
        if self.output_context.audio_codec == AudioCodec::Copy {
            drop_options(&mut self.output_options, OptionKind::AudioDetail);
            self.filter_chain.disable_audio();
        }
        let channels = first_audio_channels_of(&self.inputs);
        let same_channels = match (channels, self.output_context.audio_channels) {
            (Some(a), Some(b)) => a == b,
            _ => false,
        };
        if same_channels {
            drop_options(&mut self.output_options, OptionKind::AudioChannels);
        }
        if self.output_context.video_codec.is_copy() {
            drop_options(&mut self.output_options, OptionKind::VideoDetail);
            self.filter_chain.disable_video();
        }
        self.filter_chain.evaluate(&self.initial_state, &self.ffmpeg_info);
        self.filter_chain.resolve(&self.ffmpeg_info, &self.accel, &self.initial_state,
            &self.output_context.preferred_surface, &self.output_context.preferred_pixel_format, &self.filter_options);
        self.filter_chain.optimize();
        match &self.accel {
            Some(a) => {
                let mut surfaces = self.filter_chain.surfaces().copy();
                assert(surfaces.wf());
                surfaces.insert(self.initial_state.surface);
                surfaces.insert(self.output_context.preferred_surface);
                if surfaces.any_hardware() {
                    let args = a.init_hw_device(&surfaces);
                    self.global_options.push(GlobalOption::InitHwDevice(args));
                }
            },
            None => {},
        }
    }
}

/// The video encoder a pipeline chooses makes the format that was asked for:
/// an H.264 encoder for H.264 and an HEVC encoder for HEVC, whatever the accel,
/// bit depth and size; for no format, or one no encoder here makes, the video
/// is copied.
pub proof fn law_encoder_makes_requested_format(accel: Option<HardwareAccel>, format: Option<VideoFormat>,
    bit_depth: Option<u8>, video_size: Option<FrameSize>)
    ensures
        format == Some(VideoFormat::H264) || format == Some(VideoFormat::Hevc)
            ==> encoded_format(video_codec_for(accel, format, bit_depth, video_size).name) == format,
        !(format == Some(VideoFormat::H264) || format == Some(VideoFormat::Hevc))
            ==> video_codec_for(accel, format, bit_depth, video_size).name == "copy"@,
{
    reveal(video_codec_for);
    reveal_strlit("libx264");
    reveal_strlit("libx265");
    reveal_strlit("copy");
    reveal_strlit("h264_");
    reveal_strlit("hevc_");
    reveal_strlit("h264_amf");
    reveal_strlit("hevc_amf");
    reveal_strlit("h264_nvenc");
    reveal_strlit("hevc_nvenc");
    reveal_strlit("h264_qsv");
    reveal_strlit("hevc_qsv");
    reveal_strlit("h264_rkmpp");
    reveal_strlit("hevc_rkmpp");
    reveal_strlit("h264_vaapi");
    reveal_strlit("hevc_vaapi");
    reveal_strlit("h264_videotoolbox");
    reveal_strlit("hevc_videotoolbox");
    reveal_strlit("h264_vulkan");
    reveal_strlit("hevc_vulkan");
    assert("libx264"@ != "libx265"@ && "libx264"@ != "copy"@ && "libx265"@ != "copy"@) by {
        assert("libx264"@[6] != "libx265"@[6]);
    }
    assert("copy"@.len() < 5);
    assert("libx265"@.subrange(0, 5) != "h264_"@) by { assert("libx265"@.subrange(0, 5)[0] != "h264_"@[0]); }
    assert("libx264"@.subrange(0, 5) != "hevc_"@) by { assert("libx264"@.subrange(0, 5)[0] != "hevc_"@[0]); }
    assert("libx265"@.subrange(0, 5) != "hevc_"@) by { assert("libx265"@.subrange(0, 5)[0] != "hevc_"@[0]); }
    assert("h264_"@ != "hevc_"@) by { assert("h264_"@[1] != "hevc_"@[1]); }
    let bd = match bit_depth { Some(b) => b, None => 8u8 };
    match (accel, format) {
        (Some(a), Some(f)) => {
            match a.spec_codec_for_format(f, bd, video_size) {
                Some(c) => {
                    let n = c.name;
                    assert(n.len() >= 5);
                    if f == VideoFormat::H264 {
                        assert(n.subrange(0, 5) =~= "h264_"@);
                        assert(n != "libx265"@);
                    } else {
                        assert(n.subrange(0, 5) =~= "hevc_"@);
                        assert(n != "libx264"@);
                    }
                },
                None => {},
            }
        },
        _ => {},
    }
}

} // verus!
