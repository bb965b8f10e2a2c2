use vstd::prelude::*;
use crate::accel;
use crate::ffmpeg_info::{FfmpegInfo, KnownVideoFilter};
use crate::frame_size::FrameSize;
use crate::output_settings::ScalingMode;
use crate::pipeline::{clone_opt_string, opt_string_view, FrameState, FrameStateView, FrameSurface, PixelFormat};
use crate::text::{dec, secs_string, secs_text, u64_to_string};

verus! {

/// The state after a scale to `size` that leaves frames on `surface` with square pixels.
pub open spec fn scaled_state(s: FrameStateView, size: FrameSize, surface: FrameSurface) -> FrameStateView {
    FrameStateView {
        size: size,
        surface: surface,
        is_anamorphic: false,
        sample_aspect_ratio: Some("1:1"@),
        display_aspect_ratio: None,
        ..s
    }
}

/// Scales the state to `size` on `surface` (see `scaled_state`).
pub fn set_scaled(state: &mut FrameState, size: FrameSize, surface: FrameSurface)
    ensures
        final(state)@ == scaled_state(old(state)@, size, surface),
{
    state.size = size;
    state.surface = surface;
    state.is_anamorphic = false;
    state.sample_aspect_ratio = Some("1:1".to_owned());
    state.display_aspect_ratio = None;
}

/// The state after a scale to an optional size that leaves frames on `surface`:
/// unchanged without a size.
pub open spec fn rescaled_state(s: FrameStateView, size: Option<FrameSize>, surface: FrameSurface) -> FrameStateView {
    match size {
        Some(sz) => scaled_state(s, sz, surface),
        None => s,
    }
}

/// Scales the state as `rescaled_state` says.
pub fn apply_rescaled(state: &mut FrameState, size: Option<FrameSize>, surface: FrameSurface)
    ensures
        final(state)@ == rescaled_state(old(state)@, size, surface),
{
    if let Some(sz) = size {
        set_scaled(state, sz, surface);
    }
}

/// The state after padding (or cropping) to an optional size on `surface`:
/// unchanged without a size.
pub open spec fn sized_state(s: FrameStateView, size: Option<FrameSize>, surface: FrameSurface) -> FrameStateView {
    match size {
        Some(sz) => FrameStateView { size: sz, surface: surface, ..s },
        None => s,
    }
}

/// Resizes the state as `sized_state` says.
pub fn apply_sized(state: &mut FrameState, size: Option<FrameSize>, surface: FrameSurface)
    ensures
        final(state)@ == sized_state(old(state)@, size, surface),
{
    if let Some(sz) = size {
        state.size = sz;
        state.surface = surface;
    }
}

/// `WIDTH:HEIGHT` in decimal.
pub open spec fn size_text(size: FrameSize) -> Seq<char> {
    dec(size.width as nat) + ":"@ + dec(size.height as nat)
}

/// `w=WIDTH:h=HEIGHT` in decimal.
pub open spec fn wh_text(size: FrameSize) -> Seq<char> {
    "w="@ + dec(size.width as nat) + ":h="@ + dec(size.height as nat)
}

/// Appends `w=WIDTH:h=HEIGHT`.
pub fn append_wh(s: &mut String, size: FrameSize)
    ensures
        final(s)@ == old(s)@ + wh_text(size),
{
    let w = u64_to_string(size.width as u64);
    let h = u64_to_string(size.height as u64);
    s.append("w=");
    s.append(w.as_str());
    s.append(":h=");
    s.append(h.as_str());
    assert(s@ =~= old(s)@ + wh_text(size)) by {
        assert(old(s)@ + "w="@ + w@ + ":h="@ + h@ =~= old(s)@ + ("w="@ + dec(size.width as nat) + ":h="@ + dec(size.height as nat)));
    }
}

/// An optional string's text, or `dflt` when it is absent.
pub open spec fn text_or(o: Option<String>, dflt: Seq<char>) -> Seq<char> {
    match o {
        Some(s) => s@,
        None => dflt,
    }
}

/// Appends an optional string's text, or `dflt` when it is absent.
pub fn append_or(s: &mut String, o: &Option<String>, dflt: &str)
    ensures
        final(s)@ == old(s)@ + text_or(*o, dflt@),
{
    match o {
        Some(t) => s.append(t.as_str()),
        None => s.append(dflt),
    }
}

/// Appends `WIDTH:HEIGHT`.
pub fn append_size(s: &mut String, size: FrameSize)
    ensures
        final(s)@ == old(s)@ + size_text(size),
{
    let w = u64_to_string(size.width as u64);
    let h = u64_to_string(size.height as u64);
    s.append(w.as_str());
    s.append(":");
    s.append(h.as_str());
    assert(s@ =~= old(s)@ + size_text(size));
}

#[derive(Debug, Clone, Copy, PartialEq, Eq, Structural)]
pub enum ForceOriginalAspectRatio {
    Increase,
    Decrease,
}

impl ForceOriginalAspectRatio {
    pub open spec fn spec_arg(self) -> Seq<char> {
        match self {
            ForceOriginalAspectRatio::Increase => ":force_original_aspect_ratio=increase"@,
            ForceOriginalAspectRatio::Decrease => ":force_original_aspect_ratio=decrease"@,
        }
    }

    /// The option text of a scale filter.
    pub fn as_arg(&self) -> (r: String)
        ensures
            r@ == self.spec_arg(),
    {
        match self {
            ForceOriginalAspectRatio::Increase => ":force_original_aspect_ratio=increase".to_owned(),
            ForceOriginalAspectRatio::Decrease => ":force_original_aspect_ratio=decrease".to_owned(),
        }
    }
}

/// The aspect option text of a scale filter: empty when absent.
pub open spec fn aspect_text(o: Option<ForceOriginalAspectRatio>) -> Seq<char> {
    match o {
        Some(f) => f.spec_arg(),
        None => Seq::empty(),
    }
}

/// Appends the aspect option text.
pub fn append_aspect(s: &mut String, o: &Option<ForceOriginalAspectRatio>)
    ensures
        final(s)@ == old(s)@ + aspect_text(*o),
{
    match o {
        Some(f) => {
            let t = f.as_arg();
            s.append(t.as_str());
        },
        None => {
            assert(old(s)@ + Seq::<char>::empty() =~= old(s)@);
        },
    }
}

#[derive(Debug, Clone, Copy, PartialEq, Eq, Structural)]
pub enum SoftwareDeinterlaceFilter {
    Bwdif,
    Yadif,
    W3fdif,
}

// --- Software filters ---

#[derive(Debug, Clone, Copy, PartialEq, Eq, Structural)]
pub struct HwUploadFilter {
    pub target_surface: FrameSurface,
    pub source_format: PixelFormat,
}

impl HwUploadFilter {
    pub open spec fn spec_apply(self, s: FrameStateView) -> FrameStateView {
        FrameStateView {
            surface: self.target_surface,
            pixel_format: if s.pixel_format == PixelFormat::Yuv420p10le {
                PixelFormat::P010le
            } else if s.pixel_format == PixelFormat::Yuv420p {
                PixelFormat::Nv12
            } else if s.pixel_format == PixelFormat::Bgra && self.target_surface == FrameSurface::Cuda {
                PixelFormat::Yuva420p
            } else {
                s.pixel_format
            },
            ..s
        }
    }

    /// The format frames get before the upload.
    pub open spec fn spec_target_format(self) -> PixelFormat {
        if self.source_format.spec_bit_depth() == 10 {
            PixelFormat::P010le
        } else if self.target_surface == FrameSurface::Cuda && self.source_format.spec_bit_depth() == 8
            && self.source_format.spec_has_alpha() {
            PixelFormat::Yuva420p
        } else if self.target_surface == FrameSurface::Vaapi && self.source_format.spec_bit_depth() == 8
            && self.source_format.spec_has_alpha() {
            PixelFormat::Bgra
        } else {
            PixelFormat::Nv12
        }
    }

    pub open spec fn spec_arg(self) -> Option<Seq<char>> {
        let t = self.spec_target_format();
        let pre = if self.source_format == t { Seq::<char>::empty() } else { "format="@ + t.spec_name() + ","@ };
        match self.target_surface {
            FrameSurface::Cuda => Some(pre + "hwupload_cuda"@),
            FrameSurface::Qsv => Some(pre + "hwupload=extra_hw_frames=64"@),
            FrameSurface::Vaapi | FrameSurface::Vulkan | FrameSurface::VideoToolbox => Some(pre + "hwupload"@),
            _ => None,
        }
    }

    pub fn apply_to(&self, state: &mut FrameState)
        ensures
            final(state)@ == self.spec_apply(old(state)@),
    {
        state.surface = self.target_surface;
        state.pixel_format = match state.pixel_format {
            PixelFormat::Yuv420p10le => PixelFormat::P010le,
            PixelFormat::Yuv420p => PixelFormat::Nv12,
            PixelFormat::Bgra if self.target_surface == FrameSurface::Cuda => PixelFormat::Yuva420p,
            other => other,
        };
    }

    pub fn as_arg(&self) -> (r: Option<String>)
        ensures
            opt_string_view(r) == self.spec_arg(),
    {
        let bd = self.source_format.bit_depth();
        let alpha = self.source_format.has_alpha();
        let target: PixelFormat = if bd == 10 {
            PixelFormat::P010le
        } else if self.target_surface == FrameSurface::Cuda && bd == 8 && alpha {
            PixelFormat::Yuva420p
        } else if self.target_surface == FrameSurface::Vaapi && bd == 8 && alpha {
            PixelFormat::Bgra
        } else {
            PixelFormat::Nv12
        };
        let mut s = String::new();
        if self.source_format != target {
            s.append("format=");
            s.append(target.as_arg());
            s.append(",");
        }
        assert(s@ == (if self.source_format == target { Seq::<char>::empty() } else { "format="@ + target.spec_name() + ","@ }));
        match self.target_surface {
            FrameSurface::Cuda => {
                s.append("hwupload_cuda");
                Some(s)
            },
            FrameSurface::Qsv => {
                s.append("hwupload=extra_hw_frames=64");
                Some(s)
            },
            FrameSurface::Vaapi | FrameSurface::Vulkan | FrameSurface::VideoToolbox => {
                s.append("hwupload");
                Some(s)
            },
            _ => None,
        }
    }
}

#[derive(Debug, Clone, Copy, PartialEq, Eq, Structural)]
pub struct HwDownloadFilter {
    pub target_pixel_format: PixelFormat,
}

impl HwDownloadFilter {
    pub open spec fn spec_apply(self, s: FrameStateView) -> FrameStateView {
        FrameStateView { surface: FrameSurface::System, pixel_format: self.target_pixel_format, ..s }
    }

    pub open spec fn spec_arg(self) -> Option<Seq<char>> {
        Some("hwdownload,format="@ + self.target_pixel_format.spec_name())
    }

    pub fn apply_to(&self, state: &mut FrameState)
        ensures
            final(state)@ == self.spec_apply(old(state)@),
    {
        state.surface = FrameSurface::System;
        state.pixel_format = self.target_pixel_format;
    }

    pub fn as_arg(&self) -> (r: Option<String>)
        ensures
            opt_string_view(r) == self.spec_arg(),
    {
        let mut s = "hwdownload,format=".to_owned();
        s.append(self.target_pixel_format.as_arg());
        Some(s)
    }
}

#[derive(Debug, Clone, Copy, PartialEq, Eq, Structural)]
pub struct ScaleFilter {
    pub size: Option<FrameSize>,
    pub scaling_mode: ScalingMode,
    pub input_is_anamorphic: bool,
    pub force_original_aspect_ratio: Option<ForceOriginalAspectRatio>,
}

impl ScaleFilter {
    /// No filter when there is no target size, when frames already have it with
    /// square pixels, or when cropping frames that already cover it; else a scale
    /// to the size the scaling mode calls for: the largest fitting size with the
    /// frame's aspect ratio (and a forced aspect when it differs from the target),
    /// the target itself, or the smallest covering size.
    pub open spec fn spec_evaluate(self, s: FrameStateView) -> Option<VideoFilter> {
        match self.size {
            None => None,
            Some(target) => if s.size == target && !s.is_anamorphic {
                None
            } else if self.scaling_mode == ScalingMode::Crop && s.size.height >= target.height
                && s.size.width >= target.width {
                None
            } else {
                let size = match self.scaling_mode {
                    ScalingMode::ScaleAndPad => target.spec_contain(s),
                    ScalingMode::Stretch => target,
                    ScalingMode::Crop => target.spec_cover(s),
                };
                let force = if self.scaling_mode == ScalingMode::ScaleAndPad && size != target {
                    Some(ForceOriginalAspectRatio::Decrease)
                } else {
                    None
                };
                Some(VideoFilter::Scale(ScaleFilter {
                    size: Some(size),
                    scaling_mode: self.scaling_mode,
                    input_is_anamorphic: s.is_anamorphic,
                    force_original_aspect_ratio: force,
                }))
            },
        }
    }

    pub open spec fn spec_apply(self, s: FrameStateView) -> FrameStateView {
        match self.size {
            Some(size) => FrameStateView {
                size: size,
                is_anamorphic: false,
                sample_aspect_ratio: Some("1:1"@),
                display_aspect_ratio: None,
                ..s
            },
            None => s,
        }
    }

    pub open spec fn spec_arg(self) -> Option<Seq<char>> {
        match self.size {
            Some(size) => if self.input_is_anamorphic {
                Some("scale=iw*sar:ih,scale="@ + size_text(size)
                    + ":flags=fast_bilinear"@ + aspect_text(self.force_original_aspect_ratio) + ",setsar=1"@)
            } else {
                Some("scale="@ + size_text(size)
                    + ":flags=fast_bilinear"@ + aspect_text(self.force_original_aspect_ratio) + ",setsar=1"@)
            },
            None => None,
        }
    }

    pub fn evaluate(&self, state: &FrameState) -> (r: Option<VideoFilter>)
        ensures
            r == self.spec_evaluate(state@),
    {
        let target = match self.size {
            Some(t) => t,
            None => return None,
        };
        if state.size == target && !state.is_anamorphic {
            return None;
        }
        if self.scaling_mode == ScalingMode::Crop && state.size.height >= target.height
            && state.size.width >= target.width {
            return None;
        }
        let size = match self.scaling_mode {
            ScalingMode::ScaleAndPad => target.square_pixel_size_contain(state),
            ScalingMode::Stretch => target,
            ScalingMode::Crop => target.square_pixel_size_cover(state),
        };
        let force = if self.scaling_mode == ScalingMode::ScaleAndPad && size != target {
            Some(ForceOriginalAspectRatio::Decrease)
        } else {
            None
        };
        Some(VideoFilter::Scale(ScaleFilter {
            size: Some(size),
            scaling_mode: self.scaling_mode,
            input_is_anamorphic: state.is_anamorphic,
            force_original_aspect_ratio: force,
        }))
    }

    pub fn apply_to(&self, state: &mut FrameState)
        ensures
            final(state)@ == self.spec_apply(old(state)@),
    {
        if let Some(size) = self.size {
            state.size = size;
            state.is_anamorphic = false;
            state.sample_aspect_ratio = Some("1:1".to_owned());
            state.display_aspect_ratio = None;
        }
    }

    pub fn as_arg(&self) -> (r: Option<String>)
        ensures
            opt_string_view(r) == self.spec_arg(),
    {
        match self.size {
            Some(size) => {
                let mut s = if self.input_is_anamorphic {
                    "scale=iw*sar:ih,scale=".to_owned()
                } else {
                    "scale=".to_owned()
                };
                append_size(&mut s, size);
                s.append(":flags=fast_bilinear");
                append_aspect(&mut s, &self.force_original_aspect_ratio);
                s.append(",setsar=1");
                Some(s)
            },
            None => None,
        }
    }
}

#[derive(Debug, Clone, Copy, PartialEq, Eq, Structural)]
pub struct PadFilter {
    pub size: Option<FrameSize>,
    pub scaling_mode: ScalingMode,
}

impl PadFilter {
    pub open spec fn spec_evaluate(self, s: FrameStateView) -> Option<VideoFilter> {
        if self.scaling_mode != ScalingMode::ScaleAndPad {
            None
        } else {
            match self.size {
                Some(target) => if s.size != target { Some(VideoFilter::Pad(self)) } else { None },
                None => None,
            }
        }
    }

    pub open spec fn spec_apply(self, s: FrameStateView) -> FrameStateView {
        match self.size {
            Some(size) => FrameStateView { size: size, surface: FrameSurface::System, ..s },
            None => s,
        }
    }

    pub open spec fn spec_arg(self) -> Option<Seq<char>> {
        match self.size {
            Some(size) => Some("pad="@ + size_text(size) + ":-1:-1:color=black"@),
            None => None,
        }
    }

    pub fn evaluate(&self, state: &FrameState) -> (r: Option<VideoFilter>)
        ensures
            r == self.spec_evaluate(state@),
    {
        if self.scaling_mode != ScalingMode::ScaleAndPad {
            return None;
        }
        match self.size {
            Some(target) => if state.size != target { Some(VideoFilter::Pad(*self)) } else { None },
            None => None,
        }
    }

    pub fn apply_to(&self, state: &mut FrameState)
        ensures
            final(state)@ == self.spec_apply(old(state)@),
    {
        if let Some(size) = self.size {
            state.size = size;
            state.surface = FrameSurface::System;
        }
    }

    pub fn as_arg(&self) -> (r: Option<String>)
        ensures
            opt_string_view(r) == self.spec_arg(),
    {
        match self.size {
            Some(size) => {
                let mut s = "pad=".to_owned();
                append_size(&mut s, size);
                s.append(":-1:-1:color=black");
                Some(s)
            },
            None => None,
        }
    }
}

pub struct LoopFilter {
    pub codec: String,
}

impl LoopFilter {
    pub open spec fn spec_evaluate(self) -> Option<VideoFilter> {
        if self.codec@ == "png"@ { Some(VideoFilter::Loop(self)) } else { None }
    }

    pub fn duplicate(&self) -> (r: LoopFilter)
        ensures
            r == *self,
    {
        LoopFilter { codec: self.codec.clone() }
    }

    pub fn evaluate(&self) -> (r: Option<VideoFilter>)
        ensures
            r == self.spec_evaluate(),
    {
        if crate::text::str_eq(self.codec.as_str(), "png") {
            Some(VideoFilter::Loop(self.duplicate()))
        } else {
            None
        }
    }

    pub fn as_arg(&self) -> (r: Option<String>)
        ensures
            opt_string_view(r) == Some("loop=-1:1"@),
    {
        Some("loop=-1:1".to_owned())
    }
}

#[derive(Debug, Clone, Copy, PartialEq, Eq, Structural)]
pub struct FormatFilter {
    pub format: PixelFormat,
}

impl FormatFilter {
    pub open spec fn spec_evaluate(self, s: FrameStateView) -> Option<VideoFilter> {
        if s.pixel_format == self.format { None } else { Some(VideoFilter::Format(self)) }
    }

    pub open spec fn spec_apply(self, s: FrameStateView) -> FrameStateView {
        FrameStateView { pixel_format: self.format, ..s }
    }

    pub open spec fn spec_arg(self) -> Option<Seq<char>> {
        Some("format="@ + self.format.spec_name())
    }

    pub fn evaluate(&self, state: &FrameState) -> (r: Option<VideoFilter>)
        ensures
            r == self.spec_evaluate(state@),
    {
        if state.pixel_format == self.format { None } else { Some(VideoFilter::Format(*self)) }
    }

    pub fn apply_to(&self, state: &mut FrameState)
        ensures
            final(state)@ == self.spec_apply(old(state)@),
    {
        state.pixel_format = self.format;
    }

    pub fn as_arg(&self) -> (r: Option<String>)
        ensures
            opt_string_view(r) == self.spec_arg(),
    {
        let mut s = "format=".to_owned();
        s.append(self.format.as_arg());
        Some(s)
    }
}

pub struct ToneMapFilter {
    pub algorithm: Option<String>,
    pub output_format: PixelFormat,
}

impl ToneMapFilter {
    pub open spec fn spec_evaluate(self, s: FrameStateView) -> Option<VideoFilter> {
        if s.is_hdr { Some(VideoFilter::ToneMap(self)) } else { None }
    }

    pub open spec fn spec_apply(self, s: FrameStateView) -> FrameStateView {
        FrameStateView { pixel_format: self.output_format, is_hdr: false, ..s }
    }

    pub open spec fn spec_arg(self) -> Option<Seq<char>> {
        Some("zscale=transfer=linear,tonemap="@ + text_or(self.algorithm, "linear"@)
            + ",zscale=transfer=bt709,format="@ + self.output_format.spec_name())
    }

    pub fn duplicate(&self) -> (r: ToneMapFilter)
        ensures
            r == *self,
    {
        ToneMapFilter { algorithm: clone_opt_string(&self.algorithm), output_format: self.output_format }
    }

    pub fn evaluate(&self, state: &FrameState) -> (r: Option<VideoFilter>)
        ensures
            r == self.spec_evaluate(state@),
    {
        if state.is_hdr { Some(VideoFilter::ToneMap(self.duplicate())) } else { None }
    }

    pub fn apply_to(&self, state: &mut FrameState)
        ensures
            final(state)@ == self.spec_apply(old(state)@),
    {
        state.pixel_format = self.output_format;
        state.is_hdr = false;
    }

    pub fn as_arg(&self) -> (r: Option<String>)
        ensures
            opt_string_view(r) == self.spec_arg(),
    {
        let mut s = "zscale=transfer=linear,tonemap=".to_owned();
        append_or(&mut s, &self.algorithm, "linear");
        s.append(",zscale=transfer=bt709,format=");
        s.append(self.output_format.as_arg());
        Some(s)
    }
}

#[derive(Debug, Clone, Copy, PartialEq, Eq, Structural)]
pub struct DeinterlaceFilter {
    pub filter: SoftwareDeinterlaceFilter,
    pub input_is_interlaced: bool,
}

/// The software deinterlacers, in the order they are tried.
pub open spec fn software_deinterlacers() -> Seq<KnownVideoFilter> {
    seq![KnownVideoFilter::Yadif, KnownVideoFilter::Bwdif, KnownVideoFilter::W3fdif]
}

impl DeinterlaceFilter {
    /// For interlaced input, the best fit of yadif, bwdif and w3fdif that ffmpeg
    /// offers; no filter otherwise.
    pub open spec fn spec_evaluate(self, info: FfmpegInfo) -> Option<VideoFilter> {
        if self.input_is_interlaced {
            match info.spec_best_fit(software_deinterlacers()) {
                Some(KnownVideoFilter::Yadif) => Some(VideoFilter::Deinterlace(DeinterlaceFilter {
                    filter: SoftwareDeinterlaceFilter::Yadif, input_is_interlaced: true })),
                Some(KnownVideoFilter::Bwdif) => Some(VideoFilter::Deinterlace(DeinterlaceFilter {
                    filter: SoftwareDeinterlaceFilter::Bwdif, input_is_interlaced: true })),
                Some(KnownVideoFilter::W3fdif) => Some(VideoFilter::Deinterlace(DeinterlaceFilter {
                    filter: SoftwareDeinterlaceFilter::W3fdif, input_is_interlaced: true })),
                _ => None,
            }
        } else {
            None
        }
    }

    pub open spec fn spec_apply(self, s: FrameStateView) -> FrameStateView {
        FrameStateView {
            is_interlaced: false,
            pixel_format: if s.pixel_format.spec_bit_depth() == 10 {
                PixelFormat::Yuv420p10le
            } else {
                PixelFormat::Yuv420p
            },
            ..s
        }
    }

    pub open spec fn spec_arg(self) -> Option<Seq<char>> {
        match self.filter {
            SoftwareDeinterlaceFilter::Yadif => Some("yadif=1"@),
            SoftwareDeinterlaceFilter::Bwdif => Some("bwdif=1"@),
            SoftwareDeinterlaceFilter::W3fdif => Some("w3fdif=1"@),
        }
    }

    pub fn evaluate(&self, info: &FfmpegInfo) -> (r: Option<VideoFilter>)
        ensures
            r == self.spec_evaluate(*info),
    {
        if self.input_is_interlaced {
            let opts = [KnownVideoFilter::Yadif, KnownVideoFilter::Bwdif, KnownVideoFilter::W3fdif];
            assert(opts@ == software_deinterlacers());
            match info.find_best_fit(&opts) {
                Some(KnownVideoFilter::Yadif) => Some(VideoFilter::Deinterlace(DeinterlaceFilter {
                    filter: SoftwareDeinterlaceFilter::Yadif, input_is_interlaced: true })),
                Some(KnownVideoFilter::Bwdif) => Some(VideoFilter::Deinterlace(DeinterlaceFilter {
                    filter: SoftwareDeinterlaceFilter::Bwdif, input_is_interlaced: true })),
                Some(KnownVideoFilter::W3fdif) => Some(VideoFilter::Deinterlace(DeinterlaceFilter {
                    filter: SoftwareDeinterlaceFilter::W3fdif, input_is_interlaced: true })),
                _ => None,
            }
        } else {
            None
        }
    }

    pub fn apply_to(&self, state: &mut FrameState)
        ensures
            final(state)@ == self.spec_apply(old(state)@),
    {
        state.is_interlaced = false;
        state.pixel_format = if state.pixel_format.bit_depth() == 10 {
            PixelFormat::Yuv420p10le
        } else {
            PixelFormat::Yuv420p
        };
    }

    pub fn as_arg(&self) -> (r: Option<String>)
        ensures
            opt_string_view(r) == self.spec_arg(),
    {
        match self.filter {
            SoftwareDeinterlaceFilter::Yadif => Some("yadif=1".to_owned()),
            SoftwareDeinterlaceFilter::Bwdif => Some("bwdif=1".to_owned()),
            SoftwareDeinterlaceFilter::W3fdif => Some("w3fdif=1".to_owned()),
        }
    }
}

#[derive(Debug, Clone, Copy, PartialEq, Eq, Structural)]
pub struct HwMapFilter {
    pub from_surface: FrameSurface,
    pub to_surface: FrameSurface,
    pub reverse: bool,
}

impl HwMapFilter {
    pub open spec fn spec_apply(self, s: FrameStateView) -> FrameStateView {
        FrameStateView { surface: self.to_surface, ..s }
    }

    /// `hwmap=derive_device=NAME`, with `:reverse=1` for a reverse mapping; none
    /// when the target surface has no device name.
    pub open spec fn spec_arg(self) -> Option<Seq<char>> {
        match self.to_surface.spec_device_name() {
            Some(name) => Some("hwmap=derive_device="@ + name + if self.reverse { ":reverse=1"@ } else { ""@ }),
            None => None,
        }
    }

    pub fn apply_to(&self, state: &mut FrameState)
        ensures
            final(state)@ == self.spec_apply(old(state)@),
    {
        state.surface = self.to_surface;
    }

    pub fn as_arg(&self) -> (r: Option<String>)
        ensures
            opt_string_view(r) == self.spec_arg(),
    {
        match self.to_surface.device_name() {
            Some(name) => {
                let mut s = "hwmap=derive_device=".to_owned();
                s.append(name);
                if self.reverse {
                    s.append(":reverse=1");
                } else {
                    s.append("");
                }
                Some(s)
            },
            None => None,
        }
    }
}

/// Whether a character is escaped with a backslash in a filter option value.
pub open spec fn needs_escape(c: char) -> bool {
    c == '\\' || c == '\'' || c == ':' || c == ',' || c == ';' || c == '[' || c == ']' || c == '='
}

/// A path escaped for use as a filter option value: a backslash before each of
/// `\ ' : , ; [ ] =`.
pub open spec fn escape_path_spec(p: Seq<char>) -> Seq<char>
    decreases p.len(),
{
    if p.len() == 0 {
        Seq::empty()
    } else {
        escape_path_spec(p.drop_last()) + if needs_escape(p.last()) { seq!['\\', p.last()] } else { seq![p.last()] }
    }
}

/// Escapes a path for use as a filter option value (see `escape_path_spec`).
pub fn escape_path(p: &str) -> (r: String)
    ensures
        r@ == escape_path_spec(p@),
{
    let n = crate::text::char_len(p);
    let mut r = String::new();
    let mut i: usize = 0;
    while i < n
        invariant
            n == p@.len(),
            i <= n,
            r@ == escape_path_spec(p@.take(i as int)),
        decreases n - i,
    {
        let c = crate::text::char_at(p, i);
        let piece = crate::text::substring(p, i, i + 1);
        assert(piece@ =~= seq![c]);
        assert(p@.take(i as int + 1).drop_last() =~= p@.take(i as int));
        if c == '\\' || c == '\'' || c == ':' || c == ',' || c == ';' || c == '[' || c == ']' || c == '=' {
            proof { reveal_strlit("\\"); }
            r.append("\\");
            r.append(piece);
            assert(seq!['\\'] + seq![c] =~= seq!['\\', c]);
            assert(r@ =~= escape_path_spec(p@.take(i as int)) + seq!['\\', c]);
        } else {
            r.append(piece);
        }
        i = i + 1;
    }
    assert(p@.take(n as int) =~= p@);
    r
}

pub struct SubtitlesFilter {
    pub path: String,
    pub seek_ms: u64,
}

impl SubtitlesFilter {
    pub open spec fn spec_evaluate(self) -> Option<VideoFilter> {
        if self.path@.len() > 0 { Some(VideoFilter::Subtitles(self)) } else { None }
    }

    pub open spec fn spec_arg(self) -> Option<Seq<char>> {
        if self.seek_ms > 0 {
            Some("setpts=PTS+"@ + secs_text(self.seek_ms as nat) + "/TB,subtitles="@ + escape_path_spec(self.path@)
                + ",setpts=PTS-STARTPTS"@)
        } else {
            Some("subtitles="@ + escape_path_spec(self.path@))
        }
    }

    pub fn duplicate(&self) -> (r: SubtitlesFilter)
        ensures
            r == *self,
    {
        SubtitlesFilter { path: self.path.clone(), seek_ms: self.seek_ms }
    }

    pub fn evaluate(&self) -> (r: Option<VideoFilter>)
        ensures
            r == self.spec_evaluate(),
    {
        if crate::text::char_len(self.path.as_str()) > 0 {
            Some(VideoFilter::Subtitles(self.duplicate()))
        } else {
            None
        }
    }

    pub fn as_arg(&self) -> (r: Option<String>)
        ensures
            opt_string_view(r) == self.spec_arg(),
    {
        let escaped = escape_path(self.path.as_str());
        if self.seek_ms > 0 {
            let mut s = "setpts=PTS+".to_owned();
            let t = secs_string(self.seek_ms);
            s.append(t.as_str());
            s.append("/TB,subtitles=");
            s.append(escaped.as_str());
            s.append(",setpts=PTS-STARTPTS");
            Some(s)
        } else {
            let mut s = "subtitles=".to_owned();
            s.append(escaped.as_str());
            Some(s)
        }
    }
}

/// A change of the alpha channel, given in hundredths (100 = opaque).
#[derive(Debug, Clone, Copy, PartialEq, Eq, Structural)]
pub struct ColorChannelMixerFilter {
    pub alpha_centi: u32,
}

impl ColorChannelMixerFilter {
    pub open spec fn spec_evaluate(self) -> Option<VideoFilter> {
        if self.alpha_centi == 100 { None } else { Some(VideoFilter::ColorChannelMixer(self)) }
    }

    pub open spec fn spec_arg(self) -> Option<Seq<char>> {
        Some("colorchannelmixer=aa="@ + crate::text::centi_text(self.alpha_centi as int))
    }

    pub fn evaluate(&self) -> (r: Option<VideoFilter>)
        ensures
            r == self.spec_evaluate(),
    {
        if self.alpha_centi == 100 { None } else { Some(VideoFilter::ColorChannelMixer(*self)) }
    }

    pub fn as_arg(&self) -> (r: Option<String>)
        ensures
            opt_string_view(r) == self.spec_arg(),
    {
        let mut s = "colorchannelmixer=aa=".to_owned();
        let t = crate::text::centi_string(self.alpha_centi as i64);
        s.append(t.as_str());
        Some(s)
    }
}

#[derive(Debug, Clone, Copy, PartialEq, Eq, Structural)]
pub enum FadeMode {
    In,
    Out,
}

/// One fade of a periodic watermark, all times in milliseconds of output time.
#[derive(Debug, Clone, Copy, PartialEq, Eq, Structural)]
pub struct FadePoint {
    pub mode: FadeMode,
    pub time_ms: u64,
    pub enable_start_ms: u64,
    pub enable_finish_ms: u64,
}

#[derive(Debug, Clone, Copy, PartialEq, Eq, Structural)]
pub struct FadeFilter {
    pub point: FadePoint,
    pub duration_ms: u64,
}

impl FadeFilter {
    pub open spec fn spec_arg(self) -> Option<Seq<char>> {
        Some("fade="@ + (if self.point.mode == FadeMode::In { "in"@ } else { "out"@ }) + ":st="@
            + secs_text(self.point.time_ms as nat) + ":d="@ + secs_text(self.duration_ms as nat)
            + ":alpha=1:enable='between(t,"@ + secs_text(self.point.enable_start_ms as nat) + ","@
            + secs_text(self.point.enable_finish_ms as nat) + ")'"@)
    }

    pub fn as_arg(&self) -> (r: Option<String>)
        ensures
            opt_string_view(r) == self.spec_arg(),
    {
        let mut s = "fade=".to_owned();
        match self.point.mode {
            FadeMode::In => s.append("in"),
            FadeMode::Out => s.append("out"),
        }
        s.append(":st=");
        let t = secs_string(self.point.time_ms);
        s.append(t.as_str());
        s.append(":d=");
        let d = secs_string(self.duration_ms);
        s.append(d.as_str());
        s.append(":alpha=1:enable='between(t,");
        let a = secs_string(self.point.enable_start_ms);
        s.append(a.as_str());
        s.append(",");
        let b = secs_string(self.point.enable_finish_ms);
        s.append(b.as_str());
        s.append(")'");
        Some(s)
    }
}

#[derive(Debug, Clone, Copy, PartialEq, Eq, Structural)]
pub struct CropFilter {
    pub size: Option<FrameSize>,
    pub scaling_mode: ScalingMode,
}

impl CropFilter {
    pub open spec fn spec_evaluate(self, s: FrameStateView) -> Option<VideoFilter> {
        if self.scaling_mode != ScalingMode::Crop {
            None
        } else {
            match self.size {
                Some(target) => if s.size != target { Some(VideoFilter::Crop(self)) } else { None },
                None => None,
            }
        }
    }

    pub open spec fn spec_apply(self, s: FrameStateView) -> FrameStateView {
        match self.size {
            Some(size) => FrameStateView { size: size, surface: FrameSurface::System, ..s },
            None => s,
        }
    }

    pub open spec fn spec_arg(self) -> Option<Seq<char>> {
        match self.size {
            Some(size) => Some("crop="@ + size_text(size)),
            None => None,
        }
    }

    pub fn evaluate(&self, state: &FrameState) -> (r: Option<VideoFilter>)
        ensures
            r == self.spec_evaluate(state@),
    {
        if self.scaling_mode != ScalingMode::Crop {
            return None;
        }
        match self.size {
            Some(target) => if state.size != target { Some(VideoFilter::Crop(*self)) } else { None },
            None => None,
        }
    }

    pub fn apply_to(&self, state: &mut FrameState)
        ensures
            final(state)@ == self.spec_apply(old(state)@),
    {
        if let Some(size) = self.size {
            state.size = size;
            state.surface = FrameSurface::System;
        }
    }

    pub fn as_arg(&self) -> (r: Option<String>)
        ensures
            opt_string_view(r) == self.spec_arg(),
    {
        match self.size {
            Some(size) => {
                let mut s = "crop=".to_owned();
                append_size(&mut s, size);
                Some(s)
            },
            None => None,
        }
    }
}

/// A video filter of the pipeline, software or of one of the accelerations.
pub enum VideoFilter {
    HwUpload(HwUploadFilter),
    HwDownload(HwDownloadFilter),
    Scale(ScaleFilter),
    Pad(PadFilter),
    Loop(LoopFilter),
    Format(FormatFilter),
    ToneMap(ToneMapFilter),
    Deinterlace(DeinterlaceFilter),
    HwMap(HwMapFilter),
    Subtitles(SubtitlesFilter),
    ColorChannelMixer(ColorChannelMixerFilter),
    Fade(FadeFilter),
    Crop(CropFilter),
    ScaleCuda(accel::cuda::ScaleCuda),
    PadCuda(accel::cuda::PadCuda),
    FormatCuda(accel::cuda::FormatCuda),
    HwUploadCudaWorkaround(accel::cuda::HwUploadCudaWorkaround),
    LibplaceboCuda(accel::cuda::LibplaceboCuda),
    DeinterlaceCuda(accel::cuda::DeinterlaceCuda),
    DeinterlaceVaapi(accel::vaapi::DeinterlaceVaapi),
    ScaleVaapi(accel::vaapi::ScaleVaapi),
    PadVaapi(accel::vaapi::PadVaapi),
    FormatVaapi(accel::vaapi::FormatVaapi),
    TonemapVaapi(accel::vaapi::TonemapVaapi),
    PadOpencl(accel::opencl::PadOpencl),
    TonemapOpencl(accel::opencl::TonemapOpencl),
    ScaleQsv(accel::qsv::ScaleQsv),
    FormatQsv(accel::qsv::FormatQsv),
    DeinterlaceQsv(accel::qsv::DeinterlaceQsv),
    ScaleVulkan(accel::vulkan::ScaleVulkan),
    FormatVulkan(accel::vulkan::FormatVulkan),
    LibplaceboVulkan(accel::vulkan::LibplaceboVulkan),
    ScaleVt(accel::video_toolbox::ScaleVt),
    ScaleRkrga(accel::rkmpp::ScaleRkrga),
    FormatRkrga(accel::rkmpp::FormatRkrga),
}

/// What a filter does to the frames and how it is written in a filter graph.
pub trait VideoFilterOp: Sized {
    /// The filter that stays in the chain for frames in state `s`, if any.
    spec fn spec_evaluate(self, s: FrameStateView, info: FfmpegInfo) -> Option<VideoFilter>;

    /// The state of the frames after the filter.
    spec fn spec_apply(self, s: FrameStateView) -> FrameStateView;

    /// The surface the filter's input must be on, if any.
    spec fn spec_required(self) -> Option<FrameSurface>;

    /// The filter's text in a filter graph, if any.
    spec fn spec_arg(self) -> Option<Seq<char>>;

    /// Determines whether the filter is needed for frames in `state`; if so, the
    /// filter to use.
    fn evaluate(&self, state: &FrameState, info: &FfmpegInfo) -> (r: Option<VideoFilter>)
        ensures
            r == self.spec_evaluate(state@, *info);

    /// Changes the state as the filter changes the frames.
    fn apply_to(&self, state: &mut FrameState)
        ensures
            final(state)@ == self.spec_apply(old(state)@);

    /// The surface the filter's input must be on, if any.
    fn required_surface(&self) -> (r: Option<FrameSurface>)
        ensures
            r == self.spec_required();

    /// The filter's text in a filter graph, if any.
    fn as_arg(&self) -> (r: Option<String>)
        ensures
            opt_string_view(r) == self.spec_arg();
}

impl VideoFilterOp for VideoFilter {
    /// The filter that stays in the chain for frames in state `s`, if any.
    open spec fn spec_evaluate(self, s: FrameStateView, info: FfmpegInfo) -> Option<VideoFilter> {
        match self {
            VideoFilter::HwUpload(f) => None,
            VideoFilter::HwDownload(f) => None,
            VideoFilter::Scale(f) => f.spec_evaluate(s),
            VideoFilter::Pad(f) => f.spec_evaluate(s),
            VideoFilter::Loop(f) => f.spec_evaluate(),
            VideoFilter::Format(f) => f.spec_evaluate(s),
            VideoFilter::ToneMap(f) => f.spec_evaluate(s),
            VideoFilter::Deinterlace(f) => f.spec_evaluate(info),
            VideoFilter::HwMap(f) => None,
            VideoFilter::Subtitles(f) => f.spec_evaluate(),
            VideoFilter::ColorChannelMixer(f) => f.spec_evaluate(),
            VideoFilter::Fade(f) => Some(self),
            VideoFilter::Crop(f) => f.spec_evaluate(s),
            VideoFilter::ScaleCuda(f) => None,
            VideoFilter::PadCuda(f) => None,
            VideoFilter::FormatCuda(f) => None,
            VideoFilter::HwUploadCudaWorkaround(f) => Some(self),
            VideoFilter::LibplaceboCuda(f) => None,
            VideoFilter::DeinterlaceCuda(f) => None,
            VideoFilter::DeinterlaceVaapi(f) => None,
            VideoFilter::ScaleVaapi(f) => None,
            VideoFilter::PadVaapi(f) => None,
            VideoFilter::FormatVaapi(f) => None,
            VideoFilter::TonemapVaapi(f) => None,
            VideoFilter::PadOpencl(f) => None,
            VideoFilter::TonemapOpencl(f) => None,
            VideoFilter::ScaleQsv(f) => None,
            VideoFilter::FormatQsv(f) => None,
            VideoFilter::DeinterlaceQsv(f) => None,
            VideoFilter::ScaleVulkan(f) => None,
            VideoFilter::FormatVulkan(f) => None,
            VideoFilter::LibplaceboVulkan(f) => None,
            VideoFilter::ScaleVt(f) => None,
            VideoFilter::ScaleRkrga(f) => None,
            VideoFilter::FormatRkrga(f) => None,
        }
    }

    /// The state of the frames after the filter.
    open spec fn spec_apply(self, s: FrameStateView) -> FrameStateView {
        match self {
            VideoFilter::HwUpload(f) => f.spec_apply(s),
            VideoFilter::HwDownload(f) => f.spec_apply(s),
            VideoFilter::Scale(f) => f.spec_apply(s),
            VideoFilter::Pad(f) => f.spec_apply(s),
            VideoFilter::Loop(f) => s,
            VideoFilter::Format(f) => f.spec_apply(s),
            VideoFilter::ToneMap(f) => f.spec_apply(s),
            VideoFilter::Deinterlace(f) => f.spec_apply(s),
            VideoFilter::HwMap(f) => f.spec_apply(s),
            VideoFilter::Subtitles(f) => s,
            VideoFilter::ColorChannelMixer(f) => s,
            VideoFilter::Fade(f) => s,
            VideoFilter::Crop(f) => f.spec_apply(s),
            VideoFilter::ScaleCuda(f) => f.spec_apply(s),
            VideoFilter::PadCuda(f) => f.spec_apply(s),
            VideoFilter::FormatCuda(f) => f.spec_apply(s),
            VideoFilter::HwUploadCudaWorkaround(f) => f.spec_apply(s),
            VideoFilter::LibplaceboCuda(f) => f.spec_apply(s),
            VideoFilter::DeinterlaceCuda(f) => f.spec_apply(s),
            VideoFilter::DeinterlaceVaapi(f) => f.spec_apply(s),
            VideoFilter::ScaleVaapi(f) => f.spec_apply(s),
            VideoFilter::PadVaapi(f) => f.spec_apply(s),
            VideoFilter::FormatVaapi(f) => f.spec_apply(s),
            VideoFilter::TonemapVaapi(f) => f.spec_apply(s),
            VideoFilter::PadOpencl(f) => f.spec_apply(s),
            VideoFilter::TonemapOpencl(f) => f.spec_apply(s),
            VideoFilter::ScaleQsv(f) => f.spec_apply(s),
            VideoFilter::FormatQsv(f) => f.spec_apply(s),
            VideoFilter::DeinterlaceQsv(f) => f.spec_apply(s),
            VideoFilter::ScaleVulkan(f) => f.spec_apply(s),
            VideoFilter::FormatVulkan(f) => f.spec_apply(s),
            VideoFilter::LibplaceboVulkan(f) => f.spec_apply(s),
            VideoFilter::ScaleVt(f) => f.spec_apply(s),
            VideoFilter::ScaleRkrga(f) => f.spec_apply(s),
            VideoFilter::FormatRkrga(f) => f.spec_apply(s),
        }
    }

    /// The surface the filter's input must be on, if any.
    open spec fn spec_required(self) -> Option<FrameSurface> {
        match self {
            VideoFilter::HwUpload(_) => None,
            VideoFilter::HwDownload(_) => None,
            VideoFilter::Scale(_) => Some(FrameSurface::System),
            VideoFilter::Pad(_) => Some(FrameSurface::System),
            VideoFilter::Loop(_) => Some(FrameSurface::System),
            VideoFilter::Format(_) => Some(FrameSurface::System),
            VideoFilter::ToneMap(_) => Some(FrameSurface::System),
            VideoFilter::Deinterlace(_) => Some(FrameSurface::System),
            VideoFilter::HwMap(_) => None,
            VideoFilter::Subtitles(_) => Some(FrameSurface::System),
            VideoFilter::ColorChannelMixer(_) => Some(FrameSurface::System),
            VideoFilter::Fade(_) => Some(FrameSurface::System),
            VideoFilter::Crop(_) => Some(FrameSurface::System),
            VideoFilter::ScaleCuda(_) => Some(FrameSurface::Cuda),
            VideoFilter::PadCuda(_) => Some(FrameSurface::Cuda),
            VideoFilter::FormatCuda(_) => Some(FrameSurface::Cuda),
            VideoFilter::HwUploadCudaWorkaround(_) => Some(FrameSurface::Cuda),
            VideoFilter::LibplaceboCuda(_) => Some(FrameSurface::Vulkan),
            VideoFilter::DeinterlaceCuda(_) => Some(FrameSurface::Cuda),
            VideoFilter::DeinterlaceVaapi(_) => Some(FrameSurface::Vaapi),
            VideoFilter::ScaleVaapi(_) => Some(FrameSurface::Vaapi),
            VideoFilter::PadVaapi(_) => Some(FrameSurface::Vaapi),
            VideoFilter::FormatVaapi(_) => Some(FrameSurface::Vaapi),
            VideoFilter::TonemapVaapi(_) => Some(FrameSurface::Vaapi),
            VideoFilter::PadOpencl(_) => Some(FrameSurface::OpenCL),
            VideoFilter::TonemapOpencl(_) => Some(FrameSurface::OpenCL),
            VideoFilter::ScaleQsv(_) => Some(FrameSurface::Qsv),
            VideoFilter::FormatQsv(_) => Some(FrameSurface::Qsv),
            VideoFilter::DeinterlaceQsv(_) => Some(FrameSurface::Qsv),
            VideoFilter::ScaleVulkan(_) => Some(FrameSurface::Vulkan),
            VideoFilter::FormatVulkan(_) => Some(FrameSurface::Vulkan),
            VideoFilter::LibplaceboVulkan(_) => Some(FrameSurface::Vulkan),
            VideoFilter::ScaleVt(_) => Some(FrameSurface::VideoToolbox),
            VideoFilter::ScaleRkrga(_) => Some(FrameSurface::Rkmpp),
            VideoFilter::FormatRkrga(_) => Some(FrameSurface::Rkmpp),
        }
    }

    /// The filter's text in a filter graph, if any.
    open spec fn spec_arg(self) -> Option<Seq<char>> {
        match self {
            VideoFilter::HwUpload(f) => f.spec_arg(),
            VideoFilter::HwDownload(f) => f.spec_arg(),
            VideoFilter::Scale(f) => f.spec_arg(),
            VideoFilter::Pad(f) => f.spec_arg(),
            VideoFilter::Loop(f) => Some("loop=-1:1"@),
            VideoFilter::Format(f) => f.spec_arg(),
            VideoFilter::ToneMap(f) => f.spec_arg(),
            VideoFilter::Deinterlace(f) => f.spec_arg(),
            VideoFilter::HwMap(f) => f.spec_arg(),
            VideoFilter::Subtitles(f) => f.spec_arg(),
            VideoFilter::ColorChannelMixer(f) => f.spec_arg(),
            VideoFilter::Fade(f) => f.spec_arg(),
            VideoFilter::Crop(f) => f.spec_arg(),
            VideoFilter::ScaleCuda(f) => f.spec_arg(),
            VideoFilter::PadCuda(f) => f.spec_arg(),
            VideoFilter::FormatCuda(f) => f.spec_arg(),
            VideoFilter::HwUploadCudaWorkaround(f) => Some("hwupload"@),
            VideoFilter::LibplaceboCuda(f) => f.spec_arg(),
            VideoFilter::DeinterlaceCuda(f) => f.spec_arg(),
            VideoFilter::DeinterlaceVaapi(f) => f.spec_arg(),
            VideoFilter::ScaleVaapi(f) => f.spec_arg(),
            VideoFilter::PadVaapi(f) => f.spec_arg(),
            VideoFilter::FormatVaapi(f) => f.spec_arg(),
            VideoFilter::TonemapVaapi(f) => f.spec_arg(),
            VideoFilter::PadOpencl(f) => f.spec_arg(),
            VideoFilter::TonemapOpencl(f) => f.spec_arg(),
            VideoFilter::ScaleQsv(f) => f.spec_arg(),
            VideoFilter::FormatQsv(f) => f.spec_arg(),
            VideoFilter::DeinterlaceQsv(f) => Some("deinterlace_qsv"@),
            VideoFilter::ScaleVulkan(f) => f.spec_arg(),
            VideoFilter::FormatVulkan(f) => f.spec_arg(),
            VideoFilter::LibplaceboVulkan(f) => f.spec_arg(),
            VideoFilter::ScaleVt(f) => f.spec_arg(),
            VideoFilter::ScaleRkrga(f) => f.spec_arg(),
            VideoFilter::FormatRkrga(f) => f.spec_arg(),
        }
    }

    /// Determines whether the filter is needed for frames in `state`; if so, the
    /// filter to use.
    fn evaluate(&self, state: &FrameState, info: &FfmpegInfo) -> (r: Option<VideoFilter>) {
        match self {
            VideoFilter::HwUpload(f) => None,
            VideoFilter::HwDownload(f) => None,
            VideoFilter::Scale(f) => f.evaluate(state),
            VideoFilter::Pad(f) => f.evaluate(state),
            VideoFilter::Loop(f) => f.evaluate(),
            VideoFilter::Format(f) => f.evaluate(state),
            VideoFilter::ToneMap(f) => f.evaluate(state),
            VideoFilter::Deinterlace(f) => f.evaluate(info),
            VideoFilter::HwMap(f) => None,
            VideoFilter::Subtitles(f) => f.evaluate(),
            VideoFilter::ColorChannelMixer(f) => f.evaluate(),
            VideoFilter::Fade(f) => Some(VideoFilter::Fade(*f)),
            VideoFilter::Crop(f) => f.evaluate(state),
            VideoFilter::ScaleCuda(f) => None,
            VideoFilter::PadCuda(f) => None,
            VideoFilter::FormatCuda(f) => None,
            VideoFilter::HwUploadCudaWorkaround(f) => Some(VideoFilter::HwUploadCudaWorkaround(*f)),
            VideoFilter::LibplaceboCuda(f) => None,
            VideoFilter::DeinterlaceCuda(f) => None,
            VideoFilter::DeinterlaceVaapi(f) => None,
            VideoFilter::ScaleVaapi(f) => None,
            VideoFilter::PadVaapi(f) => None,
            VideoFilter::FormatVaapi(f) => None,
            VideoFilter::TonemapVaapi(f) => None,
            VideoFilter::PadOpencl(f) => None,
            VideoFilter::TonemapOpencl(f) => None,
            VideoFilter::ScaleQsv(f) => None,
            VideoFilter::FormatQsv(f) => None,
            VideoFilter::DeinterlaceQsv(f) => None,
            VideoFilter::ScaleVulkan(f) => None,
            VideoFilter::FormatVulkan(f) => None,
            VideoFilter::LibplaceboVulkan(f) => None,
            VideoFilter::ScaleVt(f) => None,
            VideoFilter::ScaleRkrga(f) => None,
            VideoFilter::FormatRkrga(f) => None,
        }
    }

    /// Changes the state as the filter changes the frames.
    fn apply_to(&self, state: &mut FrameState) {
        match self {
            VideoFilter::HwUpload(f) => f.apply_to(state),
            VideoFilter::HwDownload(f) => f.apply_to(state),
            VideoFilter::Scale(f) => f.apply_to(state),
            VideoFilter::Pad(f) => f.apply_to(state),
            VideoFilter::Loop(f) => {},
            VideoFilter::Format(f) => f.apply_to(state),
            VideoFilter::ToneMap(f) => f.apply_to(state),
            VideoFilter::Deinterlace(f) => f.apply_to(state),
            VideoFilter::HwMap(f) => f.apply_to(state),
            VideoFilter::Subtitles(f) => {},
            VideoFilter::ColorChannelMixer(f) => {},
            VideoFilter::Fade(f) => {},
            VideoFilter::Crop(f) => f.apply_to(state),
            VideoFilter::ScaleCuda(f) => f.apply_to(state),
            VideoFilter::PadCuda(f) => f.apply_to(state),
            VideoFilter::FormatCuda(f) => f.apply_to(state),
            VideoFilter::HwUploadCudaWorkaround(f) => f.apply_to(state),
            VideoFilter::LibplaceboCuda(f) => f.apply_to(state),
            VideoFilter::DeinterlaceCuda(f) => f.apply_to(state),
            VideoFilter::DeinterlaceVaapi(f) => f.apply_to(state),
            VideoFilter::ScaleVaapi(f) => f.apply_to(state),
            VideoFilter::PadVaapi(f) => f.apply_to(state),
            VideoFilter::FormatVaapi(f) => f.apply_to(state),
            VideoFilter::TonemapVaapi(f) => f.apply_to(state),
            VideoFilter::PadOpencl(f) => f.apply_to(state),
            VideoFilter::TonemapOpencl(f) => f.apply_to(state),
            VideoFilter::ScaleQsv(f) => f.apply_to(state),
            VideoFilter::FormatQsv(f) => f.apply_to(state),
            VideoFilter::DeinterlaceQsv(f) => f.apply_to(state),
            VideoFilter::ScaleVulkan(f) => f.apply_to(state),
            VideoFilter::FormatVulkan(f) => f.apply_to(state),
            VideoFilter::LibplaceboVulkan(f) => f.apply_to(state),
            VideoFilter::ScaleVt(f) => f.apply_to(state),
            VideoFilter::ScaleRkrga(f) => f.apply_to(state),
            VideoFilter::FormatRkrga(f) => f.apply_to(state),
        }
    }

    /// The surface the filter's input must be on, if any.
    fn required_surface(&self) -> (r: Option<FrameSurface>) {
        match self {
            VideoFilter::HwUpload(_) => None,
            VideoFilter::HwDownload(_) => None,
            VideoFilter::Scale(_) => Some(FrameSurface::System),
            VideoFilter::Pad(_) => Some(FrameSurface::System),
            VideoFilter::Loop(_) => Some(FrameSurface::System),
            VideoFilter::Format(_) => Some(FrameSurface::System),
            VideoFilter::ToneMap(_) => Some(FrameSurface::System),
            VideoFilter::Deinterlace(_) => Some(FrameSurface::System),
            VideoFilter::HwMap(_) => None,
            VideoFilter::Subtitles(_) => Some(FrameSurface::System),
            VideoFilter::ColorChannelMixer(_) => Some(FrameSurface::System),
            VideoFilter::Fade(_) => Some(FrameSurface::System),
            VideoFilter::Crop(_) => Some(FrameSurface::System),
            VideoFilter::ScaleCuda(_) => Some(FrameSurface::Cuda),
            VideoFilter::PadCuda(_) => Some(FrameSurface::Cuda),
            VideoFilter::FormatCuda(_) => Some(FrameSurface::Cuda),
            VideoFilter::HwUploadCudaWorkaround(_) => Some(FrameSurface::Cuda),
            VideoFilter::LibplaceboCuda(_) => Some(FrameSurface::Vulkan),
            VideoFilter::DeinterlaceCuda(_) => Some(FrameSurface::Cuda),
            VideoFilter::DeinterlaceVaapi(_) => Some(FrameSurface::Vaapi),
            VideoFilter::ScaleVaapi(_) => Some(FrameSurface::Vaapi),
            VideoFilter::PadVaapi(_) => Some(FrameSurface::Vaapi),
            VideoFilter::FormatVaapi(_) => Some(FrameSurface::Vaapi),
            VideoFilter::TonemapVaapi(_) => Some(FrameSurface::Vaapi),
            VideoFilter::PadOpencl(_) => Some(FrameSurface::OpenCL),
            VideoFilter::TonemapOpencl(_) => Some(FrameSurface::OpenCL),
            VideoFilter::ScaleQsv(_) => Some(FrameSurface::Qsv),
            VideoFilter::FormatQsv(_) => Some(FrameSurface::Qsv),
            VideoFilter::DeinterlaceQsv(_) => Some(FrameSurface::Qsv),
            VideoFilter::ScaleVulkan(_) => Some(FrameSurface::Vulkan),
            VideoFilter::FormatVulkan(_) => Some(FrameSurface::Vulkan),
            VideoFilter::LibplaceboVulkan(_) => Some(FrameSurface::Vulkan),
            VideoFilter::ScaleVt(_) => Some(FrameSurface::VideoToolbox),
            VideoFilter::ScaleRkrga(_) => Some(FrameSurface::Rkmpp),
            VideoFilter::FormatRkrga(_) => Some(FrameSurface::Rkmpp),
        }
    }

    /// The filter's text in a filter graph, if any.
    fn as_arg(&self) -> (r: Option<String>) {
        match self {
            VideoFilter::HwUpload(f) => f.as_arg(),
            VideoFilter::HwDownload(f) => f.as_arg(),
            VideoFilter::Scale(f) => f.as_arg(),
            VideoFilter::Pad(f) => f.as_arg(),
            VideoFilter::Loop(f) => f.as_arg(),
            VideoFilter::Format(f) => f.as_arg(),
            VideoFilter::ToneMap(f) => f.as_arg(),
            VideoFilter::Deinterlace(f) => f.as_arg(),
            VideoFilter::HwMap(f) => f.as_arg(),
            VideoFilter::Subtitles(f) => f.as_arg(),
            VideoFilter::ColorChannelMixer(f) => f.as_arg(),
            VideoFilter::Fade(f) => f.as_arg(),
            VideoFilter::Crop(f) => f.as_arg(),
            VideoFilter::ScaleCuda(f) => f.as_arg(),
            VideoFilter::PadCuda(f) => f.as_arg(),
            VideoFilter::FormatCuda(f) => f.as_arg(),
            VideoFilter::HwUploadCudaWorkaround(f) => f.as_arg(),
            VideoFilter::LibplaceboCuda(f) => f.as_arg(),
            VideoFilter::DeinterlaceCuda(f) => f.as_arg(),
            VideoFilter::DeinterlaceVaapi(f) => f.as_arg(),
            VideoFilter::ScaleVaapi(f) => f.as_arg(),
            VideoFilter::PadVaapi(f) => f.as_arg(),
            VideoFilter::FormatVaapi(f) => f.as_arg(),
            VideoFilter::TonemapVaapi(f) => f.as_arg(),
            VideoFilter::PadOpencl(f) => f.as_arg(),
            VideoFilter::TonemapOpencl(f) => f.as_arg(),
            VideoFilter::ScaleQsv(f) => f.as_arg(),
            VideoFilter::FormatQsv(f) => f.as_arg(),
            VideoFilter::DeinterlaceQsv(f) => f.as_arg(),
            VideoFilter::ScaleVulkan(f) => f.as_arg(),
            VideoFilter::FormatVulkan(f) => f.as_arg(),
            VideoFilter::LibplaceboVulkan(f) => f.as_arg(),
            VideoFilter::ScaleVt(f) => f.as_arg(),
            VideoFilter::ScaleRkrga(f) => f.as_arg(),
            VideoFilter::FormatRkrga(f) => f.as_arg(),
        }
    }
}

impl VideoFilter {
    /// A copy of the filter.
    pub fn duplicate(&self) -> (r: VideoFilter)
        ensures
            r == *self,
    {
        match self {
            VideoFilter::HwUpload(f) => VideoFilter::HwUpload(*f),
            VideoFilter::HwDownload(f) => VideoFilter::HwDownload(*f),
            VideoFilter::Scale(f) => VideoFilter::Scale(*f),
            VideoFilter::Pad(f) => VideoFilter::Pad(*f),
            VideoFilter::Loop(f) => VideoFilter::Loop(f.duplicate()),
            VideoFilter::Format(f) => VideoFilter::Format(*f),
            VideoFilter::ToneMap(f) => VideoFilter::ToneMap(f.duplicate()),
            VideoFilter::Deinterlace(f) => VideoFilter::Deinterlace(*f),
            VideoFilter::HwMap(f) => VideoFilter::HwMap(*f),
            VideoFilter::Subtitles(f) => VideoFilter::Subtitles(f.duplicate()),
            VideoFilter::ColorChannelMixer(f) => VideoFilter::ColorChannelMixer(*f),
            VideoFilter::Fade(f) => VideoFilter::Fade(*f),
            VideoFilter::Crop(f) => VideoFilter::Crop(*f),
            VideoFilter::ScaleCuda(f) => VideoFilter::ScaleCuda(*f),
            VideoFilter::PadCuda(f) => VideoFilter::PadCuda(*f),
            VideoFilter::FormatCuda(f) => VideoFilter::FormatCuda(*f),
            VideoFilter::HwUploadCudaWorkaround(f) => VideoFilter::HwUploadCudaWorkaround(*f),
            VideoFilter::LibplaceboCuda(f) => VideoFilter::LibplaceboCuda(f.duplicate()),
            VideoFilter::DeinterlaceCuda(f) => VideoFilter::DeinterlaceCuda(*f),
            VideoFilter::DeinterlaceVaapi(f) => VideoFilter::DeinterlaceVaapi(f.duplicate()),
            VideoFilter::ScaleVaapi(f) => VideoFilter::ScaleVaapi(*f),
            VideoFilter::PadVaapi(f) => VideoFilter::PadVaapi(*f),
            VideoFilter::FormatVaapi(f) => VideoFilter::FormatVaapi(*f),
            VideoFilter::TonemapVaapi(f) => VideoFilter::TonemapVaapi(*f),
            VideoFilter::PadOpencl(f) => VideoFilter::PadOpencl(*f),
            VideoFilter::TonemapOpencl(f) => VideoFilter::TonemapOpencl(f.duplicate()),
            VideoFilter::ScaleQsv(f) => VideoFilter::ScaleQsv(*f),
            VideoFilter::FormatQsv(f) => VideoFilter::FormatQsv(*f),
            VideoFilter::DeinterlaceQsv(f) => VideoFilter::DeinterlaceQsv(*f),
            VideoFilter::ScaleVulkan(f) => VideoFilter::ScaleVulkan(*f),
            VideoFilter::FormatVulkan(f) => VideoFilter::FormatVulkan(*f),
            VideoFilter::LibplaceboVulkan(f) => VideoFilter::LibplaceboVulkan(f.duplicate()),
            VideoFilter::ScaleVt(f) => VideoFilter::ScaleVt(*f),
            VideoFilter::ScaleRkrga(f) => VideoFilter::ScaleRkrga(*f),
            VideoFilter::FormatRkrga(f) => VideoFilter::FormatRkrga(*f),
        }
    }
}

} // verus!
