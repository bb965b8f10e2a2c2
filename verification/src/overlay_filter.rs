use vstd::prelude::*;
use crate::accel::cuda::CudaOverlay;
use crate::accel::vaapi::VaapiOverlay;
use crate::pipeline::{opt_string_view, FrameState, FrameStateView, FrameSurface, PixelFormat};
use crate::text::{dec, u64_to_string};
use crate::video_filter::VideoFilter;

verus! {

/// A position in a frame, in pixels from the top left corner.
#[derive(Debug, Clone, Copy, PartialEq, Eq, Structural)]
pub struct FramePoint {
    pub x: u32,
    pub y: u32,
}

/// Where the overlaid frames come from.
#[derive(Debug, Clone, Copy, PartialEq, Eq, Structural)]
pub enum OverlaySource {
    Subtitle,
    Watermark,
}

/// Overlaying in software, in the given bit depth.
#[derive(Debug, Clone, Copy, PartialEq, Eq, Structural)]
pub struct SoftwareOverlay {
    pub bit_depth: u8,
}

impl SoftwareOverlay {
    /// An 8-bit software overlay.
    pub fn default() -> (r: SoftwareOverlay)
        ensures
            r.bit_depth == 8,
    {
        SoftwareOverlay { bit_depth: 8 }
    }
}

/// How an overlay is done.
#[derive(Debug, Clone, Copy, PartialEq, Eq, Structural)]
pub enum OverlayKind {
    Software(SoftwareOverlay),
    Cuda(CudaOverlay),
    Vaapi(VaapiOverlay),
}

/// `x=X:y=Y` of a location, or the centered position.
pub open spec fn location_text(location: Option<FramePoint>) -> Seq<char> {
    match location {
        Some(p) => "x="@ + dec(p.x as nat) + ":y="@ + dec(p.y as nat),
        None => "x=(W-w)/2:y=(H-h)/2"@,
    }
}

fn location_string(location: Option<FramePoint>) -> (r: String)
    ensures
        r@ == location_text(location),
{
    match location {
        Some(p) => {
            let mut s = "x=".to_owned();
            let x = u64_to_string(p.x as u64);
            s.append(x.as_str());
            s.append(":y=");
            let y = u64_to_string(p.y as u64);
            s.append(y.as_str());
            s
        },
        None => "x=(W-w)/2:y=(H-h)/2".to_owned(),
    }
}

/// What an overlay does to the frames, and what it needs of its inputs.
pub trait OverlayKindOp: Sized {
    /// The state of the frames after the overlay.
    spec fn spec_apply(self, s: FrameStateView) -> FrameStateView;

    /// The state the main input must have.
    spec fn spec_main_input(self, s: FrameStateView) -> FrameStateView;

    /// The state the overlaid input must have.
    spec fn spec_secondary_input(self, s: FrameStateView) -> FrameStateView;

    /// The overlay's text in a filter graph.
    spec fn spec_arg(self, location: Option<FramePoint>) -> Option<Seq<char>>;

    /// The overlay once it has taken what it needs from the main input.
    spec fn spec_configured(self, main: FrameStateView) -> Self;

    fn apply_to(&self, state: &mut FrameState)
        ensures
            final(state)@ == self.spec_apply(old(state)@);

    fn main_input_state(&self, current_state: &FrameState) -> (r: FrameState)
        ensures
            r@ == self.spec_main_input(current_state@);

    fn secondary_input_state(&self, current_state: &FrameState) -> (r: FrameState)
        ensures
            r@ == self.spec_secondary_input(current_state@);

    fn as_arg(&self, location: Option<FramePoint>) -> (r: Option<String>)
        ensures
            opt_string_view(r) == self.spec_arg(location);

    /// Takes from the main input what the overlay needs.
    fn configure(&mut self, main: &FrameState)
        ensures
            *final(self) == old(self).spec_configured(main@);
}

impl OverlayKindOp for OverlayKind {
    /// The state of the frames after the overlay.
    open spec fn spec_apply(self, s: FrameStateView) -> FrameStateView {
        match self {
            OverlayKind::Software(o) => FrameStateView {
                pixel_format: if o.bit_depth == 10 { PixelFormat::Yuv420p10le } else { PixelFormat::Yuv420p },
                ..s
            },
            OverlayKind::Cuda(_) => FrameStateView { pixel_format: PixelFormat::Nv12, surface: FrameSurface::Cuda, ..s },
            OverlayKind::Vaapi(_) => FrameStateView { surface: FrameSurface::Vaapi, ..s },
        }
    }

    /// The state the main input must have.
    open spec fn spec_main_input(self, s: FrameStateView) -> FrameStateView {
        match self {
            OverlayKind::Software(_) => FrameStateView {
                surface: FrameSurface::System,
                pixel_format: if s.pixel_format.spec_bit_depth() == 10 { PixelFormat::Yuv420p10le } else { PixelFormat::Yuv420p },
                ..s
            },
            OverlayKind::Cuda(_) => FrameStateView { pixel_format: PixelFormat::Yuv420p, surface: FrameSurface::Cuda, ..s },
            OverlayKind::Vaapi(_) => FrameStateView { surface: FrameSurface::Vaapi, ..s },
        }
    }

    /// The state the overlaid input must have.
    open spec fn spec_secondary_input(self, s: FrameStateView) -> FrameStateView {
        match self {
            OverlayKind::Software(_) => FrameStateView {
                surface: FrameSurface::System,
                pixel_format: if s.pixel_format.spec_bit_depth() == 10 { PixelFormat::Yuva420p10le } else { PixelFormat::Yuva420p },
                ..s
            },
            OverlayKind::Cuda(_) => FrameStateView { pixel_format: PixelFormat::Yuva420p, surface: FrameSurface::Cuda, ..s },
            OverlayKind::Vaapi(_) => FrameStateView { pixel_format: PixelFormat::Bgra, surface: FrameSurface::Vaapi, ..s },
        }
    }

    /// The overlay's text in a filter graph.
    open spec fn spec_arg(self, location: Option<FramePoint>) -> Option<Seq<char>> {
        match self {
            OverlayKind::Software(o) => Some("overlay="@ + location_text(location) + ":format="@
                + if o.bit_depth == 10 { "1"@ } else { "0"@ }),
            OverlayKind::Cuda(_) => Some("overlay_cuda=x=(W-w)/2:y=(H-h)/2"@),
            OverlayKind::Vaapi(_) => Some("overlay_vaapi="@ + location_text(location)),
        }
    }

    fn apply_to(&self, state: &mut FrameState) {
        match self {
            OverlayKind::Software(o) => {
                state.pixel_format = if o.bit_depth == 10 { PixelFormat::Yuv420p10le } else { PixelFormat::Yuv420p };
            },
            OverlayKind::Cuda(_) => {
                state.pixel_format = PixelFormat::Nv12;
                state.surface = FrameSurface::Cuda;
            },
            OverlayKind::Vaapi(_) => {
                state.surface = FrameSurface::Vaapi;
            },
        }
    }

    fn main_input_state(&self, current_state: &FrameState) -> (r: FrameState) {
        let mut r = current_state.duplicate();
        match self {
            OverlayKind::Software(_) => {
                r.surface = FrameSurface::System;
                r.pixel_format = if current_state.pixel_format.bit_depth() == 10 { PixelFormat::Yuv420p10le } else { PixelFormat::Yuv420p };
            },
            OverlayKind::Cuda(_) => {
                r.pixel_format = PixelFormat::Yuv420p;
                r.surface = FrameSurface::Cuda;
            },
            OverlayKind::Vaapi(_) => {
                r.surface = FrameSurface::Vaapi;
            },
        }
        r
    }

    fn secondary_input_state(&self, current_state: &FrameState) -> (r: FrameState) {
        let mut r = current_state.duplicate();
        match self {
            OverlayKind::Software(_) => {
                r.surface = FrameSurface::System;
                r.pixel_format = if current_state.pixel_format.bit_depth() == 10 { PixelFormat::Yuva420p10le } else { PixelFormat::Yuva420p };
            },
            OverlayKind::Cuda(_) => {
                r.pixel_format = PixelFormat::Yuva420p;
                r.surface = FrameSurface::Cuda;
            },
            OverlayKind::Vaapi(_) => {
                r.pixel_format = PixelFormat::Bgra;
                r.surface = FrameSurface::Vaapi;
            },
        }
        r
    }

    fn as_arg(&self, location: Option<FramePoint>) -> (r: Option<String>) {
        match self {
            OverlayKind::Software(o) => {
                let mut s = "overlay=".to_owned();
                let l = location_string(location);
                s.append(l.as_str());
                s.append(":format=");
                if o.bit_depth == 10 {
                    s.append("1");
                } else {
                    s.append("0");
                }
                Some(s)
            },
            OverlayKind::Cuda(_) => Some("overlay_cuda=x=(W-w)/2:y=(H-h)/2".to_owned()),
            OverlayKind::Vaapi(_) => {
                let mut s = "overlay_vaapi=".to_owned();
                let l = location_string(location);
                s.append(l.as_str());
                Some(s)
            },
        }
    }

    /// A software overlay takes the main input's bit depth; other overlays need nothing.
    open spec fn spec_configured(self, main: FrameStateView) -> OverlayKind {
        match self {
            OverlayKind::Software(_) => OverlayKind::Software(SoftwareOverlay { bit_depth: main.pixel_format.spec_bit_depth() }),
            k => k,
        }
    }

    fn configure(&mut self, main: &FrameState) {
        match *self {
            OverlayKind::Software(_) => {
                *self = OverlayKind::Software(SoftwareOverlay { bit_depth: main.pixel_format.bit_depth() });
            },
            _ => {},
        }
    }
}

/// Overlays frames of a second input, filtered by `secondary`, on the main frames.
pub struct OverlayFilter {
    pub kind: OverlayKind,
    pub secondary: Vec<VideoFilter>,
    pub secondary_initial_state: FrameState,
    pub secondary_source: OverlaySource,
    pub location: Option<FramePoint>,
}

/// The mathematical value of an overlay.
pub struct OverlayFilterView {
    pub kind: OverlayKind,
    pub secondary: Seq<VideoFilter>,
    pub secondary_initial_state: FrameStateView,
    pub secondary_source: OverlaySource,
    pub location: Option<FramePoint>,
}

impl View for OverlayFilter {
    type V = OverlayFilterView;

    open spec fn view(&self) -> OverlayFilterView {
        OverlayFilterView {
            kind: self.kind,
            secondary: self.secondary@,
            secondary_initial_state: self.secondary_initial_state@,
            secondary_source: self.secondary_source,
            location: self.location,
        }
    }
}

/// A copy of a list of video filters.
pub fn duplicate_filters(v: &Vec<VideoFilter>) -> (r: Vec<VideoFilter>)
    ensures
        r@ == v@,
{
    let mut r: Vec<VideoFilter> = Vec::new();
    let mut i: usize = 0;
    while i < v.len()
        invariant
            i <= v.len(),
            r@ == v@.take(i as int),
        decreases v.len() - i,
    {
        r.push(v[i].duplicate());
        assert(v@.take(i as int + 1) =~= v@.take(i as int).push(v@[i as int]));
        i = i + 1;
    }
    assert(v@.take(i as int) =~= v@);
    r
}

impl OverlayFilter {
    /// The same overlay done another way.
    pub fn with_kind(&self, kind: OverlayKind) -> (r: OverlayFilter)
        ensures
            r@ == (OverlayFilterView { kind, ..self@ }),
    {
        OverlayFilter {
            kind,
            secondary: duplicate_filters(&self.secondary),
            secondary_initial_state: self.secondary_initial_state.duplicate(),
            secondary_source: self.secondary_source,
            location: self.location,
        }
    }

    /// A copy of the overlay.
    pub fn duplicate(&self) -> (r: OverlayFilter)
        ensures
            r@ == self@,
    {
        self.with_kind(self.kind)
    }
}

} // verus!
