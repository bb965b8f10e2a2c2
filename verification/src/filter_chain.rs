use vstd::prelude::*;
use crate::audio_filter::AudioFilter;
use crate::ffmpeg_info::FfmpegInfo;
use crate::hw_accel::{HardwareAccel, HwAccel};
use crate::output_settings::VideoFilterOptions;
use crate::overlay_filter::{duplicate_filters, OverlayFilter, OverlayFilterView, OverlayKindOp};
use crate::pipeline::{FrameState, FrameStateView, FrameSurface, PixelFormat, SurfaceSet};
use crate::overlay_filter::OverlaySource;
use crate::text::{dec, join, join_strings, u64_to_string, views, args2};
use crate::video_filter::{FormatFilter, HwDownloadFilter, HwUploadFilter, VideoFilter, VideoFilterOp};

verus! {

/// A filter of the pipeline's filter graph.
pub enum PipelineFilter {
    Audio(AudioFilter),
    Video(VideoFilter),
    Overlay(OverlayFilter),
}

/// The mathematical value of a pipeline filter.
pub enum PipelineFilterView {
    Audio(AudioFilter),
    Video(VideoFilter),
    Overlay(OverlayFilterView),
}

impl View for PipelineFilter {
    type V = PipelineFilterView;

    open spec fn view(&self) -> PipelineFilterView {
        match self {
            PipelineFilter::Audio(a) => PipelineFilterView::Audio(*a),
            PipelineFilter::Video(v) => PipelineFilterView::Video(*v),
            PipelineFilter::Overlay(o) => PipelineFilterView::Overlay(o@),
        }
    }
}

/// The views of a list of pipeline filters.
pub open spec fn filter_views(v: Seq<PipelineFilter>) -> Seq<PipelineFilterView> {
    v.map_values(|f: PipelineFilter| f@)
}

impl PipelineFilter {
    /// A copy of the filter.
    pub fn duplicate(&self) -> (r: PipelineFilter)
        ensures
            r@ == self@,
    {
        match self {
            PipelineFilter::Audio(a) => PipelineFilter::Audio(*a),
            PipelineFilter::Video(v) => PipelineFilter::Video(v.duplicate()),
            PipelineFilter::Overlay(o) => PipelineFilter::Overlay(o.duplicate()),
        }
    }
}

/// A copy of a list of pipeline filters.
pub fn duplicate_pipeline_filters(v: &Vec<PipelineFilter>) -> (r: Vec<PipelineFilter>)
    ensures
        filter_views(r@) == filter_views(v@),
{
    let mut r: Vec<PipelineFilter> = Vec::new();
    let mut i: usize = 0;
    while i < v.len()
        invariant
            i <= v.len(),
            filter_views(r@) == filter_views(v@.take(i as int)),
        decreases v.len() - i,
    {
        let f = v[i].duplicate();
        let ghost prev = r@;
        r.push(f);
        assert(filter_views(r@) =~= filter_views(prev).push(f@));
        assert(filter_views(v@.take(i as int + 1)) =~= filter_views(v@.take(i as int)).push(v@[i as int]@));
        i = i + 1;
    }
    assert(v@.take(i as int) =~= v@);
    r
}

/// The state after a list of video filters, applied in order.
pub open spec fn apply_videos(fs: Seq<VideoFilter>, s: FrameStateView) -> FrameStateView
    decreases fs.len(),
{
    if fs.len() == 0 {
        s
    } else {
        fs.last().spec_apply(apply_videos(fs.drop_last(), s))
    }
}

/// Video filters as pipeline filters.
pub open spec fn wrap_videos(fs: Seq<VideoFilter>) -> Seq<PipelineFilterView> {
    fs.map_values(|f: VideoFilter| PipelineFilterView::Video(f))
}

/// The filters that move frames in state `s` to the `required` surface, if any
/// way is known: a download to system memory (p010le for 10 bits, else nv12);
/// from system memory an upload when the accel takes the format, else, for
/// 10-bit frames headed for an 8-bit encoder, a conversion to nv12 and an upload;
/// between hardware surfaces the accel's mapping filter.
#[verifier::opaque]
pub open spec fn spec_transfer(accel: Option<HardwareAccel>, s: FrameStateView, required: FrameSurface,
    encoder_pixel_format: Option<PixelFormat>) -> Option<Seq<VideoFilter>> {
    if required == FrameSurface::System {
        Some(seq![VideoFilter::HwDownload(HwDownloadFilter {
            target_pixel_format: if s.pixel_format.spec_bit_depth() == 10 { PixelFormat::P010le } else { PixelFormat::Nv12 },
        })])
    } else if s.surface == FrameSurface::System {
        let supported = match accel {
            Some(a) => a.spec_accepts_upload_format(s.pixel_format),
            None => true,
        };
        if supported {
            Some(seq![VideoFilter::HwUpload(HwUploadFilter { target_surface: required, source_format: s.pixel_format })])
        } else if s.pixel_format.spec_bit_depth() == 10 && (encoder_pixel_format matches Some(pf) && pf.spec_bit_depth() == 8) {
            Some(seq![
                VideoFilter::Format(FormatFilter { format: PixelFormat::Nv12 }),
                VideoFilter::HwUpload(HwUploadFilter { target_surface: required, source_format: PixelFormat::Nv12 }),
            ])
        } else {
            None
        }
    } else {
        match accel {
            Some(a) => match a.spec_hw_map_filter(s.surface, required) {
                Some(m) => Some(seq![m]),
                None => None,
            },
            None => None,
        }
    }
}

/// The filters that convert frames in state `s` to the pixel format: a format
/// filter on system memory, else the accel's format filter, if any.
#[verifier::opaque]
pub open spec fn spec_convert(accel: Option<HardwareAccel>, s: FrameStateView, pf: PixelFormat) -> Seq<VideoFilter> {
    if s.surface == FrameSurface::System {
        seq![VideoFilter::Format(FormatFilter { format: pf })]
    } else {
        match accel {
            Some(a) => match a.spec_format_filter(pf) {
                Some(f) => seq![f],
                None => seq![],
            },
            None => seq![],
        }
    }
}

/// Where a resolution stands: the filters so far, the frame state after them,
/// and the surfaces met.
#[verifier::ext_equal]
pub struct ResolveState {
    pub filters: Seq<PipelineFilterView>,
    pub state: FrameStateView,
    pub surfaces: Set<FrameSurface>,
}

/// The resolution state of exec values.
pub open spec fn resolve_state(resolved: Seq<PipelineFilter>, state: FrameState, surfaces: SurfaceSet) -> ResolveState {
    ResolveState { filters: filter_views(resolved), state: state@, surfaces: surfaces@ }
}

/// After transfer filters: their state, and the surface reached among those met.
pub open spec fn with_transfer(acc: ResolveState, fs: Seq<VideoFilter>) -> ResolveState {
    let st = apply_videos(fs, acc.state);
    ResolveState { filters: acc.filters + wrap_videos(fs), state: st, surfaces: acc.surfaces.insert(st.surface) }
}

/// After conversion filters.
pub open spec fn with_convert(acc: ResolveState, fs: Seq<VideoFilter>) -> ResolveState {
    ResolveState { filters: acc.filters + wrap_videos(fs), state: apply_videos(fs, acc.state), ..acc }
}

/// After a transfer to `required` when the frames are elsewhere and a way is known.
pub open spec fn transfer_if_needed(acc: ResolveState, accel: Option<HardwareAccel>, required: FrameSurface,
    encoder_pixel_format: Option<PixelFormat>) -> ResolveState {
    if acc.state.surface != required {
        match spec_transfer(accel, acc.state, required, encoder_pixel_format) {
            Some(fs) => with_transfer(acc, fs),
            None => acc,
        }
    } else {
        acc
    }
}

/// After a conversion to `pf` when the frames have another format.
pub open spec fn convert_if_needed(acc: ResolveState, accel: Option<HardwareAccel>, pf: PixelFormat) -> ResolveState {
    if acc.state.pixel_format != pf {
        with_convert(acc, spec_convert(accel, acc.state, pf))
    } else {
        acc
    }
}

/// The filter the accel picks for `vf`.
pub open spec fn accel_best_filter(accel: Option<HardwareAccel>, vf: VideoFilter, info: FfmpegInfo, s: FrameStateView,
    opts: VideoFilterOptions) -> VideoFilter {
    match accel {
        Some(a) => a.spec_best_filter(vf, info, s, opts),
        None => vf,
    }
}

/// One video filter of a resolution: the accel's pick, after a transfer to the
/// surface it needs; when no transfer is known, the filter as given.
#[verifier::opaque]
pub open spec fn video_step(acc: ResolveState, vf: VideoFilter, info: FfmpegInfo, accel: Option<HardwareAccel>,
    opts: VideoFilterOptions, encoder_pixel_format: Option<PixelFormat>) -> ResolveState {
    let best0 = accel_best_filter(accel, vf, info, acc.state, opts);
    let (acc1, best) = match best0.spec_required() {
        Some(req) => if acc.state.surface != req {
            match spec_transfer(accel, acc.state, req, encoder_pixel_format) {
                Some(fs) => (with_transfer(acc, fs), best0),
                None => (acc, vf),
            }
        } else {
            (acc, best0)
        },
        None => (acc, best0),
    };
    let st = best.spec_apply(acc1.state);
    ResolveState { filters: acc1.filters.push(PipelineFilterView::Video(best)), state: st, surfaces: acc1.surfaces.insert(st.surface) }
}

/// The video filters of a list resolved one after the other.
pub open spec fn resolve_videos_from(acc: ResolveState, fs: Seq<VideoFilter>, info: FfmpegInfo, accel: Option<HardwareAccel>,
    opts: VideoFilterOptions, encoder_pixel_format: Option<PixelFormat>) -> ResolveState
    decreases fs.len(),
{
    if fs.len() == 0 {
        acc
    } else {
        video_step(resolve_videos_from(acc, fs.drop_last(), info, accel, opts, encoder_pixel_format), fs.last(), info,
            accel, opts, encoder_pixel_format)
    }
}

/// The end of a resolution: a transfer to the encoder's surface when needed,
/// then a conversion to its pixel format when needed.
#[verifier::opaque]
pub open spec fn finish(acc: ResolveState, accel: Option<HardwareAccel>, encoder_surface: FrameSurface,
    encoder_pixel_format: Option<PixelFormat>) -> ResolveState {
    let acc1 = transfer_if_needed(acc, accel, encoder_surface, encoder_pixel_format);
    match encoder_pixel_format {
        Some(pf) => convert_if_needed(acc1, accel, pf),
        None => acc1,
    }
}

/// The start of a resolution.
pub open spec fn start(initial: FrameStateView) -> ResolveState {
    ResolveState { filters: seq![], state: initial, surfaces: Set::empty() }
}

/// A list of video filters resolved from `initial` for an encoder.
pub open spec fn spec_resolve_videos(fs: Seq<VideoFilter>, initial: FrameStateView, info: FfmpegInfo,
    accel: Option<HardwareAccel>, opts: VideoFilterOptions, encoder_surface: FrameSurface,
    encoder_pixel_format: Option<PixelFormat>) -> ResolveState {
    finish(resolve_videos_from(start(initial), fs, info, accel, opts, encoder_pixel_format), accel, encoder_surface,
        encoder_pixel_format)
}

/// The video filters that stay when frames start in state `s`: each filter's
/// evaluation, applied in turn.
pub open spec fn evaluate_videos(fs: Seq<VideoFilter>, s: FrameStateView, info: FfmpegInfo) -> (Seq<VideoFilter>, FrameStateView)
    decreases fs.len(),
{
    if fs.len() == 0 {
        (seq![], s)
    } else {
        let (kept, st) = evaluate_videos(fs.drop_last(), s, info);
        match fs.last().spec_evaluate(st, info) {
            Some(nf) => (kept.push(nf), nf.spec_apply(st)),
            None => (kept, st),
        }
    }
}

/// The video filters among pipeline filters.
pub open spec fn videos_of(fs: Seq<PipelineFilterView>) -> Seq<VideoFilter>
    decreases fs.len(),
{
    if fs.len() == 0 {
        seq![]
    } else {
        match fs.last() {
            PipelineFilterView::Video(v) => videos_of(fs.drop_last()).push(v),
            _ => videos_of(fs.drop_last()),
        }
    }
}

/// The overlay the accel picks.
pub open spec fn accel_best_overlay(accel: Option<HardwareAccel>, o: OverlayFilterView, info: FfmpegInfo, s: FrameStateView) -> OverlayFilterView {
    match accel {
        Some(a) => a.spec_best_overlay(o, info, s),
        None => o,
    }
}

/// One overlay of a resolution: the main frames are moved to the surface and
/// pixel format the overlay needs; the overlaid input's filters are evaluated
/// and resolved on their own (without accel when they must stay in software);
/// their surfaces count as met.
#[verifier::opaque]
pub open spec fn overlay_step(acc: ResolveState, o: OverlayFilterView, info: FfmpegInfo, accel: Option<HardwareAccel>,
    opts: VideoFilterOptions, encoder_pixel_format: Option<PixelFormat>) -> ResolveState {
    let best = accel_best_overlay(accel, o, info, acc.state);
    let main_req = best.kind.spec_main_input(acc.state);
    let acc1 = transfer_if_needed(acc, accel, main_req.surface, encoder_pixel_format);
    let acc2 = convert_if_needed(acc1, accel, main_req.pixel_format);
    let sec_req = best.kind.spec_secondary_input(acc2.state);
    let sec_filters = evaluate_videos(best.secondary, best.secondary_initial_state, info).0;
    let sec_accel = if sec_req.surface == FrameSurface::System { None } else { accel };
    let sec = spec_resolve_videos(sec_filters, best.secondary_initial_state, info, sec_accel, opts, sec_req.surface,
        Some(sec_req.pixel_format));
    let best2 = OverlayFilterView { secondary: videos_of(sec.filters), ..best };
    let st = best.kind.spec_apply(acc2.state);
    ResolveState {
        filters: acc2.filters.push(PipelineFilterView::Overlay(best2)),
        state: st,
        surfaces: acc2.surfaces.union(sec.surfaces).insert(st.surface),
    }
}

/// One pipeline filter of a resolution; audio filters pass as they are.
pub open spec fn chain_step(acc: ResolveState, f: PipelineFilterView, info: FfmpegInfo, accel: Option<HardwareAccel>,
    opts: VideoFilterOptions, encoder_pixel_format: Option<PixelFormat>) -> ResolveState {
    match f {
        PipelineFilterView::Video(vf) => video_step(acc, vf, info, accel, opts, encoder_pixel_format),
        PipelineFilterView::Audio(_) => ResolveState { filters: acc.filters.push(f), ..acc },
        PipelineFilterView::Overlay(o) => overlay_step(acc, o, info, accel, opts, encoder_pixel_format),
    }
}

/// The pipeline filters resolved one after the other.
pub open spec fn resolve_chain_from(acc: ResolveState, fs: Seq<PipelineFilterView>, info: FfmpegInfo,
    accel: Option<HardwareAccel>, opts: VideoFilterOptions, encoder_pixel_format: Option<PixelFormat>) -> ResolveState
    decreases fs.len(),
{
    if fs.len() == 0 {
        acc
    } else {
        chain_step(resolve_chain_from(acc, fs.drop_last(), info, accel, opts, encoder_pixel_format), fs.last(), info,
            accel, opts, encoder_pixel_format)
    }
}

/// A filter chain resolved from `initial` for an encoder.
pub open spec fn spec_resolve(fs: Seq<PipelineFilterView>, initial: FrameStateView, info: FfmpegInfo,
    accel: Option<HardwareAccel>, opts: VideoFilterOptions, encoder_surface: FrameSurface,
    encoder_pixel_format: Option<PixelFormat>) -> ResolveState {
    finish(resolve_chain_from(start(initial), fs, info, accel, opts, encoder_pixel_format), accel, encoder_surface,
        encoder_pixel_format)
}

proof fn lemma_apply_videos_push(fs: Seq<VideoFilter>, f: VideoFilter, s: FrameStateView)
    ensures
        apply_videos(fs.push(f), s) == f.spec_apply(apply_videos(fs, s)),
{
    assert(fs.push(f).drop_last() =~= fs);
}

/// Appends video filters to a resolution's list.
fn push_videos(resolved: &mut Vec<PipelineFilter>, state: &mut FrameState, fs: Vec<VideoFilter>)
    ensures
        filter_views(final(resolved)@) == filter_views(old(resolved)@) + wrap_videos(fs@),
        final(state)@ == apply_videos(fs@, old(state)@),
{
    let mut fs = fs;
    let ghost all = fs@;
    let mut i: usize = 0;
    let mut rest: Vec<VideoFilter> = Vec::new();
    // take filters in order
    while fs.len() > 0
        invariant
            all == rest@ + fs@,
            filter_views(resolved@) == filter_views(old(resolved)@) + wrap_videos(rest@),
            state@ == apply_videos(rest@, old(state)@),
        decreases fs.len(),
    {
        let f = fs.remove(0);
        f.apply_to(state);
        proof { lemma_apply_videos_push(rest@, f, old(state)@); }
        let ghost prev = resolved@;
        resolved.push(PipelineFilter::Video(f.duplicate()));
        rest.push(f);
        assert(filter_views(resolved@) =~= filter_views(prev).push(PipelineFilterView::Video(f)));
        assert(wrap_videos(rest@) =~= wrap_videos(rest@.drop_last()).push(PipelineFilterView::Video(f)));
        assert(rest@.drop_last() =~= rest@.subrange(0, rest@.len() - 1));
        assert(all =~= rest@ + fs@);
    }
    assert(rest@ =~= all);
}

/// Moves the frames to the `required` surface when a way is known (see
/// `spec_transfer`); returns whether it did.
fn transfer_surface(accel: &Option<HardwareAccel>, resolved: &mut Vec<PipelineFilter>, state: &mut FrameState,
    required: FrameSurface, encoder_pixel_format: &Option<PixelFormat>, surfaces: &mut SurfaceSet) -> (r: bool)
    requires
        old(surfaces).wf(),
    ensures
        final(surfaces).wf(),
        r == spec_transfer(*accel, old(state)@, required, *encoder_pixel_format).is_some(),
        resolve_state(final(resolved)@, *final(state), *final(surfaces)) == match spec_transfer(*accel, old(state)@, required, *encoder_pixel_format) {
            Some(fs) => with_transfer(resolve_state(old(resolved)@, *old(state), *old(surfaces)), fs),
            None => resolve_state(old(resolved)@, *old(state), *old(surfaces)),
        },
{
    reveal(spec_transfer);
    let ghost s0 = state@;
    let mut fs: Vec<VideoFilter> = Vec::new();
    if required == FrameSurface::System {
        let target = if state.pixel_format.bit_depth() == 10 { PixelFormat::P010le } else { PixelFormat::Nv12 };
        fs.push(VideoFilter::HwDownload(HwDownloadFilter { target_pixel_format: target }));
    } else if state.surface == FrameSurface::System {
        let supported = match accel {
            Some(a) => a.accepts_upload_format(&state.pixel_format),
            None => true,
        };
        let enc_8bit = match encoder_pixel_format {
            Some(pf) => pf.bit_depth() == 8,
            None => false,
        };
        if supported {
            fs.push(VideoFilter::HwUpload(HwUploadFilter { target_surface: required, source_format: state.pixel_format }));
        } else if state.pixel_format.bit_depth() == 10 && enc_8bit {
            fs.push(VideoFilter::Format(FormatFilter { format: PixelFormat::Nv12 }));
            fs.push(VideoFilter::HwUpload(HwUploadFilter { target_surface: required, source_format: PixelFormat::Nv12 }));
        } else {
            return false;
        }
    } else {
        let map = match accel {
            Some(a) => a.hw_map_filter(&state.surface, &required),
            None => None,
        };
        match map {
            Some(m) => fs.push(m),
            None => return false,
        }
    }
    assert(spec_transfer(*accel, s0, required, *encoder_pixel_format) == Some(fs@));
    push_videos(resolved, state, fs);
    surfaces.insert(state.surface);
    true
}

/// Converts the frames to the pixel format (see `spec_convert`).
fn convert_pixel_format(resolved: &mut Vec<PipelineFilter>, state: &mut FrameState, pixel_format: PixelFormat,
    accel: &Option<HardwareAccel>)
    ensures
        filter_views(final(resolved)@) == filter_views(old(resolved)@) + wrap_videos(spec_convert(*accel, old(state)@, pixel_format)),
        final(state)@ == apply_videos(spec_convert(*accel, old(state)@, pixel_format), old(state)@),
{
    reveal(spec_convert);
    let ghost s0 = state@;
    let mut fs: Vec<VideoFilter> = Vec::new();
    if state.surface == FrameSurface::System {
        fs.push(VideoFilter::Format(FormatFilter { format: pixel_format }));
    } else {
        match accel {
            Some(a) => match a.format_filter(&pixel_format) {
                Some(f) => fs.push(f),
                None => {},
            },
            None => {},
        }
    }
    assert(fs@ =~= spec_convert(*accel, s0, pixel_format));
    push_videos(resolved, state, fs);
}

/// Resolves one video filter (see `video_step`).
fn video_step_exec(vf: &VideoFilter, info: &FfmpegInfo, accel: &Option<HardwareAccel>, opts: &VideoFilterOptions,
    encoder_pixel_format: &Option<PixelFormat>, resolved: &mut Vec<PipelineFilter>, state: &mut FrameState,
    surfaces: &mut SurfaceSet)
    requires
        old(surfaces).wf(),
    ensures
        final(surfaces).wf(),
        resolve_state(final(resolved)@, *final(state), *final(surfaces)) == video_step(
            resolve_state(old(resolved)@, *old(state), *old(surfaces)), *vf, *info, *accel, *opts, *encoder_pixel_format),
{
    reveal(video_step);
    let mut best = match accel {
        Some(a) => a.best_filter(vf, info, state, opts),
        None => vf.duplicate(),
    };
    match best.required_surface() {
        Some(req) => {
            if state.surface != req {
                if !transfer_surface(accel, resolved, state, req, encoder_pixel_format, surfaces) {
                    best = vf.duplicate();
                }
            }
        },
        None => {},
    }
    let ghost mid = resolve_state(resolved@, *state, *surfaces);
    best.apply_to(state);
    surfaces.insert(state.surface);
    let ghost prev = resolved@;
    resolved.push(PipelineFilter::Video(best));
    assert(filter_views(resolved@) =~= filter_views(prev).push(PipelineFilterView::Video(best)));
    assert(resolve_state(resolved@, *state, *surfaces) =~= ResolveState {
        filters: mid.filters.push(PipelineFilterView::Video(best)),
        state: best.spec_apply(mid.state),
        surfaces: mid.surfaces.insert(best.spec_apply(mid.state).surface),
    });
}

/// Ends a resolution (see `finish`).
fn finish_exec(accel: &Option<HardwareAccel>, resolved: &mut Vec<PipelineFilter>, state: &mut FrameState,
    surfaces: &mut SurfaceSet, encoder_surface: FrameSurface, encoder_pixel_format: &Option<PixelFormat>)
    requires
        old(surfaces).wf(),
    ensures
        final(surfaces).wf(),
        resolve_state(final(resolved)@, *final(state), *final(surfaces)) == finish(
            resolve_state(old(resolved)@, *old(state), *old(surfaces)), *accel, encoder_surface, *encoder_pixel_format),
{
    reveal(finish);
    if state.surface != encoder_surface {
        transfer_surface(accel, resolved, state, encoder_surface, encoder_pixel_format, surfaces);
    }
    let ghost mid = resolve_state(resolved@, *state, *surfaces);
    match encoder_pixel_format {
        Some(pf) => {
            if state.pixel_format != *pf {
                convert_pixel_format(resolved, state, *pf, accel);
                assert(resolve_state(resolved@, *state, *surfaces) =~= with_convert(mid, spec_convert(*accel, mid.state, *pf)));
            }
        },
        None => {},
    }
}

/// The video filters that stay (see `evaluate_videos`).
fn evaluate_video_list(fs: &Vec<VideoFilter>, initial: &FrameState, info: &FfmpegInfo) -> (r: Vec<VideoFilter>)
    ensures
        r@ == evaluate_videos(fs@, initial@, *info).0,
{
    let mut kept: Vec<VideoFilter> = Vec::new();
    let mut state = initial.duplicate();
    let mut i: usize = 0;
    while i < fs.len()
        invariant
            i <= fs.len(),
            (kept@, state@) == evaluate_videos(fs@.take(i as int), initial@, *info),
        decreases fs.len() - i,
    {
        assert(fs@.take(i as int + 1).drop_last() =~= fs@.take(i as int));
        assert(fs@.take(i as int + 1).last() == fs@[i as int]);
        match fs[i].evaluate(&state, info) {
            Some(nf) => {
                nf.apply_to(&mut state);
                kept.push(nf);
            },
            None => {},
        }
        i = i + 1;
    }
    assert(fs@.take(fs.len() as int) =~= fs@);
    kept
}

/// The video filters among a list of pipeline filters.
fn video_list_of(fs: &Vec<PipelineFilter>) -> (r: Vec<VideoFilter>)
    ensures
        r@ == videos_of(filter_views(fs@)),
{
    let mut r: Vec<VideoFilter> = Vec::new();
    let mut i: usize = 0;
    while i < fs.len()
        invariant
            i <= fs.len(),
            r@ == videos_of(filter_views(fs@.take(i as int))),
        decreases fs.len() - i,
    {
        assert(filter_views(fs@.take(i as int + 1)).drop_last() =~= filter_views(fs@.take(i as int)));
        assert(filter_views(fs@.take(i as int + 1)).last() == fs@[i as int]@);
        match &fs[i] {
            PipelineFilter::Video(v) => r.push(v.duplicate()),
            _ => {},
        }
        i = i + 1;
    }
    assert(fs@.take(fs.len() as int) =~= fs@);
    r
}

/// Resolves a list of video filters (see `spec_resolve_videos`): the filters,
/// the final state and the surfaces met.
fn resolve_video_list(fs: &Vec<VideoFilter>, initial: &FrameState, info: &FfmpegInfo, accel: &Option<HardwareAccel>,
    opts: &VideoFilterOptions, encoder_surface: FrameSurface, encoder_pixel_format: &Option<PixelFormat>)
    -> (r: (Vec<PipelineFilter>, FrameState, SurfaceSet))
    ensures
        r.2.wf(),
        resolve_state(r.0@, r.1, r.2) == spec_resolve_videos(fs@, initial@, *info, *accel, *opts, encoder_surface,
            *encoder_pixel_format),
{
    let mut resolved: Vec<PipelineFilter> = Vec::new();
    let mut state = initial.duplicate();
    let mut surfaces = SurfaceSet::new();
    assert(resolve_state(resolved@, state, surfaces) =~= start(initial@));
    let mut i: usize = 0;
    while i < fs.len()
        invariant
            i <= fs.len(),
            surfaces.wf(),
            resolve_state(resolved@, state, surfaces) == resolve_videos_from(start(initial@), fs@.take(i as int), *info,
                *accel, *opts, *encoder_pixel_format),
        decreases fs.len() - i,
    {
        assert(fs@.take(i as int + 1).drop_last() =~= fs@.take(i as int));
        assert(fs@.take(i as int + 1).last() == fs@[i as int]);
        video_step_exec(&fs[i], info, accel, opts, encoder_pixel_format, &mut resolved, &mut state, &mut surfaces);
        i = i + 1;
    }
    assert(fs@.take(fs.len() as int) =~= fs@);
    finish_exec(accel, &mut resolved, &mut state, &mut surfaces, encoder_surface, encoder_pixel_format);
    (resolved, state, surfaces)
}

/// Resolves one overlay (see `overlay_step`).
#[verifier::rlimit(60)]
fn overlay_step_exec(o: &OverlayFilter, info: &FfmpegInfo, accel: &Option<HardwareAccel>, opts: &VideoFilterOptions,
    encoder_pixel_format: &Option<PixelFormat>, resolved: &mut Vec<PipelineFilter>, state: &mut FrameState,
    surfaces: &mut SurfaceSet)
    requires
        old(surfaces).wf(),
    ensures
        final(surfaces).wf(),
        resolve_state(final(resolved)@, *final(state), *final(surfaces)) == overlay_step(
            resolve_state(old(resolved)@, *old(state), *old(surfaces)), o@, *info, *accel, *opts, *encoder_pixel_format),
{
    reveal(overlay_step);
    let ghost acc0 = resolve_state(resolved@, *state, *surfaces);
    let mut best = match accel {
        Some(a) => a.best_overlay(o, info, state),
        None => o.duplicate(),
    };
    let main_req = best.kind.main_input_state(state);
    if state.surface != main_req.surface {
        transfer_surface(accel, resolved, state, main_req.surface, encoder_pixel_format, surfaces);
    }
    let ghost acc1 = resolve_state(resolved@, *state, *surfaces);
    assert(acc1 == transfer_if_needed(acc0, *accel, main_req@.surface, *encoder_pixel_format));
    if state.pixel_format != main_req.pixel_format {
        convert_pixel_format(resolved, state, main_req.pixel_format, accel);
        assert(resolve_state(resolved@, *state, *surfaces) =~= with_convert(acc1, spec_convert(*accel, acc1.state, main_req@.pixel_format)));
    }
    let ghost acc2 = resolve_state(resolved@, *state, *surfaces);
    assert(acc2 == convert_if_needed(acc1, *accel, main_req@.pixel_format));
    let sec_req = best.kind.secondary_input_state(state);
    let sec_filters = evaluate_video_list(&best.secondary, &best.secondary_initial_state, info);
    let none: Option<HardwareAccel> = None;
    let sec_accel = if sec_req.surface == FrameSurface::System { &none } else { accel };
    let (sec_resolved, _sec_state, sec_surfaces) = resolve_video_list(&sec_filters, &best.secondary_initial_state, info,
        sec_accel, opts, sec_req.surface, &Some(sec_req.pixel_format));
    best.secondary = video_list_of(&sec_resolved);
    surfaces.extend(&sec_surfaces);
    best.kind.apply_to(state);
    surfaces.insert(state.surface);
    let ghost prev = resolved@;
    let ghost bv = best@;
    resolved.push(PipelineFilter::Overlay(best));
    assert(filter_views(resolved@) =~= filter_views(prev).push(PipelineFilterView::Overlay(bv)));
    assert(resolve_state(resolved@, *state, *surfaces) =~= overlay_step(acc0, o@, *info, *accel, *opts, *encoder_pixel_format));
}

/// The pipeline filters that stay when frames start in state `s`: audio filters
/// always, video filters as they evaluate, overlays always (changing the state).
pub open spec fn evaluate_chain(fs: Seq<PipelineFilterView>, s: FrameStateView, info: FfmpegInfo) -> (Seq<PipelineFilterView>, FrameStateView)
    decreases fs.len(),
{
    if fs.len() == 0 {
        (seq![], s)
    } else {
        let (kept, st) = evaluate_chain(fs.drop_last(), s, info);
        match fs.last() {
            PipelineFilterView::Audio(a) => (kept.push(PipelineFilterView::Audio(a)), st),
            PipelineFilterView::Video(vf) => match vf.spec_evaluate(st, info) {
                Some(nf) => (kept.push(PipelineFilterView::Video(nf)), nf.spec_apply(st)),
                None => (kept, st),
            },
            PipelineFilterView::Overlay(o) => (kept.push(PipelineFilterView::Overlay(o)), o.kind.spec_apply(st)),
        }
    }
}

/// The filters that are not audio filters.
pub open spec fn without_audio(fs: Seq<PipelineFilterView>) -> Seq<PipelineFilterView>
    decreases fs.len(),
{
    if fs.len() == 0 {
        seq![]
    } else if fs.last() is Audio {
        without_audio(fs.drop_last())
    } else {
        without_audio(fs.drop_last()).push(fs.last())
    }
}

/// The filters that are not video filters.
pub open spec fn without_video(fs: Seq<PipelineFilterView>) -> Seq<PipelineFilterView>
    decreases fs.len(),
{
    if fs.len() == 0 {
        seq![]
    } else if fs.last() is Video {
        without_video(fs.drop_last())
    } else {
        without_video(fs.drop_last()).push(fs.last())
    }
}

/// Whether a filter is a software tonemap.
pub open spec fn is_tonemap(f: PipelineFilterView) -> bool {
    f matches PipelineFilterView::Video(VideoFilter::ToneMap(_))
}

/// The position of the first software tonemap filter, if any.
pub open spec fn first_tonemap(fs: Seq<PipelineFilterView>) -> Option<int> {
    if exists|i: int| 0 <= i < fs.len() && #[trigger] is_tonemap(fs[i]) {
        Some(choose|i: int| 0 <= i < fs.len() && #[trigger] is_tonemap(fs[i])
            && forall|j: int| 0 <= j < i ==> !is_tonemap(#[trigger] fs[j]))
    } else {
        None
    }
}

/// The filters with a software scale that directly follows the first software
/// tonemap moved before it, so that fewer pixels are tonemapped.
pub open spec fn spec_optimize(fs: Seq<PipelineFilterView>) -> Seq<PipelineFilterView> {
    match first_tonemap(fs) {
        Some(i) => if i + 1 < fs.len() && (fs[i + 1] matches PipelineFilterView::Video(VideoFilter::Scale(_))) {
            fs.update(i, fs[i + 1]).update(i + 1, fs[i])
        } else {
            fs
        },
        None => fs,
    }
}


/// The texts of the audio filters that have one.
pub open spec fn audio_args(fs: Seq<PipelineFilterView>) -> Seq<Seq<char>>
    decreases fs.len(),
{
    if fs.len() == 0 {
        seq![]
    } else {
        let r = audio_args(fs.drop_last());
        match fs.last() {
            PipelineFilterView::Audio(a) => match a.spec_arg() {
                Some(t) => r.push(t),
                None => r,
            },
            _ => r,
        }
    }
}

/// The texts of the video filters that have one.
pub open spec fn video_args(fs: Seq<VideoFilter>) -> Seq<Seq<char>>
    decreases fs.len(),
{
    if fs.len() == 0 {
        seq![]
    } else {
        let r = video_args(fs.drop_last());
        match fs.last().spec_arg() {
            Some(t) => r.push(t),
            None => r,
        }
    }
}

/// Whether some filter is an audio filter.
pub open spec fn has_audio(fs: Seq<PipelineFilterView>) -> bool {
    exists|i: int| 0 <= i < fs.len() && #[trigger] fs[i] is Audio
}

/// Whether some filter is a video filter or an overlay.
pub open spec fn has_video(fs: Seq<PipelineFilterView>) -> bool {
    exists|i: int| 0 <= i < fs.len() && !(#[trigger] fs[i] is Audio)
}

/// `[FROM]A,B,...[TO]`: a chain of the filter graph.
pub open spec fn flush_chain(from: Seq<char>, pending: Seq<Seq<char>>, to: Seq<char>) -> Seq<char> {
    "["@ + from + "]"@ + join(pending, ","@) + "["@ + to + "]"@
}

/// Where building the video part of a filter graph stands: the label of the
/// current input, the filter texts not yet in a chain, the number of overlays so
/// far, and the chains.
pub struct BuildState {
    pub current_in: Seq<char>,
    pub pending: Seq<Seq<char>>,
    pub n: nat,
    pub chains: Seq<Seq<char>>,
}

/// One filter of the video part: a video filter's text waits for its chain; an
/// overlay whose input has a label closes the pending chain (into `v_mN`), gives
/// the overlaid input its own chain (into `v_sN`) when its filters have texts,
/// and overlays the two into `v_oN`; other filters change nothing.
pub open spec fn build_step(st: BuildState, f: PipelineFilterView, subtitle_label: Option<Seq<char>>,
    watermark_label: Option<Seq<char>>) -> BuildState {
    match f {
        PipelineFilterView::Video(v) => match v.spec_arg() {
            Some(a) => BuildState { pending: st.pending.push(a), ..st },
            None => st,
        },
        PipelineFilterView::Overlay(o) => {
            let sec_label = match o.secondary_source {
                OverlaySource::Subtitle => subtitle_label,
                OverlaySource::Watermark => watermark_label,
            };
            match sec_label {
                None => st,
                Some(sec_in) => {
                    let main_label = "v_m"@ + dec(st.n);
                    let chains1 = if st.pending.len() > 0 { st.chains.push(flush_chain(st.current_in, st.pending, main_label)) } else { st.chains };
                    let cur1 = if st.pending.len() > 0 { main_label } else { st.current_in };
                    let sec_args = video_args(o.secondary);
                    let sec_chain_label = "v_s"@ + dec(st.n);
                    let chains2 = if sec_args.len() == 0 { chains1 } else { chains1.push(flush_chain(sec_in, sec_args, sec_chain_label)) };
                    let sec_ref = if sec_args.len() == 0 { sec_in } else { sec_chain_label };
                    let out_label = "v_o"@ + dec(st.n);
                    let chains3 = match o.kind.spec_arg(o.location) {
                        Some(arg) => chains2.push("["@ + cur1 + "]["@ + sec_ref + "]"@ + arg + "["@ + out_label + "]"@),
                        None => chains2,
                    };
                    BuildState { current_in: out_label, pending: seq![], n: st.n + 1, chains: chains3 }
                },
            }
        },
        PipelineFilterView::Audio(_) => st,
    }
}

/// The filters taken one after the other.
pub open spec fn build_from(st: BuildState, fs: Seq<PipelineFilterView>, subtitle_label: Option<Seq<char>>,
    watermark_label: Option<Seq<char>>) -> BuildState
    decreases fs.len(),
{
    if fs.len() == 0 {
        st
    } else {
        build_step(build_from(st, fs.drop_last(), subtitle_label, watermark_label), fs.last(), subtitle_label, watermark_label)
    }
}

/// The filter graph of the chain: the audio label, the video label and the
/// graph's text. Audio filters make one chain from the audio input into `[a]`;
/// the video filters and overlays make chains from the video input, the last
/// ending in `[v]` when filters wait for it.
pub open spec fn spec_build(fs: Seq<PipelineFilterView>, audio_label: Seq<char>, video_label: Seq<char>,
    subtitle_label: Option<Seq<char>>, watermark_label: Option<Seq<char>>) -> (Seq<char>, Seq<char>, Seq<char>) {
    let audio_chains = if has_audio(fs) { seq!["["@ + audio_label + "]"@ + join(audio_args(fs), ","@) + "[a]"@] } else { seq![] };
    let a_label = if has_audio(fs) { "[a]"@ } else { audio_label };
    if has_video(fs) {
        let st = build_from(BuildState { current_in: video_label, pending: seq![], n: 0, chains: audio_chains }, fs,
            subtitle_label, watermark_label);
        if st.pending.len() > 0 {
            (a_label, "[v]"@, join(st.chains.push(flush_chain(st.current_in, st.pending, "v"@)), ";"@))
        } else {
            (a_label, "["@ + st.current_in + "]"@, join(st.chains, ";"@))
        }
    } else {
        (a_label, video_label, join(audio_chains, ";"@))
    }
}

/// The label of the input an overlay lays over the main video, if any.
pub open spec fn overlay_input(o: OverlayFilterView, subtitle_label: Option<Seq<char>>,
    watermark_label: Option<Seq<char>>) -> Option<Seq<char>> {
    match o.secondary_source {
        OverlaySource::Subtitle => subtitle_label,
        OverlaySource::Watermark => watermark_label,
    }
}

/// An overlay lays its input over the main video, not the other way round: the
/// chain it adds takes first the main video (as it stands after the filters
/// waiting before the overlay, which get a chain of their own from the current
/// label), then the overlaid input (after its own filters, when they have
/// texts), and its output is the video's new label, with nothing left waiting.
pub proof fn law_overlay_lays_input_over_main_video(st: BuildState, o: OverlayFilterView,
    subtitle_label: Option<Seq<char>>, watermark_label: Option<Seq<char>>)
    requires
        overlay_input(o, subtitle_label, watermark_label) is Some,
        o.kind.spec_arg(o.location) is Some,
    ensures
        ({
            let st2 = build_step(st, PipelineFilterView::Overlay(o), subtitle_label, watermark_label);
            let sec_in = overlay_input(o, subtitle_label, watermark_label).unwrap();
            let arg = o.kind.spec_arg(o.location).unwrap();
            let sec_args = video_args(o.secondary);
            &&& st2.pending.len() == 0
            &&& exists|m: Seq<char>, sl: Seq<char>| {
                &&& st2.chains.len() > 0
                &&& #[trigger] st2.chains.last() == "["@ + m + "]["@ + sl + "]"@ + arg + "["@ + st2.current_in + "]"@
                &&& (st.pending.len() == 0 ==> m == st.current_in)
                &&& (st.pending.len() > 0 ==> st2.chains.len() > st.chains.len()
                    && st2.chains[st.chains.len() as int] == "["@ + st.current_in + "]"@ + join(st.pending, ","@) + "["@ + m + "]"@)
                &&& (sec_args.len() == 0 ==> sl == sec_in)
                &&& (sec_args.len() > 0 ==> st2.chains.len() >= 2
                    && st2.chains[st2.chains.len() - 2] == "["@ + sec_in + "]"@ + join(sec_args, ","@) + "["@ + sl + "]"@)
            }
        }),
{
    let sec_in = overlay_input(o, subtitle_label, watermark_label).unwrap();
    let main_label = "v_m"@ + dec(st.n);
    let m = if st.pending.len() > 0 { main_label } else { st.current_in };
    let sec_args = video_args(o.secondary);
    let sl = if sec_args.len() == 0 { sec_in } else { "v_s"@ + dec(st.n) };
    let st2 = build_step(st, PipelineFilterView::Overlay(o), subtitle_label, watermark_label);
    let arg = o.kind.spec_arg(o.location).unwrap();
    assert(st2.chains.last() == "["@ + m + "]["@ + sl + "]"@ + arg + "["@ + st2.current_in + "]"@);
}

/// The view of an optional string slice.
pub open spec fn opt_label(o: Option<&String>) -> Option<Seq<char>> {
    match o {
        Some(s) => Some(s@),
        None => None,
    }
}

fn audio_arg_list(fs: &Vec<PipelineFilter>) -> (r: Vec<String>)
    ensures
        views(r@) == audio_args(filter_views(fs@)),
{
    let mut r: Vec<String> = Vec::new();
    let ghost all = filter_views(fs@);
    let mut i: usize = 0;
    while i < fs.len()
        invariant
            i <= fs.len(),
            all == filter_views(fs@),
            views(r@) == audio_args(all.take(i as int)),
        decreases fs.len() - i,
    {
        assert(all.take(i as int + 1).drop_last() =~= all.take(i as int));
        assert(all.take(i as int + 1).last() == fs@[i as int]@);
        match &fs[i] {
            PipelineFilter::Audio(a) => match a.as_arg() {
                Some(t) => {
                    let ghost prev = r@;
                    r.push(t);
                    assert(views(r@) =~= views(prev).push(t@));
                },
                None => {},
            },
            _ => {},
        }
        i = i + 1;
    }
    assert(all.take(i as int) =~= all);
    r
}

fn video_arg_list(fs: &Vec<VideoFilter>) -> (r: Vec<String>)
    ensures
        views(r@) == video_args(fs@),
{
    let mut r: Vec<String> = Vec::new();
    let mut i: usize = 0;
    while i < fs.len()
        invariant
            i <= fs.len(),
            views(r@) == video_args(fs@.take(i as int)),
        decreases fs.len() - i,
    {
        assert(fs@.take(i as int + 1).drop_last() =~= fs@.take(i as int));
        assert(fs@.take(i as int + 1).last() == fs@[i as int]);
        match fs[i].as_arg() {
            Some(t) => {
                let ghost prev = r@;
                r.push(t);
                assert(views(r@) =~= views(prev).push(t@));
            },
            None => {},
        }
        i = i + 1;
    }
    assert(fs@.take(i as int) =~= fs@);
    r
}

fn any_audio(fs: &Vec<PipelineFilter>) -> (r: bool)
    ensures
        r == has_audio(filter_views(fs@)),
{
    let mut i: usize = 0;
    while i < fs.len()
        invariant
            i <= fs.len(),
            forall|j: int| 0 <= j < i ==> !(#[trigger] filter_views(fs@)[j] is Audio),
        decreases fs.len() - i,
    {
        if matches!(fs[i], PipelineFilter::Audio(_)) {
            assert(filter_views(fs@)[i as int] is Audio);
            return true;
        }
        i = i + 1;
    }
    false
}

fn any_video(fs: &Vec<PipelineFilter>) -> (r: bool)
    ensures
        r == has_video(filter_views(fs@)),
{
    let mut i: usize = 0;
    while i < fs.len()
        invariant
            i <= fs.len(),
            forall|j: int| 0 <= j < i ==> #[trigger] filter_views(fs@)[j] is Audio,
        decreases fs.len() - i,
    {
        if !matches!(fs[i], PipelineFilter::Audio(_)) {
            assert(!(filter_views(fs@)[i as int] is Audio));
            return true;
        }
        i = i + 1;
    }
    false
}

/// Appends `[FROM]A,B,...[TO]` to the chains.
fn push_chain(chains: &mut Vec<String>, from: &str, pending: &Vec<String>, to: &str)
    ensures
        views(final(chains)@) == views(old(chains)@).push(flush_chain(from@, views(pending@), to@)),
{
    let mut c = "[".to_owned();
    c.append(from);
    c.append("]");
    let j = join_strings(pending, ",");
    c.append(j.as_str());
    c.append("[");
    c.append(to);
    c.append("]");
    let ghost prev = chains@;
    chains.push(c);
    assert(views(chains@) =~= views(prev).push(c@));
}

/// A label made of a prefix and a number.
fn numbered(prefix: &str, n: usize) -> (r: String)
    ensures
        r@ == prefix@ + dec(n as nat),
{
    let mut r = prefix.to_owned();
    let d = u64_to_string(n as u64);
    r.append(d.as_str());
    r
}

/// The build state of exec values.
pub open spec fn build_state(current_in: String, pending: Seq<String>, n: usize, chains: Seq<String>) -> BuildState {
    BuildState { current_in: current_in@, pending: views(pending), n: n as nat, chains: views(chains) }
}

/// One filter of the video part (see `build_step`).
fn build_step_exec(f: &PipelineFilter, subtitle_label: Option<&String>, watermark_label: Option<&String>,
    current_in: &mut String, pending: &mut Vec<String>, n: &mut usize, chains: &mut Vec<String>)
    requires
        *old(n) < usize::MAX,
    ensures
        build_state(*final(current_in), final(pending)@, *final(n), final(chains)@) == build_step(
            build_state(*old(current_in), old(pending)@, *old(n), old(chains)@), f@, opt_label(subtitle_label),
            opt_label(watermark_label)),
        *final(n) <= *old(n) + 1,
{
    match f {
        PipelineFilter::Video(v) => {
            match v.as_arg() {
                Some(a) => {
                    let ghost prev = pending@;
                    pending.push(a);
                    assert(views(pending@) =~= views(prev).push(a@));
                },
                None => {},
            }
        },
        PipelineFilter::Overlay(o) => {
            let sec_label = match o.secondary_source {
                OverlaySource::Subtitle => subtitle_label,
                OverlaySource::Watermark => watermark_label,
            };
            match sec_label {
                None => {},
                Some(sec_in) => {
                    let main_label = numbered("v_m", *n);
                    if pending.len() > 0 {
                        push_chain(chains, current_in.as_str(), pending, main_label.as_str());
                        *current_in = main_label;
                    }
                    let sec_args = video_arg_list(&o.secondary);
                    let sec_chain_label = numbered("v_s", *n);
                    let sec_ref = if sec_args.len() == 0 {
                        sec_in.clone()
                    } else {
                        push_chain(chains, sec_in.as_str(), &sec_args, sec_chain_label.as_str());
                        sec_chain_label
                    };
                    let out_label = numbered("v_o", *n);
                    match o.kind.as_arg(o.location) {
                        Some(arg) => {
                            let mut c = "[".to_owned();
                            c.append(current_in.as_str());
                            c.append("][");
                            c.append(sec_ref.as_str());
                            c.append("]");
                            c.append(arg.as_str());
                            c.append("[");
                            c.append(out_label.as_str());
                            c.append("]");
                            let ghost prev = chains@;
                            chains.push(c);
                            assert(views(chains@) =~= views(prev).push(c@));
                        },
                        None => {},
                    }
                    *current_in = out_label;
                    *pending = Vec::new();
                    assert(views(pending@) =~= Seq::<Seq<char>>::empty());
                    *n = *n + 1;
                },
            }
        },
        PipelineFilter::Audio(_) => {},
    }
}


/// The state after a list of pipeline filters, applied in order: video filters
/// and overlays change it, audio filters do not.
pub open spec fn apply_chain(fs: Seq<PipelineFilterView>, s: FrameStateView) -> FrameStateView
    decreases fs.len(),
{
    if fs.len() == 0 {
        s
    } else {
        let prev = apply_chain(fs.drop_last(), s);
        match fs.last() {
            PipelineFilterView::Video(v) => v.spec_apply(prev),
            PipelineFilterView::Overlay(o) => o.kind.spec_apply(prev),
            PipelineFilterView::Audio(_) => prev,
        }
    }
}

proof fn lemma_apply_chain_videos(a: Seq<PipelineFilterView>, fs: Seq<VideoFilter>, s: FrameStateView)
    ensures
        apply_chain(a + wrap_videos(fs), s) == apply_videos(fs, apply_chain(a, s)),
    decreases fs.len(),
{
    if fs.len() == 0 {
        assert(a + wrap_videos(fs) =~= a);
    } else {
        lemma_apply_chain_videos(a, fs.drop_last(), s);
        assert((a + wrap_videos(fs)).drop_last() =~= a + wrap_videos(fs.drop_last()));
        assert((a + wrap_videos(fs)).last() == PipelineFilterView::Video(fs.last()));
    }
}

proof fn lemma_push_last(fs: Seq<PipelineFilterView>, f: PipelineFilterView)
    ensures
        fs.push(f).drop_last() == fs,
        fs.push(f).last() == f,
{
    assert(fs.push(f).drop_last() =~= fs);
}

/// Transfer filters lead to the surface they were picked for.
pub proof fn law_transfer_reaches_surface(accel: Option<HardwareAccel>, s: FrameStateView, required: FrameSurface,
    encoder_pixel_format: Option<PixelFormat>)
    ensures
        spec_transfer(accel, s, required, encoder_pixel_format) matches Some(fs) ==> apply_videos(fs, s).surface == required,
{
    reveal(spec_transfer);
    reveal_with_fuel(apply_videos, 3);
    if let Some(fs) = spec_transfer(accel, s, required, encoder_pixel_format) {
        if required != FrameSurface::System && s.surface != FrameSurface::System {
            let a = accel.unwrap();
            assert(a is Vaapi);
        }
    }
}

/// A conversion on system memory, or with an accel that has a format filter,
/// gives the pixel format asked for.
pub proof fn law_convert_reaches_format(accel: Option<HardwareAccel>, s: FrameStateView, pf: PixelFormat)
    requires
        s.surface == FrameSurface::System || (accel matches Some(a) && a.spec_format_filter(pf).is_some()),
    ensures
        apply_videos(spec_convert(accel, s, pf), s).pixel_format == pf,
{
    reveal(spec_convert);
    reveal_with_fuel(apply_videos, 2);
}

/// Ending a resolution puts the frames on the encoder's surface unless no
/// transfer there is known; and then, when a pixel format is asked for and the
/// frames are on system memory or the accel has a format filter, in that format.
pub proof fn law_finish_meets_encoder(acc: ResolveState, accel: Option<HardwareAccel>, encoder_surface: FrameSurface,
    encoder_pixel_format: Option<PixelFormat>)
    ensures
        ({
            let mid = transfer_if_needed(acc, accel, encoder_surface, encoder_pixel_format);
            &&& mid.state.surface == encoder_surface || spec_transfer(accel, acc.state, encoder_surface, encoder_pixel_format).is_none()
            &&& (encoder_pixel_format matches Some(pf) && (mid.state.surface == FrameSurface::System
                || (accel matches Some(a) && a.spec_format_filter(pf).is_some())))
                ==> finish(acc, accel, encoder_surface, encoder_pixel_format).state.pixel_format == encoder_pixel_format.unwrap()
        }),
{
    reveal(finish);
    law_transfer_reaches_surface(accel, acc.state, encoder_surface, encoder_pixel_format);
    let mid = transfer_if_needed(acc, accel, encoder_surface, encoder_pixel_format);
    if let Some(pf) = encoder_pixel_format {
        if mid.state.surface == FrameSurface::System || (accel matches Some(a) && a.spec_format_filter(pf).is_some()) {
            law_convert_reaches_format(accel, mid.state, pf);
        }
    }
}

proof fn lemma_tracked_transfer(acc: ResolveState, accel: Option<HardwareAccel>, required: FrameSurface,
    encoder_pixel_format: Option<PixelFormat>, initial: FrameStateView)
    requires
        apply_chain(acc.filters, initial) == acc.state,
    ensures
        apply_chain(transfer_if_needed(acc, accel, required, encoder_pixel_format).filters, initial)
            == transfer_if_needed(acc, accel, required, encoder_pixel_format).state,
{
    if acc.state.surface != required {
        if let Some(fs) = spec_transfer(accel, acc.state, required, encoder_pixel_format) {
            lemma_apply_chain_videos(acc.filters, fs, initial);
        }
    }
}

proof fn lemma_tracked_convert(acc: ResolveState, accel: Option<HardwareAccel>, pf: PixelFormat, initial: FrameStateView)
    requires
        apply_chain(acc.filters, initial) == acc.state,
    ensures
        apply_chain(convert_if_needed(acc, accel, pf).filters, initial) == convert_if_needed(acc, accel, pf).state,
{
    if acc.state.pixel_format != pf {
        lemma_apply_chain_videos(acc.filters, spec_convert(accel, acc.state, pf), initial);
    }
}

proof fn lemma_tracked_finish(acc: ResolveState, accel: Option<HardwareAccel>, encoder_surface: FrameSurface,
    encoder_pixel_format: Option<PixelFormat>, initial: FrameStateView)
    requires
        apply_chain(acc.filters, initial) == acc.state,
    ensures
        apply_chain(finish(acc, accel, encoder_surface, encoder_pixel_format).filters, initial)
            == finish(acc, accel, encoder_surface, encoder_pixel_format).state,
{
    reveal(finish);
    lemma_tracked_transfer(acc, accel, encoder_surface, encoder_pixel_format, initial);
    if let Some(pf) = encoder_pixel_format {
        lemma_tracked_convert(transfer_if_needed(acc, accel, encoder_surface, encoder_pixel_format), accel, pf, initial);
    }
}

proof fn lemma_tracked_step(acc: ResolveState, f: PipelineFilterView, info: FfmpegInfo, accel: Option<HardwareAccel>,
    opts: VideoFilterOptions, encoder_pixel_format: Option<PixelFormat>, initial: FrameStateView)
    requires
        apply_chain(acc.filters, initial) == acc.state,
    ensures
        apply_chain(chain_step(acc, f, info, accel, opts, encoder_pixel_format).filters, initial)
            == chain_step(acc, f, info, accel, opts, encoder_pixel_format).state,
{
    match f {
        PipelineFilterView::Video(vf) => {
            reveal(video_step);
            let best0 = accel_best_filter(accel, vf, info, acc.state, opts);
            let (acc1, best) = match best0.spec_required() {
                Some(req) => if acc.state.surface != req {
                    match spec_transfer(accel, acc.state, req, encoder_pixel_format) {
                        Some(fs) => (with_transfer(acc, fs), best0),
                        None => (acc, vf),
                    }
                } else {
                    (acc, best0)
                },
                None => (acc, best0),
            };
            if let Some(req) = best0.spec_required() {
                if acc.state.surface != req {
                    if let Some(fs) = spec_transfer(accel, acc.state, req, encoder_pixel_format) {
                        lemma_apply_chain_videos(acc.filters, fs, initial);
                    }
                }
            }
            assert(apply_chain(acc1.filters, initial) == acc1.state);
            lemma_push_last(acc1.filters, PipelineFilterView::Video(best));
            assert(video_step(acc, vf, info, accel, opts, encoder_pixel_format).filters == acc1.filters.push(PipelineFilterView::Video(best)));
        },
        PipelineFilterView::Audio(_) => {
            lemma_push_last(acc.filters, f);
        },
        PipelineFilterView::Overlay(o) => {
            reveal(overlay_step);
            let best = accel_best_overlay(accel, o, info, acc.state);
            let main_req = best.kind.spec_main_input(acc.state);
            lemma_tracked_transfer(acc, accel, main_req.surface, encoder_pixel_format, initial);
            let acc1 = transfer_if_needed(acc, accel, main_req.surface, encoder_pixel_format);
            lemma_tracked_convert(acc1, accel, main_req.pixel_format, initial);
            let acc2 = convert_if_needed(acc1, accel, main_req.pixel_format);
            let out = overlay_step(acc, o, info, accel, opts, encoder_pixel_format);
            lemma_push_last(acc2.filters, out.filters.last());
            assert(out.filters == acc2.filters.push(out.filters.last()));
        },
    }
}

proof fn lemma_tracked_chain(acc: ResolveState, fs: Seq<PipelineFilterView>, info: FfmpegInfo, accel: Option<HardwareAccel>,
    opts: VideoFilterOptions, encoder_pixel_format: Option<PixelFormat>, initial: FrameStateView)
    requires
        apply_chain(acc.filters, initial) == acc.state,
    ensures
        apply_chain(resolve_chain_from(acc, fs, info, accel, opts, encoder_pixel_format).filters, initial)
            == resolve_chain_from(acc, fs, info, accel, opts, encoder_pixel_format).state,
    decreases fs.len(),
{
    if fs.len() > 0 {
        lemma_tracked_chain(acc, fs.drop_last(), info, accel, opts, encoder_pixel_format, initial);
        lemma_tracked_step(resolve_chain_from(acc, fs.drop_last(), info, accel, opts, encoder_pixel_format), fs.last(),
            info, accel, opts, encoder_pixel_format, initial);
    }
}

/// The state a resolution ends in is what its filters do to the initial state:
/// video filters and overlays in order, transfers and conversions included.
pub proof fn law_resolve_tracks_state(fs: Seq<PipelineFilterView>, initial: FrameStateView, info: FfmpegInfo,
    accel: Option<HardwareAccel>, opts: VideoFilterOptions, encoder_surface: FrameSurface,
    encoder_pixel_format: Option<PixelFormat>)
    ensures
        apply_chain(spec_resolve(fs, initial, info, accel, opts, encoder_surface, encoder_pixel_format).filters, initial)
            == spec_resolve(fs, initial, info, accel, opts, encoder_surface, encoder_pixel_format).state,
{
    lemma_tracked_chain(start(initial), fs, info, accel, opts, encoder_pixel_format, initial);
    lemma_tracked_finish(resolve_chain_from(start(initial), fs, info, accel, opts, encoder_pixel_format), accel,
        encoder_surface, encoder_pixel_format, initial);
}

/// A resolution ends on the encoder's surface unless no transfer there is known
/// from where the filters left the frames; and in the encoder's pixel format
/// when one is asked for and the frames are then on system memory or the accel
/// has a format filter.
pub proof fn law_resolve_meets_encoder(fs: Seq<PipelineFilterView>, initial: FrameStateView, info: FfmpegInfo,
    accel: Option<HardwareAccel>, opts: VideoFilterOptions, encoder_surface: FrameSurface,
    encoder_pixel_format: Option<PixelFormat>)
    ensures
        ({
            let acc = resolve_chain_from(start(initial), fs, info, accel, opts, encoder_pixel_format);
            let mid = transfer_if_needed(acc, accel, encoder_surface, encoder_pixel_format);
            let out = spec_resolve(fs, initial, info, accel, opts, encoder_surface, encoder_pixel_format);
            &&& mid.state.surface == encoder_surface || spec_transfer(accel, acc.state, encoder_surface, encoder_pixel_format).is_none()
            &&& (encoder_pixel_format matches Some(pf) && (mid.state.surface == FrameSurface::System
                || (accel matches Some(a) && a.spec_format_filter(pf).is_some())))
                ==> out.state.pixel_format == encoder_pixel_format.unwrap()
        }),
{
    let acc = resolve_chain_from(start(initial), fs, info, accel, opts, encoder_pixel_format);
    law_finish_meets_encoder(acc, accel, encoder_surface, encoder_pixel_format);
}

/// Mapping frames from one hardware surface to another and back leaves them as
/// they were.
pub proof fn law_hw_map_round_trip(accel: HardwareAccel, from: FrameSurface, to: FrameSurface, s: FrameStateView)
    requires
        s.surface == from,
        accel.spec_hw_map_filter(from, to).is_some(),
        accel.spec_hw_map_filter(to, from).is_some(),
    ensures
        accel.spec_hw_map_filter(to, from).unwrap().spec_apply(accel.spec_hw_map_filter(from, to).unwrap().spec_apply(s)) == s,
{
}

/// Moving frames to system memory keeps their bit depth: 8-bit frames come
/// down as 8-bit frames and 10-bit frames as 10-bit ones, on system memory,
/// with their size and everything else as it was. (Deeper frames, 16-bit p016,
/// come down as 8-bit nv12.)
pub proof fn law_download_keeps_bit_depth(accel: Option<HardwareAccel>, s: FrameStateView,
    encoder_pixel_format: Option<PixelFormat>)
    requires
        s.pixel_format.spec_bit_depth() <= 10,
    ensures
        spec_transfer(accel, s, FrameSurface::System, encoder_pixel_format) matches Some(fs) && fs.len() == 1 && ({
            let t = fs[0].spec_apply(s);
            &&& t.surface == FrameSurface::System
            &&& t.pixel_format.spec_bit_depth() == s.pixel_format.spec_bit_depth()
            &&& t == FrameStateView { surface: t.surface, pixel_format: t.pixel_format, ..s }
        }),
{
    reveal(spec_transfer);
}

/// A chain of filters and, once built, its filter graph.
pub struct FilterChain {
    pub filters: Vec<PipelineFilter>,
    pub surfaces: SurfaceSet,
    pub audio_label: String,
    pub video_label: String,
    pub complex_filter: String,
}

impl FilterChain {
    pub open spec fn wf(&self) -> bool {
        self.surfaces.wf()
    }

    pub open spec fn filters_view(&self) -> Seq<PipelineFilterView> {
        filter_views(self.filters@)
    }

    /// A chain of the filters, with nothing built yet.
    pub fn new(filters: Vec<PipelineFilter>) -> (r: FilterChain)
        ensures
            r.wf(),
            r.filters@ == filters@,
            r.surfaces@ == Set::<FrameSurface>::empty(),
            r.audio_label@ == Seq::<char>::empty(),
            r.video_label@ == Seq::<char>::empty(),
            r.complex_filter@ == Seq::<char>::empty(),
    {
        FilterChain {
            filters,
            surfaces: SurfaceSet::new(),
            audio_label: String::new(),
            video_label: String::new(),
            complex_filter: String::new(),
        }
    }

    /// Drops all audio filters.
    pub fn disable_audio(&mut self)
        ensures
            final(self).filters_view() == without_audio(old(self).filters_view()),
            final(self).surfaces == old(self).surfaces,
            final(self).audio_label == old(self).audio_label,
            final(self).video_label == old(self).video_label,
            final(self).complex_filter == old(self).complex_filter,
    {
        let mut kept: Vec<PipelineFilter> = Vec::new();
        let ghost all = filter_views(self.filters@);
        let mut i: usize = 0;
        while i < self.filters.len()
            invariant
                i <= self.filters.len(),
                all == filter_views(self.filters@),
                filter_views(kept@) == without_audio(all.take(i as int)),
            decreases self.filters.len() - i,
        {
            assert(all.take(i as int + 1).drop_last() =~= all.take(i as int));
            assert(all.take(i as int + 1).last() == self.filters@[i as int]@);
            if !matches!(self.filters[i], PipelineFilter::Audio(_)) {
                let f = self.filters[i].duplicate();
                let ghost prev = kept@;
                kept.push(f);
                assert(filter_views(kept@) =~= filter_views(prev).push(f@));
            }
            i = i + 1;
        }
        assert(all.take(i as int) =~= all);
        self.filters = kept;
    }

    /// Drops all video filters.
    pub fn disable_video(&mut self)
        ensures
            final(self).filters_view() == without_video(old(self).filters_view()),
            final(self).surfaces == old(self).surfaces,
            final(self).audio_label == old(self).audio_label,
            final(self).video_label == old(self).video_label,
            final(self).complex_filter == old(self).complex_filter,
    {
        let mut kept: Vec<PipelineFilter> = Vec::new();
        let ghost all = filter_views(self.filters@);
        let mut i: usize = 0;
        while i < self.filters.len()
            invariant
                i <= self.filters.len(),
                all == filter_views(self.filters@),
                filter_views(kept@) == without_video(all.take(i as int)),
            decreases self.filters.len() - i,
        {
            assert(all.take(i as int + 1).drop_last() =~= all.take(i as int));
            assert(all.take(i as int + 1).last() == self.filters@[i as int]@);
            if !matches!(self.filters[i], PipelineFilter::Video(_)) {
                let f = self.filters[i].duplicate();
                let ghost prev = kept@;
                kept.push(f);
                assert(filter_views(kept@) =~= filter_views(prev).push(f@));
            }
            i = i + 1;
        }
        assert(all.take(i as int) =~= all);
        self.filters = kept;
    }

    /// Keeps the filters the frames need, passing the state through each (see
    /// `evaluate_chain`).
    pub fn evaluate(&mut self, initial_state: &FrameState, info: &FfmpegInfo)
        ensures
            final(self).filters_view() == evaluate_chain(old(self).filters_view(), initial_state@, *info).0,
            final(self).surfaces == old(self).surfaces,
            final(self).audio_label == old(self).audio_label,
            final(self).video_label == old(self).video_label,
            final(self).complex_filter == old(self).complex_filter,
    {
        let mut state = initial_state.duplicate();
        let mut kept: Vec<PipelineFilter> = Vec::new();
        let ghost all = filter_views(self.filters@);
        let mut i: usize = 0;
        while i < self.filters.len()
            invariant
                i <= self.filters.len(),
                all == filter_views(self.filters@),
                (filter_views(kept@), state@) == evaluate_chain(all.take(i as int), initial_state@, *info),
            decreases self.filters.len() - i,
        {
            assert(all.take(i as int + 1).drop_last() =~= all.take(i as int));
            assert(all.take(i as int + 1).last() == self.filters@[i as int]@);
            let ghost prev = kept@;
            match &self.filters[i] {
                PipelineFilter::Audio(af) => {
                    match af.evaluate() {
                        Some(nf) => {
                            kept.push(PipelineFilter::Audio(nf));
                            assert(filter_views(kept@) =~= filter_views(prev).push(PipelineFilterView::Audio(nf)));
                        },
                        None => {},
                    }
                },
                PipelineFilter::Video(vf) => {
                    match vf.evaluate(&state, info) {
                        Some(nf) => {
                            nf.apply_to(&mut state);
                            let ghost nv = nf;
                            kept.push(PipelineFilter::Video(nf));
                            assert(filter_views(kept@) =~= filter_views(prev).push(PipelineFilterView::Video(nv)));
                        },
                        None => {},
                    }
                },
                PipelineFilter::Overlay(of) => {
                    let nf = of.duplicate();
                    nf.kind.apply_to(&mut state);
                    let ghost nv = nf@;
                    kept.push(PipelineFilter::Overlay(nf));
                    assert(filter_views(kept@) =~= filter_views(prev).push(PipelineFilterView::Overlay(nv)));
                },
            }
            i = i + 1;
        }
        assert(all.take(i as int) =~= all);
        self.filters = kept;
    }

    /// Resolves the chain (see `spec_resolve`): each video filter is replaced by
    /// the accel's pick, and surface transfers and pixel format conversions are
    /// inserted where filters and the encoder need them.
    pub fn resolve(&mut self, info: &FfmpegInfo, accel: &Option<HardwareAccel>, initial_state: &FrameState,
        encoder_surface: &FrameSurface, encoder_pixel_format: &Option<PixelFormat>, opts: &VideoFilterOptions)
        ensures
            final(self).wf(),
            final(self).filters_view() == spec_resolve(old(self).filters_view(), initial_state@, *info, *accel, *opts,
                *encoder_surface, *encoder_pixel_format).filters,
            final(self).surfaces@ == spec_resolve(old(self).filters_view(), initial_state@, *info, *accel, *opts,
                *encoder_surface, *encoder_pixel_format).surfaces,
            final(self).audio_label == old(self).audio_label,
            final(self).video_label == old(self).video_label,
            final(self).complex_filter == old(self).complex_filter,
    {
        let mut resolved: Vec<PipelineFilter> = Vec::new();
        let mut state = initial_state.duplicate();
        let mut surfaces = SurfaceSet::new();
        let ghost all = filter_views(self.filters@);
        assert(resolve_state(resolved@, state, surfaces) =~= start(initial_state@));
        let mut i: usize = 0;
        while i < self.filters.len()
            invariant
                i <= self.filters.len(),
                all == filter_views(self.filters@),
                surfaces.wf(),
                resolve_state(resolved@, state, surfaces) == resolve_chain_from(start(initial_state@), all.take(i as int),
                    *info, *accel, *opts, *encoder_pixel_format),
            decreases self.filters.len() - i,
        {
            assert(all.take(i as int + 1).drop_last() =~= all.take(i as int));
            assert(all.take(i as int + 1).last() == self.filters@[i as int]@);
            match &self.filters[i] {
                PipelineFilter::Video(vf) => {
                    video_step_exec(vf, info, accel, opts, encoder_pixel_format, &mut resolved, &mut state, &mut surfaces);
                },
                PipelineFilter::Audio(af) => {
                    let ghost acc = resolve_state(resolved@, state, surfaces);
                    let ghost prev = resolved@;
                    resolved.push(PipelineFilter::Audio(*af));
                    assert(filter_views(resolved@) =~= filter_views(prev).push(PipelineFilterView::Audio(*af)));
                    assert(resolve_state(resolved@, state, surfaces) =~= ResolveState {
                        filters: acc.filters.push(PipelineFilterView::Audio(*af)), ..acc });
                },
                PipelineFilter::Overlay(of) => {
                    overlay_step_exec(of, info, accel, opts, encoder_pixel_format, &mut resolved, &mut state, &mut surfaces);
                },
            }
            i = i + 1;
        }
        assert(all.take(i as int) =~= all);
        finish_exec(accel, &mut resolved, &mut state, &mut surfaces, *encoder_surface, encoder_pixel_format);
        self.filters = resolved;
        self.surfaces = surfaces;
    }

    /// The surfaces met in the last resolution.
    pub fn surfaces(&self) -> (r: &SurfaceSet)
        ensures
            r == &self.surfaces,
    {
        &self.surfaces
    }

    /// Moves a software scale that directly follows the first software tonemap
    /// before it (see `spec_optimize`).
    pub fn optimize(&mut self)
        ensures
            final(self).filters_view() == spec_optimize(old(self).filters_view()),
            final(self).surfaces == old(self).surfaces,
            final(self).audio_label == old(self).audio_label,
            final(self).video_label == old(self).video_label,
            final(self).complex_filter == old(self).complex_filter,
    {
        let ghost all = filter_views(self.filters@);
        let mut i: usize = 0;
        while i < self.filters.len()
            invariant
                i <= self.filters.len(),
                all == filter_views(self.filters@),
                forall|j: int| 0 <= j < i ==> !is_tonemap(#[trigger] all[j]),
            ensures
                i <= self.filters.len(),
                i < self.filters.len() ==> is_tonemap(all[i as int]),
                forall|j: int| 0 <= j < i ==> !is_tonemap(#[trigger] all[j]),
            decreases self.filters.len() - i,
        {
            if matches!(self.filters[i], PipelineFilter::Video(VideoFilter::ToneMap(_))) {
                break;
            }
            i = i + 1;
        }
        if i < self.filters.len() {
            assert(is_tonemap(all[i as int]));
            assert(first_tonemap(all) == Some(i as int)) by {
                let k = choose|k: int| 0 <= k < all.len() && #[trigger] is_tonemap(all[k])
                    && forall|j: int| 0 <= j < k ==> !is_tonemap(#[trigger] all[j]);
                if k < i {
                    assert(!is_tonemap(all[k]));
                } else if k > i {
                    assert(!is_tonemap(all[i as int]));
                }
            }
            if i + 1 < self.filters.len() && matches!(self.filters[i + 1], PipelineFilter::Video(VideoFilter::Scale(_))) {
                let a = self.filters.remove(i);
                self.filters.insert(i + 1, a);
                assert(filter_views(self.filters@) =~= all.update(i as int, all[i as int + 1]).update(i as int + 1, all[i as int]));
            }
        } else {
            assert(first_tonemap(all).is_none());
        }
    }
    /// Builds the filter graph (see `spec_build`) from the audio and video input
    /// labels and the labels of the subtitle and watermark inputs, if any.
    pub fn build(&mut self, audio_label: &str, video_label: &str, subtitle_label: Option<&String>,
        watermark_label: Option<&String>)
        ensures
            final(self).filters == old(self).filters,
            final(self).surfaces == old(self).surfaces,
            (final(self).audio_label@, final(self).video_label@, final(self).complex_filter@) == spec_build(
                old(self).filters_view(), audio_label@, video_label@, opt_label(subtitle_label), opt_label(watermark_label)),
    {
        let ghost fs = filter_views(self.filters@);
        let mut chains: Vec<String> = Vec::new();
        let has_a = any_audio(&self.filters);
        if has_a {
            let mut c = "[".to_owned();
            c.append(audio_label);
            c.append("]");
            let args = audio_arg_list(&self.filters);
            let j = join_strings(&args, ",");
            c.append(j.as_str());
            c.append("[a]");
            chains.push(c);
            self.audio_label = "[a]".to_owned();
        } else {
            self.audio_label = audio_label.to_owned();
        }
        assert(views(chains@) =~= if has_audio(fs) { seq!["["@ + audio_label@ + "]"@ + join(audio_args(fs), ","@) + "[a]"@] } else { seq![] });
        if any_video(&self.filters) {
            let mut current_in = video_label.to_owned();
            let mut pending: Vec<String> = Vec::new();
            let mut n: usize = 0;
            let ghost init = BuildState { current_in: video_label@, pending: seq![], n: 0, chains: views(chains@) };
            assert(views(pending@) =~= Seq::<Seq<char>>::empty());
            assert(build_state(current_in, pending@, n, chains@) == init);
            let mut i: usize = 0;
            while i < self.filters.len()
                invariant
                    i <= self.filters.len(),
                    fs == filter_views(self.filters@),
                    n <= i,
                    build_state(current_in, pending@, n, chains@) == build_from(init, fs.take(i as int),
                        opt_label(subtitle_label), opt_label(watermark_label)),
                decreases self.filters.len() - i,
            {
                assert(fs.take(i as int + 1).drop_last() =~= fs.take(i as int));
                assert(fs.take(i as int + 1).last() == self.filters@[i as int]@);
                build_step_exec(&self.filters[i], subtitle_label, watermark_label, &mut current_in, &mut pending, &mut n,
                    &mut chains);
                i = i + 1;
            }
            assert(fs.take(i as int) =~= fs);
            if pending.len() > 0 {
                push_chain(&mut chains, current_in.as_str(), &pending, "v");
                self.video_label = "[v]".to_owned();
            } else {
                let mut l = "[".to_owned();
                l.append(current_in.as_str());
                l.append("]");
                self.video_label = l;
            }
        } else {
            self.video_label = video_label.to_owned();
        }
        self.complex_filter = join_strings(&chains, ";");
    }

    /// The audio label once built.
    pub fn audio_label(&self) -> (r: &str)
        ensures
            r@ == self.audio_label@,
    {
        self.audio_label.as_str()
    }

    /// The video label once built.
    pub fn video_label(&self) -> (r: &str)
        ensures
            r@ == self.video_label@,
    {
        self.video_label.as_str()
    }

    /// `-filter_complex GRAPH`, or nothing for an empty graph.
    pub fn as_arg(&self) -> (r: Vec<String>)
        ensures
            views(r@) == if self.complex_filter@.len() == 0 { seq![] } else { seq!["-filter_complex"@, self.complex_filter@] },
    {
        if self.complex_filter.unicode_len() == 0 {
            let r: Vec<String> = Vec::new();
            assert(views(r@) =~= seq![]);
            r
        } else {
            args2("-filter_complex", self.complex_filter.as_str())
        }
    }
}

} // verus!
