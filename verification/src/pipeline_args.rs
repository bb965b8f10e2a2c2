use vstd::prelude::*;
use crate::filter_chain::{duplicate_pipeline_filters, filter_views, spec_build, FilterChain};
use crate::input::FfmpegInputArgs;
use crate::hw_accel::HwAccel;
use crate::output_format::context_fps;
use crate::output_option::{ms_text, OutputOption};
use crate::pipeline::{global_args, OutputContext, Pipeline, PipelineInput, SurfaceSet, KEYFRAME_INTERVAL_SECONDS};
use crate::text::{
    args2, dec, extend_args, join, join_strings, first_index, lemma_first_index, lemma_first_index_unique, push_arg, str_eq, u64_to_string,
    views,
};

verus! {

/// The inputs of one kind, in their order: video (0), audio (1), subtitles (2).
pub open spec fn inputs_of_order(inputs: Seq<PipelineInput>, k: u8) -> Seq<PipelineInput>
    decreases inputs.len(),
{
    if inputs.len() == 0 {
        seq![]
    } else {
        let rest = inputs_of_order(inputs.drop_last(), k);
        if inputs.last().spec_sort_order() == k { rest.push(inputs.last()) } else { rest }
    }
}

/// What adding the inputs has made so far: the arguments, the distinct input
/// paths in the order they were added, and the labels of the audio, video and
/// subtitle streams.
pub struct InputArgs {
    pub args: Seq<Seq<char>>,
    pub paths: Seq<Seq<char>>,
    pub audio_label: Seq<char>,
    pub video_label: Seq<char>,
    pub subtitle_label: Option<Seq<char>>,
}

/// The number of a path among the distinct paths: its first position (0 when absent).
pub open spec fn path_number(paths: Seq<Seq<char>>, p: Seq<char>) -> nat {
    let k = first_index(paths, p);
    if k < 0 { 0 } else { k as nat }
}

/// The label of stream `index` of the input with path `p`: `INPUT:INDEX`.
pub open spec fn stream_label(paths: Seq<Seq<char>>, p: Seq<char>, index: u32) -> Seq<char> {
    dec(path_number(paths, p)) + ":"@ + dec(index as nat)
}

/// `-ss Nms` for a seek past the start, else nothing.
pub open spec fn seek_args(seek_ms: u64) -> Seq<Seq<char>> {
    if seek_ms > 0 { seq!["-ss"@, ms_text(seek_ms as nat)] } else { seq![] }
}

/// `-readrate 1.0` when reading in real time, else nothing.
pub open spec fn readrate_args(realtime: bool) -> Seq<Seq<char>> {
    if realtime { seq!["-readrate"@, "1.0"@] } else { seq![] }
}

/// One input added: a video input always adds its decoder, seek, read rate,
/// source and `-i PATH` arguments; an audio input adds its source and `-i PATH`,
/// and a subtitle input its seek, source and `-i PATH`, only for a path not yet
/// added. Each sets the label of its stream.
pub open spec fn input_step(st: InputArgs, input: PipelineInput) -> InputArgs {
    match input {
        PipelineInput::Video { input_source, index, path, seek_ms, realtime, decoder } => {
            let paths = st.paths.push(path@);
            InputArgs {
                args: st.args + decoder.spec_args() + seek_args(seek_ms) + readrate_args(realtime) + input_source.spec_args()
                    + seq!["-i"@, path@],
                paths,
                video_label: stream_label(paths, path@, index),
                ..st
            }
        },
        PipelineInput::Audio { input_source, index, path, .. } => {
            let fresh = !st.paths.contains(path@);
            let paths = if fresh { st.paths.push(path@) } else { st.paths };
            InputArgs {
                args: if fresh { st.args + input_source.spec_args() + seq!["-i"@, path@] } else { st.args },
                paths,
                audio_label: stream_label(paths, path@, index),
                ..st
            }
        },
        PipelineInput::Subtitle { input_source, index, path, seek_ms } => {
            let fresh = !st.paths.contains(path@);
            let paths = if fresh { st.paths.push(path@) } else { st.paths };
            InputArgs {
                args: if fresh { st.args + seek_args(seek_ms) + input_source.spec_args() + seq!["-i"@, path@] } else { st.args },
                paths,
                subtitle_label: Some(stream_label(paths, path@, index)),
                ..st
            }
        },
    }
}

/// The inputs added one after the other.
pub open spec fn add_inputs(st: InputArgs, inputs: Seq<PipelineInput>) -> InputArgs
    decreases inputs.len(),
{
    if inputs.len() == 0 { st } else { input_step(add_inputs(st, inputs.drop_last()), inputs.last()) }
}

/// Nothing added yet: the labels of the first input's streams.
pub open spec fn no_inputs() -> InputArgs {
    InputArgs { args: seq![], paths: seq![], audio_label: "0:a"@, video_label: "0:v"@, subtitle_label: None }
}

/// The inputs added video first, then audio, then subtitles, each kind in its order.
pub open spec fn inputs_args(inputs: Seq<PipelineInput>) -> InputArgs {
    add_inputs(add_inputs(add_inputs(no_inputs(), inputs_of_order(inputs, 0)), inputs_of_order(inputs, 1)),
        inputs_of_order(inputs, 2))
}

/// The inputs of one kind end with the last input of that kind.
proof fn lemma_order_ends_with(inputs: Seq<PipelineInput>, k: u8, i: int)
    requires
        0 <= i < inputs.len(),
        inputs[i].spec_sort_order() == k,
        forall|j: int| i < j < inputs.len() ==> #[trigger] inputs[j].spec_sort_order() != k,
    ensures
        inputs_of_order(inputs, k).len() > 0,
        inputs_of_order(inputs, k).last() == inputs[i],
    decreases inputs.len(),
{
    if i < inputs.len() - 1 {
        let d = inputs.drop_last();
        assert(inputs.last() == inputs[inputs.len() - 1]);
        assert forall|j: int| i < j < d.len() implies #[trigger] d[j].spec_sort_order() != k by {
            assert(d[j] == inputs[j]);
        }
        lemma_order_ends_with(d, k, i);
        assert(d[i] == inputs[i]);
    }
}

/// Without an input of a kind, there are no inputs of that kind.
proof fn lemma_order_empty(inputs: Seq<PipelineInput>, k: u8)
    requires
        forall|j: int| 0 <= j < inputs.len() ==> #[trigger] inputs[j].spec_sort_order() != k,
    ensures
        inputs_of_order(inputs, k).len() == 0,
    decreases inputs.len(),
{
    if inputs.len() > 0 {
        let d = inputs.drop_last();
        assert forall|j: int| 0 <= j < d.len() implies #[trigger] d[j].spec_sort_order() != k by {
            assert(d[j] == inputs[j]);
        }
        lemma_order_empty(d, k);
        assert(inputs.last() == inputs[inputs.len() - 1]);
    }
}

/// The inputs of a kind other than subtitles are no subtitle inputs.
proof fn lemma_order_kind(inputs: Seq<PipelineInput>, k: u8)
    ensures
        forall|j: int| 0 <= j < inputs_of_order(inputs, k).len() ==> #[trigger] inputs_of_order(inputs, k)[j].spec_sort_order() == k,
    decreases inputs.len(),
{
    if inputs.len() > 0 {
        let r = inputs_of_order(inputs.drop_last(), k);
        lemma_order_kind(inputs.drop_last(), k);
        if inputs.last().spec_sort_order() == k {
            assert forall|j: int| 0 <= j < r.push(inputs.last()).len()
                implies #[trigger] r.push(inputs.last())[j].spec_sort_order() == k by {
                if j < r.len() {
                    assert(r.push(inputs.last())[j] == r[j]);
                }
            }
        }
    }
}

/// Adding inputs that are not subtitles leaves the subtitle label as it was.
proof fn lemma_add_keeps_subtitle_label(st: InputArgs, inputs: Seq<PipelineInput>)
    requires
        forall|j: int| 0 <= j < inputs.len() ==> #[trigger] inputs[j].spec_sort_order() != 2,
    ensures
        add_inputs(st, inputs).subtitle_label == st.subtitle_label,
    decreases inputs.len(),
{
    if inputs.len() > 0 {
        let d = inputs.drop_last();
        assert forall|j: int| 0 <= j < d.len() implies #[trigger] d[j].spec_sort_order() != 2 by {
            assert(d[j] == inputs[j]);
        }
        lemma_add_keeps_subtitle_label(st, d);
        assert(inputs.last() == inputs[inputs.len() - 1]);
        assert(inputs[inputs.len() - 1].spec_sort_order() != 2);
    }
}

/// The overlaid subtitles come from the subtitle input: with a subtitle input,
/// the subtitle stream's label is `N:INDEX` for the last subtitle input's stream
/// INDEX and the position N of its path among the inputs' paths; without one,
/// there is no subtitle label.
pub proof fn law_subtitle_label_names_the_subtitle_stream(inputs: Seq<PipelineInput>)
    ensures
        (forall|j: int| 0 <= j < inputs.len() ==> !(#[trigger] inputs[j] is Subtitle))
            ==> inputs_args(inputs).subtitle_label.is_none(),
        forall|i: int| #![trigger inputs[i]] 0 <= i < inputs.len() && inputs[i] is Subtitle
            && (forall|j: int| i < j < inputs.len() ==> !(#[trigger] inputs[j] is Subtitle))
            ==> ({
                let st = inputs_args(inputs);
                let p = inputs[i]->Subtitle_path@;
                &&& st.paths.contains(p)
                &&& st.subtitle_label == Some(dec(first_index(st.paths, p) as nat) + ":"@
                    + dec(inputs[i]->Subtitle_index as nat))
            }),
{
    let s0 = no_inputs();
    let s1 = add_inputs(s0, inputs_of_order(inputs, 0));
    let s2 = add_inputs(s1, inputs_of_order(inputs, 1));
    lemma_order_kind(inputs, 0);
    lemma_order_kind(inputs, 1);
    lemma_add_keeps_subtitle_label(s0, inputs_of_order(inputs, 0));
    lemma_add_keeps_subtitle_label(s1, inputs_of_order(inputs, 1));
    if forall|j: int| 0 <= j < inputs.len() ==> !(#[trigger] inputs[j] is Subtitle) {
        assert forall|j: int| 0 <= j < inputs.len() implies #[trigger] inputs[j].spec_sort_order() != 2 by {
            assert(!(inputs[j] is Subtitle));
        }
        lemma_order_empty(inputs, 2);
    }
    assert forall|i: int| #![trigger inputs[i]] 0 <= i < inputs.len() && inputs[i] is Subtitle
        && (forall|j: int| i < j < inputs.len() ==> !(#[trigger] inputs[j] is Subtitle))
        implies ({
            let st = inputs_args(inputs);
            let p = inputs[i]->Subtitle_path@;
            &&& st.paths.contains(p)
            &&& st.subtitle_label == Some(dec(first_index(st.paths, p) as nat) + ":"@
                + dec(inputs[i]->Subtitle_index as nat))
        }) by {
        assert forall|j: int| i < j < inputs.len() implies #[trigger] inputs[j].spec_sort_order() != 2 by {
            assert(!(inputs[j] is Subtitle));
        }
        lemma_order_ends_with(inputs, 2, i);
        let subs = inputs_of_order(inputs, 2);
        let before = add_inputs(s2, subs.drop_last());
        let st = input_step(before, subs.last());
        assert(st == inputs_args(inputs));
        let p = inputs[i]->Subtitle_path@;
        assert(st.paths.contains(p)) by {
            if !before.paths.contains(p) {
                assert(st.paths == before.paths.push(p));
                assert(st.paths[before.paths.len() as int] == p);
            }
        }
        crate::text::lemma_first_index(st.paths, p);
    }
}

/// The arguments of the output options, in their order.
pub open spec fn output_args(opts: Seq<OutputOption>, ctx: OutputContext) -> Seq<Seq<char>>
    decreases opts.len(),
{
    if opts.len() == 0 { seq![] } else { output_args(opts.drop_last(), ctx) + opts.last().spec_arg(ctx) }
}

/// The ffmpeg arguments of a pipeline: the global options, the inputs (see
/// `inputs_args`), the filter graph built from the inputs' labels, the mapped
/// video and audio labels, and the output options.
pub open spec fn pipeline_args(p: Pipeline) -> Seq<Seq<char>> {
    let st = inputs_args(p.inputs@);
    let built = spec_build(p.filter_chain.filters_view(), st.audio_label, st.video_label, st.subtitle_label, None);
    global_args(p.global_options@) + st.args
        + (if built.2.len() == 0 { seq![] } else { seq!["-filter_complex"@, built.2] })
        + seq!["-map"@, built.1, "-map"@, built.0]
        + output_args(p.output_options@, p.output_context)
}

/// The spec value of the exec state.
pub open spec fn input_args_of(args: Seq<String>, paths: Seq<String>, audio_label: String, video_label: String,
    subtitle_label: Option<String>) -> InputArgs {
    InputArgs {
        args: views(args),
        paths: views(paths),
        audio_label: audio_label@,
        video_label: video_label@,
        subtitle_label: match subtitle_label { Some(s) => Some(s@), None => None },
    }
}

/// The first position of a path among the paths, if any.
fn find_path(paths: &Vec<String>, p: &str) -> (r: Option<usize>)
    ensures
        match r {
            Some(j) => j as int == first_index(views(paths@), p@) && j < paths@.len(),
            None => first_index(views(paths@), p@) == -1,
        },
        r is Some <==> views(paths@).contains(p@),
{
    let ghost vs = views(paths@);
    let mut j: usize = 0;
    while j < paths.len()
        invariant
            j <= paths.len(),
            vs == views(paths@),
            forall|k: int| 0 <= k < j ==> vs[k] != p@,
        decreases paths.len() - j,
    {
        if str_eq(paths[j].as_str(), p) {
            proof {
                assert(vs[j as int] == p@);
                lemma_first_index_unique(vs, p@, j as int);
            }
            return Some(j);
        }
        j = j + 1;
    }
    proof {
        lemma_first_index_unique(vs, p@, -1);
        assert(!vs.contains(p@));
    }
    None
}

/// `INPUT:INDEX` for the path's number among the paths.
fn stream_label_exec(paths: &Vec<String>, p: &str, index: u32) -> (r: String)
    ensures
        r@ == stream_label(views(paths@), p@, index),
{
    let n: usize = match find_path(paths, p) {
        Some(j) => j,
        None => 0,
    };
    let mut r = u64_to_string(n as u64);
    r.append(":");
    let d = u64_to_string(index as u64);
    r.append(d.as_str());
    r
}

/// Appends the seek arguments.
fn push_seek(args: &mut Vec<String>, seek_ms: u64)
    ensures
        views(final(args)@) == views(old(args)@) + seek_args(seek_ms),
{
    if seek_ms > 0 {
        let mut t = u64_to_string(seek_ms);
        t.append("ms");
        let a = args2("-ss", t.as_str());
        extend_args(args, &a);
    } else {
        assert(views(args@) =~= views(args@) + seq![]);
    }
}

/// Appends `-i PATH`.
fn push_input_path(args: &mut Vec<String>, path: &String)
    ensures
        views(final(args)@) == views(old(args)@) + seq!["-i"@, path@],
{
    let a = args2("-i", path.as_str());
    extend_args(args, &a);
}

/// One input added (see `input_step`).
fn input_step_exec(input: &PipelineInput, args: &mut Vec<String>, paths: &mut Vec<String>, audio_label: &mut String,
    video_label: &mut String, subtitle_label: &mut Option<String>)
    ensures
        input_args_of(final(args)@, final(paths)@, *final(audio_label), *final(video_label), *final(subtitle_label))
            == input_step(input_args_of(old(args)@, old(paths)@, *old(audio_label), *old(video_label), *old(subtitle_label)),
            *input),
{
    let ghost st = input_args_of(args@, paths@, *audio_label, *video_label, *subtitle_label);
    match input {
        PipelineInput::Video { input_source, index, path, seek_ms, realtime, decoder } => {
            paths.push(path.clone());
            assert(views(paths@) =~= st.paths.push(path@));
            let d = decoder.as_arg();
            extend_args(args, &d);
            push_seek(args, *seek_ms);
            if *realtime {
                let a = args2("-readrate", "1.0");
                extend_args(args, &a);
            } else {
                assert(views(args@) =~= views(args@) + seq![]);
            }
            let s = input_source.args_for_input();
            extend_args(args, &s);
            push_input_path(args, path);
            *video_label = stream_label_exec(paths, path.as_str(), *index);
            assert(views(args@) =~= st.args + decoder.spec_args() + seek_args(*seek_ms) + readrate_args(*realtime)
                + input_source.spec_args() + seq!["-i"@, path@]);
        },
        PipelineInput::Audio { input_source, index, path, .. } => {
            if find_path(paths, path.as_str()).is_none() {
                paths.push(path.clone());
                assert(views(paths@) =~= st.paths.push(path@));
                let s = input_source.args_for_input();
                extend_args(args, &s);
                push_input_path(args, path);
                assert(views(args@) =~= st.args + input_source.spec_args() + seq!["-i"@, path@]);
            }
            *audio_label = stream_label_exec(paths, path.as_str(), *index);
        },
        PipelineInput::Subtitle { input_source, index, path, seek_ms } => {
            if find_path(paths, path.as_str()).is_none() {
                paths.push(path.clone());
                assert(views(paths@) =~= st.paths.push(path@));
                push_seek(args, *seek_ms);
                let s = input_source.args_for_input();
                extend_args(args, &s);
                push_input_path(args, path);
                assert(views(args@) =~= st.args + seek_args(*seek_ms) + input_source.spec_args() + seq!["-i"@, path@]);
            }
            *subtitle_label = Some(stream_label_exec(paths, path.as_str(), *index));
        },
    }
}

/// The inputs of one kind added in their order (see `inputs_of_order`).
fn add_inputs_of_order(inputs: &Vec<PipelineInput>, k: u8, args: &mut Vec<String>, paths: &mut Vec<String>,
    audio_label: &mut String, video_label: &mut String, subtitle_label: &mut Option<String>)
    ensures
        input_args_of(final(args)@, final(paths)@, *final(audio_label), *final(video_label), *final(subtitle_label))
            == add_inputs(input_args_of(old(args)@, old(paths)@, *old(audio_label), *old(video_label), *old(subtitle_label)),
            inputs_of_order(inputs@, k)),
{
    let ghost st0 = input_args_of(args@, paths@, *audio_label, *video_label, *subtitle_label);
    let mut i: usize = 0;
    while i < inputs.len()
        invariant
            i <= inputs.len(),
            input_args_of(args@, paths@, *audio_label, *video_label, *subtitle_label) == add_inputs(st0,
                inputs_of_order(inputs@.take(i as int), k)),
        decreases inputs.len() - i,
    {
        assert(inputs@.take(i as int + 1).drop_last() =~= inputs@.take(i as int));
        assert(inputs@.take(i as int + 1).last() == inputs@[i as int]);
        if inputs[i].sort_order() == k {
            let ghost before = inputs_of_order(inputs@.take(i as int), k);
            input_step_exec(&inputs[i], args, paths, audio_label, video_label, subtitle_label);
            assert(inputs_of_order(inputs@.take(i as int + 1), k).drop_last() =~= before);
        }
        i = i + 1;
    }
    assert(inputs@.take(i as int) =~= inputs@);
}

/// The arguments of the output options.
fn output_arg_list(opts: &Vec<OutputOption>, ctx: &OutputContext, args: &mut Vec<String>)
    requires
        ctx.media_frame_rate.wf(),
        context_fps(*ctx) * KEYFRAME_INTERVAL_SECONDS <= u32::MAX,
    ensures
        views(final(args)@) == views(old(args)@) + output_args(opts@, *ctx),
{
    let ghost a0 = views(args@);
    let mut i: usize = 0;
    assert(a0 =~= a0 + output_args(opts@.take(0), *ctx));
    while i < opts.len()
        invariant
            i <= opts.len(),
            ctx.media_frame_rate.wf(),
            context_fps(*ctx) * KEYFRAME_INTERVAL_SECONDS <= u32::MAX,
            views(args@) == a0 + output_args(opts@.take(i as int), *ctx),
        decreases opts.len() - i,
    {
        assert(opts@.take(i as int + 1).drop_last() =~= opts@.take(i as int));
        let a = opts[i].as_arg(ctx);
        extend_args(args, &a);
        i = i + 1;
    }
    assert(opts@.take(i as int) =~= opts@);
}

/// Appends the arguments of the global options.
fn push_global_args(opts: &Vec<crate::global_option::GlobalOption>, result: &mut Vec<String>)
    ensures
        views(final(result)@) == views(old(result)@) + global_args(opts@),
{
    let ghost a0 = views(result@);
    let mut i: usize = 0;
    assert(a0 =~= a0 + global_args(opts@.take(0)));
    while i < opts.len()
        invariant
            i <= opts.len(),
            views(result@) == a0 + global_args(opts@.take(i as int)),
        decreases opts.len() - i,
    {
        assert(opts@.take(i as int + 1).drop_last() =~= opts@.take(i as int));
        let a = opts[i].as_arg();
        extend_args(result, &a);
        i = i + 1;
    }
    assert(opts@.take(i as int) =~= opts@);
}

/// The spec value of an optional label.
pub open spec fn opt_string_label(o: Option<String>) -> Option<Seq<char>> {
    match o { Some(s) => Some(s@), None => None }
}

/// Appends the filter graph built from the labels, then `-map VIDEO -map AUDIO`.
fn push_graph_args(filters: &Vec<crate::filter_chain::PipelineFilter>, audio_label: &String, video_label: &String,
    subtitle_label: &Option<String>, result: &mut Vec<String>)
    ensures
        ({
            let built = spec_build(filter_views(filters@), audio_label@, video_label@, opt_string_label(*subtitle_label), None);
            views(final(result)@) == views(old(result)@)
                + (if built.2.len() == 0 { seq![] } else { seq!["-filter_complex"@, built.2] })
                + seq!["-map"@, built.1, "-map"@, built.0]
        }),
{
    let mut chain = FilterChain {
        filters: duplicate_pipeline_filters(filters),
        surfaces: SurfaceSet::new(),
        audio_label: String::new(),
        video_label: String::new(),
        complex_filter: String::new(),
    };
    let sub = subtitle_label.as_ref();
    assert(crate::filter_chain::opt_label(sub) == opt_string_label(*subtitle_label));
    chain.build(audio_label.as_str(), video_label.as_str(), sub, None);
    let g = chain.as_arg();
    extend_args(result, &g);
    push_arg(result, "-map");
    push_arg(result, chain.video_label());
    push_arg(result, "-map");
    push_arg(result, chain.audio_label());
}

impl Pipeline {
    /// The ffmpeg arguments of the pipeline (see `pipeline_args`).
    pub fn args(&self) -> (r: Vec<String>)
        requires
            self.output_context.media_frame_rate.wf(),
            context_fps(self.output_context) * KEYFRAME_INTERVAL_SECONDS <= u32::MAX,
        ensures
            views(r@) == pipeline_args(*self),
    {
        let mut result: Vec<String> = Vec::new();
        assert(views(result@) =~= seq![]);
        push_global_args(&self.global_options, &mut result);
        let mut args: Vec<String> = Vec::new();
        let mut paths: Vec<String> = Vec::new();
        let mut audio_label = "0:a".to_owned();
        let mut video_label = "0:v".to_owned();
        let mut subtitle_label: Option<String> = None;
        proof {
            reveal_strlit("0:a");
            reveal_strlit("0:v");
            assert(input_args_of(args@, paths@, audio_label, video_label, subtitle_label) =~= no_inputs());
        }
        add_inputs_of_order(&self.inputs, 0, &mut args, &mut paths, &mut audio_label, &mut video_label, &mut subtitle_label);
        add_inputs_of_order(&self.inputs, 1, &mut args, &mut paths, &mut audio_label, &mut video_label, &mut subtitle_label);
        add_inputs_of_order(&self.inputs, 2, &mut args, &mut paths, &mut audio_label, &mut video_label, &mut subtitle_label);
        extend_args(&mut result, &args);

        push_graph_args(&self.filter_chain.filters, &audio_label, &video_label, &subtitle_label, &mut result);
        output_arg_list(&self.output_options, &self.output_context, &mut result);
        result
    }

    /// `args: ` and the arguments joined by spaces.
    pub fn to_string(&self) -> (r: String)
        requires
            self.output_context.media_frame_rate.wf(),
            context_fps(self.output_context) * KEYFRAME_INTERVAL_SECONDS <= u32::MAX,
        ensures
            r@ == "args: "@ + join(pipeline_args(*self), " "@),
    {
        let args = self.args();
        let mut r = "args: ".to_owned();
        let j = join_strings(&args, " ");
        r.append(j.as_str());
        r
    }

    /// The environment variables the pipeline needs: those of its accel, if any.
    pub fn envs(&self) -> (r: Vec<(String, String)>)
        ensures
            r@.len() == match self.accel { Some(a) => a.spec_envs().len(), None => 0 },
            forall|i: int| 0 <= i < r@.len() ==> (r@[i].0@, r@[i].1@) == self.accel.unwrap().spec_envs()[i],
    {
        let mut result: Vec<(String, String)> = Vec::new();
        match &self.accel {
            Some(a) => {
                let vars = a.envs();
                let mut i: usize = 0;
                while i < vars.len()
                    invariant
                        i <= vars.len(),
                        result@.len() == i,
                        forall|j: int| 0 <= j < i ==> (result@[j].0@, result@[j].1@) == (vars@[j].key@, vars@[j].value@),
                    decreases vars.len() - i,
                {
                    result.push((vars[i].key.clone(), vars[i].value.clone()));
                    i = i + 1;
                }
            },
            None => {},
        }
        result
    }
}

} // verus!
