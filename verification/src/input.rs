use vstd::prelude::*;
use crate::pipeline::opt_string_view;
use crate::error::FFPipelineError;
use crate::probe::{ProbeResult, ProbeResultAudioStream, ProbeResultStream, ProbeResultSubtitleStream, ProbeResultVideoStream};
use crate::text::{args2, dec, extend_args, push_arg, u64_to_string, views};

verus! {

/// Options of an HTTP input.
pub struct HttpInputOptions {
    pub headers: Vec<String>,
    pub user_agent: Option<String>,
    pub timeout_us: Option<u64>,
    pub reconnect: bool,
    pub reconnect_delay_max: Option<u32>,
}

/// A file on the local machine.
pub struct LocalInputSource {
    pub path: String,
}

/// A libavfilter source.
pub struct LavfiInputSource {
    pub params: String,
}

/// A stream over HTTP.
pub struct HttpInputSource {
    pub uri: String,
    pub options: HttpInputOptions,
}

/// Where an input comes from.
pub enum InputSource {
    Local(LocalInputSource),
    Lavfi(LavfiInputSource),
    Http(HttpInputSource),
}

/// Whether a path starts with the character `~`. Only such a path can begin
/// with a `~` component, whatever the platform's separators.
pub open spec fn starts_with_tilde(p: Seq<char>) -> bool {
    p.len() >= 1 && p[0] == '~'
}

/// Expands a leading `~` component to the home directory, through
/// `simple_expand_tilde::expand_tilde`. A path whose first character is not `~`
/// has no `~` component first, and comes back as it is. Of a path that starts
/// with `~` nothing is said: whether it is expanded depends on the platform's
/// separators, and what it becomes on the environment.
#[verifier::external_body]
fn expand_tilde_text(path: &str) -> (r: Option<String>)
    ensures
        !starts_with_tilde(path@) ==> opt_string_view(r) == Some(path@),
{
    match simple_expand_tilde::expand_tilde(path) {
        Some(p) => p.into_os_string().into_string().ok(),
        None => None,
    }
}

/// The arguments that go before an input's `-i`.
pub trait FfmpegInputArgs {
    spec fn spec_args(&self) -> Seq<Seq<char>>;

    fn args_for_input(&self) -> (r: Vec<String>)
        ensures
            views(r@) == self.spec_args();
}

impl FfmpegInputArgs for LocalInputSource {
    /// None: a file is opened as it is.
    open spec fn spec_args(&self) -> Seq<Seq<char>> {
        seq![]
    }

    fn args_for_input(&self) -> (r: Vec<String>) {
        let r: Vec<String> = Vec::new();
        assert(views(r@) =~= seq![]);
        r
    }
}

impl FfmpegInputArgs for LavfiInputSource {
    /// The lavfi format.
    open spec fn spec_args(&self) -> Seq<Seq<char>> {
        seq!["-f"@, "lavfi"@]
    }

    fn args_for_input(&self) -> (r: Vec<String>) {
        args2("-f", "lavfi")
    }
}

impl LocalInputSource {
    /// The path with a leading `~` component expanded to the home directory; a
    /// path whose first character is not `~` as it is.
    pub fn expand_path(&self) -> (r: Option<String>)
        ensures
            !starts_with_tilde(self.path@) ==> opt_string_view(r) == Some(self.path@),
    {
        expand_tilde_text(self.path.as_str())
    }
}

/// The reconnect arguments.
pub open spec fn reconnect_args() -> Seq<Seq<char>> {
    seq!["-reconnect"@, "1"@, "-reconnect_on_network_error"@, "1"@, "-reconnect_streamed"@, "1"@, "-multiple_requests"@, "1"@]
}

/// The headers, each followed by CR LF.
pub open spec fn header_text(headers: Seq<Seq<char>>) -> Seq<char>
    decreases headers.len(),
{
    if headers.len() == 0 {
        seq![]
    } else {
        header_text(headers.drop_last()) + headers.last() + "\r\n"@
    }
}

impl FfmpegInputArgs for HttpInputSource {
    /// Reconnection (with its delay), timeout, user agent and headers when set,
    /// then the protocols allowed.
    open spec fn spec_args(&self) -> Seq<Seq<char>> {
        let o = self.options;
        (if o.reconnect {
            reconnect_args() + match o.reconnect_delay_max {
                Some(d) => seq!["-reconnect_delay_max"@, dec(d as nat)],
                None => seq![],
            }
        } else {
            seq![]
        })
        + (match o.timeout_us { Some(t) => seq!["-timeout"@, dec(t as nat)], None => seq![] })
        + (match o.user_agent { Some(ua) => seq!["-user_agent"@, ua@], None => seq![] })
        + (if o.headers@.len() > 0 { seq!["-headers"@, header_text(views(o.headers@))] } else { seq![] })
        + seq!["-protocol_whitelist"@, "file,http,https,tcp,tls,crypto"@]
    }

    fn args_for_input(&self) -> (r: Vec<String>) {
        let o = &self.options;
        let mut args: Vec<String> = Vec::new();
        assert(views(args@) =~= seq![]);
        if o.reconnect {
            push_arg(&mut args, "-reconnect");
            push_arg(&mut args, "1");
            push_arg(&mut args, "-reconnect_on_network_error");
            push_arg(&mut args, "1");
            push_arg(&mut args, "-reconnect_streamed");
            push_arg(&mut args, "1");
            push_arg(&mut args, "-multiple_requests");
            push_arg(&mut args, "1");
            assert(views(args@) =~= reconnect_args());
            match o.reconnect_delay_max {
                Some(d) => {
                    let t = u64_to_string(d as u64);
                    let a = args2("-reconnect_delay_max", t.as_str());
                    extend_args(&mut args, &a);
                },
                None => {
                    assert(views(args@) =~= reconnect_args() + seq![]);
                },
            }
        }
        let ghost a1 = views(args@);
        match o.timeout_us {
            Some(t) => {
                let s = u64_to_string(t);
                let a = args2("-timeout", s.as_str());
                extend_args(&mut args, &a);
            },
            None => {
                assert(views(args@) =~= a1 + seq![]);
            },
        }
        let ghost a2 = views(args@);
        match &o.user_agent {
            Some(ua) => {
                let a = args2("-user_agent", ua.as_str());
                extend_args(&mut args, &a);
            },
            None => {
                assert(views(args@) =~= a2 + seq![]);
            },
        }
        let ghost a3 = views(args@);
        if o.headers.len() > 0 {
            let mut combined = String::new();
            let mut i: usize = 0;
            while i < o.headers.len()
                invariant
                    i <= o.headers.len(),
                    combined@ == header_text(views(o.headers@.take(i as int))),
                decreases o.headers.len() - i,
            {
                assert(views(o.headers@.take(i as int + 1)).drop_last() =~= views(o.headers@.take(i as int)));
                combined.append(o.headers[i].as_str());
                combined.append("\r\n");
                i = i + 1;
            }
            assert(o.headers@.take(i as int) =~= o.headers@);
            let a = args2("-headers", combined.as_str());
            extend_args(&mut args, &a);
        } else {
            assert(views(args@) =~= a3 + seq![]);
        }
        let a = args2("-protocol_whitelist", "file,http,https,tcp,tls,crypto");
        extend_args(&mut args, &a);
        args
    }
}

impl FfmpegInputArgs for InputSource {
    /// Those of the source.
    open spec fn spec_args(&self) -> Seq<Seq<char>> {
        match self {
            InputSource::Local(l) => l.spec_args(),
            InputSource::Lavfi(l) => l.spec_args(),
            InputSource::Http(h) => h.spec_args(),
        }
    }

    /// The arguments that go before the input: none for a file, the lavfi format
    /// for a libavfilter source, the HTTP options for HTTP.
    fn args_for_input(&self) -> (r: Vec<String>) {
        match self {
            InputSource::Local(l) => l.args_for_input(),
            InputSource::Lavfi(l) => l.args_for_input(),
            InputSource::Http(h) => h.args_for_input(),
        }
    }
}

/// A probed input and the part of it to use, in milliseconds.
pub struct ProbedInput {
    pub input_source: InputSource,
    pub probe_result: ProbeResult,
    pub in_point_ms: u64,
    pub out_point_ms: u64,
    pub audio_index: Option<u32>,
    pub video_index: Option<u32>,
}

/// The inputs of a pipeline.
pub struct InputSettings {
    pub audio_input: ProbedInput,
    pub video_input: ProbedInput,
    pub subtitle_input: Option<ProbedInput>,
}

/// Whether a stream is the wanted video stream: a video stream, of the given index if any.
pub open spec fn is_wanted_video(s: ProbeResultStream, index: Option<u32>) -> bool {
    s matches ProbeResultStream::Video(v) && (index matches Some(i) ==> v.stream_index == i)
}

/// Whether a stream is the wanted audio stream: an audio stream, of the given index if any.
pub open spec fn is_wanted_audio(s: ProbeResultStream, index: Option<u32>) -> bool {
    s matches ProbeResultStream::Audio(a) && (index matches Some(i) ==> a.stream_index == i)
}

/// The position of the first stream that `wanted` accepts.
pub open spec fn first_wanted(streams: Seq<ProbeResultStream>, wanted: spec_fn(ProbeResultStream) -> bool) -> Option<int> {
    if exists|i: int| 0 <= i < streams.len() && wanted(streams[i]) {
        Some(choose|i: int| 0 <= i < streams.len() && wanted(streams[i]) && forall|j: int| 0 <= j < i ==> !wanted(#[trigger] streams[j]))
    } else {
        None
    }
}

proof fn lemma_first_wanted(streams: Seq<ProbeResultStream>, wanted: spec_fn(ProbeResultStream) -> bool, k: int)
    requires
        0 <= k <= streams.len(),
        forall|j: int| 0 <= j < k ==> !wanted(#[trigger] streams[j]),
        k == streams.len() || wanted(streams[k]),
    ensures
        first_wanted(streams, wanted) == if k < streams.len() { Some(k) } else { None::<int> },
{
    if k < streams.len() {
        let c = choose|i: int| 0 <= i < streams.len() && wanted(streams[i]) && forall|j: int| 0 <= j < i ==> !wanted(#[trigger] streams[j]);
        assert(wanted(streams[k]));
        if c < k {
            assert(!wanted(streams[c]));
        } else if c > k {
            assert(!wanted(streams[k]));
        }
    }
}

/// The video stream that is used: the first video stream, of the input's video
/// index if it has one.
pub open spec fn video_stream_position(input: ProbedInput) -> Option<int> {
    first_wanted(input.probe_result.streams@, |s: ProbeResultStream| is_wanted_video(s, input.video_index))
}

/// The audio stream that is used: the first audio stream, of the input's audio
/// index if it has one.
pub open spec fn audio_stream_position(input: ProbedInput) -> Option<int> {
    first_wanted(input.probe_result.streams@, |s: ProbeResultStream| is_wanted_audio(s, input.audio_index))
}

/// The subtitle stream that is used: the first subtitle stream of the subtitle input.
pub open spec fn subtitle_stream_position(input: ProbedInput) -> Option<int> {
    first_wanted(input.probe_result.streams@, |s: ProbeResultStream| s is Subtitle)
}

impl InputSettings {
    /// The video stream (see `video_stream_position`), or the error that video is required.
    pub fn select_video_stream(&self) -> (r: Result<&ProbeResultVideoStream, FFPipelineError>)
        ensures
            match video_stream_position(self.video_input) {
                Some(i) => r matches Ok(v) && self.video_input.probe_result.streams@[i] == ProbeResultStream::Video(*v),
                None => r matches Err(FFPipelineError::VideoInputIsRequired),
            },
    {
        let streams = &self.video_input.probe_result.streams;
        let index = self.video_input.video_index;
        let ghost wanted = |s: ProbeResultStream| is_wanted_video(s, index);
        let mut i: usize = 0;
        while i < streams.len()
            invariant
                streams == &self.video_input.probe_result.streams,
                index == self.video_input.video_index,
                wanted == |s: ProbeResultStream| is_wanted_video(s, index),
                i <= streams.len(),
                forall|j: int| 0 <= j < i ==> !wanted(#[trigger] streams@[j]),
            decreases streams.len() - i,
        {
            match &streams[i] {
                ProbeResultStream::Video(v) => {
                    let ok = match index {
                        Some(k) => v.stream_index == k,
                        None => true,
                    };
                    if ok {
                        proof { lemma_first_wanted(streams@, wanted, i as int); }
                        return Ok(v);
                    }
                },
                _ => {},
            }
            i = i + 1;
        }
        proof { lemma_first_wanted(streams@, wanted, i as int); }
        Err(FFPipelineError::VideoInputIsRequired)
    }

    /// The audio stream (see `audio_stream_position`), or the error that audio is required.
    pub fn select_audio_stream(&self) -> (r: Result<&ProbeResultAudioStream, FFPipelineError>)
        ensures
            match audio_stream_position(self.audio_input) {
                Some(i) => r matches Ok(a) && self.audio_input.probe_result.streams@[i] == ProbeResultStream::Audio(*a),
                None => r matches Err(FFPipelineError::AudioInputIsRequired),
            },
    {
        let streams = &self.audio_input.probe_result.streams;
        let index = self.audio_input.audio_index;
        let ghost wanted = |s: ProbeResultStream| is_wanted_audio(s, index);
        let mut i: usize = 0;
        while i < streams.len()
            invariant
                streams == &self.audio_input.probe_result.streams,
                index == self.audio_input.audio_index,
                wanted == |s: ProbeResultStream| is_wanted_audio(s, index),
                i <= streams.len(),
                forall|j: int| 0 <= j < i ==> !wanted(#[trigger] streams@[j]),
            decreases streams.len() - i,
        {
            match &streams[i] {
                ProbeResultStream::Audio(a) => {
                    let ok = match index {
                        Some(k) => a.stream_index == k,
                        None => true,
                    };
                    if ok {
                        proof { lemma_first_wanted(streams@, wanted, i as int); }
                        return Ok(a);
                    }
                },
                _ => {},
            }
            i = i + 1;
        }
        proof { lemma_first_wanted(streams@, wanted, i as int); }
        Err(FFPipelineError::AudioInputIsRequired)
    }

    /// The subtitle stream (see `subtitle_stream_position`), if there is a subtitle input.
    pub fn select_subtitle_stream(&self) -> (r: Option<&ProbeResultSubtitleStream>)
        ensures
            match self.subtitle_input {
                Some(input) => match subtitle_stream_position(input) {
                    Some(i) => r matches Some(t) && input.probe_result.streams@[i] == ProbeResultStream::Subtitle(*t),
                    None => r is None,
                },
                None => r is None,
            },
    {
        let input = match &self.subtitle_input {
            Some(input) => input,
            None => return None,
        };
        let streams = &input.probe_result.streams;
        let ghost wanted = |s: ProbeResultStream| s is Subtitle;
        let mut i: usize = 0;
        while i < streams.len()
            invariant
                streams == &input.probe_result.streams,
                self.subtitle_input == Some(*input),
                wanted == |s: ProbeResultStream| s is Subtitle,
                i <= streams.len(),
                forall|j: int| 0 <= j < i ==> !wanted(#[trigger] streams@[j]),
            decreases streams.len() - i,
        {
            match &streams[i] {
                ProbeResultStream::Subtitle(t) => {
                    proof { lemma_first_wanted(streams@, wanted, i as int); }
                    return Some(t);
                },
                _ => {},
            }
            i = i + 1;
        }
        proof { lemma_first_wanted(streams@, wanted, i as int); }
        None
    }
}

} // verus!
