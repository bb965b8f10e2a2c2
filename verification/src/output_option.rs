use vstd::prelude::*;
use crate::frame_rate::FrameRate;
use crate::output_format::{context_fps, OutputFormat};
use crate::pipeline::{Kbps, OutputContext, PtsOffset, KEYFRAME_INTERVAL_SECONDS};
use crate::text::{args1, args2, args4, dec, push_arg, u64_to_string, views};
use crate::video_codec::{AudioCodec, VideoCodec};

verus! {

/// An option of the output.
pub enum OutputOption {
    Format(OutputFormat),
    VideoCodec(VideoCodec),
    VideoBitrate(Option<Kbps>),
    VideoBuffer(Option<Kbps>),
    AudioCodec(AudioCodec),
    AudioBitrate(Option<Kbps>),
    AudioBuffer(Option<Kbps>),
    AudioChannels(Option<u32>),
    AudioSampleRate(Option<crate::pipeline::Hz>),
    /// The output's duration in milliseconds.
    Duration(u64),
    TsOffset(Option<PtsOffset>),
    VideoTrackTimeScale(u32),
    CudaNoAutoScale,
    NoDemuxDecodeDelay,
    MovFlagsFastStart,
    DoNotMapMetadata,
    FrameRate(Option<FrameRate>),
}

/// `Nk`.
pub open spec fn kbps_text(k: Kbps) -> Seq<char> {
    dec(k.0 as nat) + "k"@
}

/// `Nms`.
pub open spec fn ms_text(ms: nat) -> Seq<char> {
    dec(ms) + "ms"@
}

fn kbps_string(k: Kbps) -> (r: String)
    ensures
        r@ == kbps_text(k),
{
    let mut s = u64_to_string(k.0 as u64);
    s.append("k");
    s
}

fn ms_string(ms: u64) -> (r: String)
    ensures
        r@ == ms_text(ms as nat),
{
    let mut s = u64_to_string(ms);
    s.append("ms");
    s
}

impl OutputOption {
    pub open spec fn spec_arg(&self, ctx: OutputContext) -> Seq<Seq<char>> {
        match self {
            OutputOption::Format(f) => f.spec_arg(ctx),
            OutputOption::VideoCodec(c) => seq!["-vcodec"@, c.codec_name@] + views(c.options@),
            OutputOption::VideoBitrate(Some(k)) => seq!["-b:v"@, kbps_text(*k), "-maxrate:v"@, kbps_text(*k)],
            OutputOption::VideoBuffer(Some(k)) => seq!["-bufsize:v"@, kbps_text(*k)],
            OutputOption::AudioCodec(c) => seq!["-acodec"@, c.spec_name()],
            OutputOption::AudioBitrate(Some(k)) => seq!["-b:a"@, kbps_text(*k), "-maxrate:a"@, kbps_text(*k)],
            OutputOption::AudioBuffer(Some(k)) => seq!["-bufsize:a"@, kbps_text(*k)],
            OutputOption::AudioChannels(Some(c)) => seq!["-ac"@, dec(*c as nat)],
            OutputOption::AudioSampleRate(Some(h)) => seq!["-ar"@, dec(h.0 as nat)],
            OutputOption::Duration(ms) => seq!["-t"@, ms_text(*ms as nat)],
            OutputOption::TsOffset(Some(p)) => if p.duration_ms > 0 {
                seq!["-output_ts_offset"@, ms_text(p.duration_ms as nat)]
            } else {
                seq![]
            },
            OutputOption::VideoTrackTimeScale(t) => seq!["-video_track_timescale"@, dec(*t as nat)],
            OutputOption::CudaNoAutoScale => seq!["-noautoscale"@],
            OutputOption::NoDemuxDecodeDelay => seq!["-muxdelay"@, "0"@, "-muxpreload"@, "0"@],
            OutputOption::MovFlagsFastStart => seq!["-movflags"@, "+faststart"@],
            OutputOption::DoNotMapMetadata => seq!["-map_metadata"@, "-1"@],
            OutputOption::FrameRate(Some(f)) => seq!["-r"@, f.r_frame_rate@, "-vsync"@, "cfr"@],
            _ => seq![],
        }
    }

    /// The option's arguments (see `spec_arg`).
    pub fn as_arg(&self, ctx: &OutputContext) -> (r: Vec<String>)
        requires
            ctx.media_frame_rate.wf(),
            context_fps(*ctx) * KEYFRAME_INTERVAL_SECONDS <= u32::MAX,
        ensures
            views(r@) == self.spec_arg(*ctx),
    {
        match self {
            OutputOption::Format(f) => f.as_arg(ctx),
            OutputOption::VideoCodec(c) => c.as_arg(),
            OutputOption::VideoBitrate(Some(k)) => {
                let t = kbps_string(*k);
                args4("-b:v", t.as_str(), "-maxrate:v", t.as_str())
            },
            OutputOption::VideoBuffer(Some(k)) => {
                let t = kbps_string(*k);
                args2("-bufsize:v", t.as_str())
            },
            OutputOption::AudioCodec(c) => c.as_arg(),
            OutputOption::AudioBitrate(Some(k)) => {
                let t = kbps_string(*k);
                args4("-b:a", t.as_str(), "-maxrate:a", t.as_str())
            },
            OutputOption::AudioBuffer(Some(k)) => {
                let t = kbps_string(*k);
                args2("-bufsize:a", t.as_str())
            },
            OutputOption::AudioChannels(Some(c)) => {
                let t = u64_to_string(*c as u64);
                args2("-ac", t.as_str())
            },
            OutputOption::AudioSampleRate(Some(h)) => {
                let t = u64_to_string(h.0 as u64);
                args2("-ar", t.as_str())
            },
            OutputOption::Duration(ms) => {
                let t = ms_string(*ms);
                args2("-t", t.as_str())
            },
            OutputOption::TsOffset(Some(p)) => if p.duration_ms > 0 {
                let t = ms_string(p.duration_ms);
                args2("-output_ts_offset", t.as_str())
            } else {
                let r: Vec<String> = Vec::new();
                assert(views(r@) =~= seq![]);
                r
            },
            OutputOption::VideoTrackTimeScale(t) => {
                let s = u64_to_string(*t as u64);
                args2("-video_track_timescale", s.as_str())
            },
            OutputOption::CudaNoAutoScale => args1("-noautoscale"),
            OutputOption::NoDemuxDecodeDelay => args4("-muxdelay", "0", "-muxpreload", "0"),
            OutputOption::MovFlagsFastStart => args2("-movflags", "+faststart"),
            OutputOption::DoNotMapMetadata => args2("-map_metadata", "-1"),
            OutputOption::FrameRate(Some(f)) => args4("-r", f.r_frame_rate.as_str(), "-vsync", "cfr"),
            _ => {
                let r: Vec<String> = Vec::new();
                assert(views(r@) =~= seq![]);
                r
            },
        }
    }
}

} // verus!
