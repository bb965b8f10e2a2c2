use vstd::prelude::*;
use crate::frame_size::round_half_even;
use crate::pipeline::{OutputContext, KEYFRAME_INTERVAL_SECONDS, SEGMENT_SECONDS};
use crate::text::{dec, push_arg, u64_to_string, views};

verus! {

/// How the output is written.
pub enum OutputFormat {
    Hls {
        playlist: String,
        segment_template: String,
    },
}

/// The key frame arguments: a group of pictures of `gop` frames, key frames forced
/// every key frame interval.
pub open spec fn keyframe_args(gop: nat) -> Seq<Seq<char>> {
    seq!["-g"@, dec(gop), "-keyint_min"@, dec(gop), "-force_key_frames"@, "expr:gte(t,n_forced*"@ + dec(KEYFRAME_INTERVAL_SECONDS as nat) + ")"@]
}

/// The HLS muxer arguments for a segment file template.
pub open spec fn hls_args(segment_template: Seq<char>) -> Seq<Seq<char>> {
    seq!["-f"@, "hls"@, "-hls_time"@, dec(SEGMENT_SECONDS as nat), "-hls_list_size"@, "0"@, "-segment_list_flags"@, "+live"@,
        "-hls_segment_filename"@, segment_template, "-hls_segment_type"@, "mpegts"@, "-hls_flags"@,
        "program_date_time+omit_endlist+append_list+independent_segments"@]
}

/// The rounded media frame rate of the context.
pub open spec fn context_fps(ctx: OutputContext) -> nat {
    round_half_even(ctx.media_frame_rate.num as nat, ctx.media_frame_rate.den as nat)
}

impl OutputFormat {
    /// The muxer arguments: key frame arguments unless the video is copied, the
    /// HLS arguments, and an initial discontinuity unless timestamps are offset.
    pub open spec fn spec_arg(&self, ctx: OutputContext) -> Seq<Seq<char>> {
        match self {
            OutputFormat::Hls { segment_template, .. } => {
                (if ctx.video_codec.codec_name@ == "copy"@ { seq![] } else { keyframe_args(context_fps(ctx) * KEYFRAME_INTERVAL_SECONDS as nat) })
                    + hls_args(segment_template@)
                    + (if ctx.pts_offset matches Some(p) && p.duration_ms > 0 { seq![] } else {
                        seq!["-hls_segment_options"@, "mpegts_flags=+initial_discontinuity"@] })
            },
        }
    }

    /// The muxer arguments (see `spec_arg`).
    pub fn as_arg(&self, ctx: &OutputContext) -> (r: Vec<String>)
        requires
            ctx.media_frame_rate.wf(),
            context_fps(*ctx) * KEYFRAME_INTERVAL_SECONDS <= u32::MAX,
        ensures
            views(r@) == self.spec_arg(*ctx),
    {
        let mut args: Vec<String> = Vec::new();
        assert(views(args@) =~= seq![]);
        match self {
            OutputFormat::Hls { segment_template, .. } => {
                let ghost a0 = views(args@);
                if !ctx.video_codec.is_copy() {
                    let gop = ctx.media_frame_rate.rounded() * (KEYFRAME_INTERVAL_SECONDS as u64);
                    let g = u64_to_string(gop);
                    let mut kf = "expr:gte(t,n_forced*".to_owned();
                    let k = u64_to_string(KEYFRAME_INTERVAL_SECONDS as u64);
                    kf.append(k.as_str());
                    kf.append(")");
                    push_arg(&mut args, "-g");
                    push_arg(&mut args, g.as_str());
                    push_arg(&mut args, "-keyint_min");
                    push_arg(&mut args, g.as_str());
                    push_arg(&mut args, "-force_key_frames");
                    push_arg(&mut args, kf.as_str());
                    assert(views(args@) =~= keyframe_args(context_fps(*ctx) * KEYFRAME_INTERVAL_SECONDS as nat));
                }
                let ghost a1 = views(args@);
                let seg = u64_to_string(SEGMENT_SECONDS as u64);
                push_arg(&mut args, "-f");
                push_arg(&mut args, "hls");
                push_arg(&mut args, "-hls_time");
                push_arg(&mut args, seg.as_str());
                push_arg(&mut args, "-hls_list_size");
                push_arg(&mut args, "0");
                push_arg(&mut args, "-segment_list_flags");
                push_arg(&mut args, "+live");
                push_arg(&mut args, "-hls_segment_filename");
                push_arg(&mut args, segment_template.as_str());
                push_arg(&mut args, "-hls_segment_type");
                push_arg(&mut args, "mpegts");
                push_arg(&mut args, "-hls_flags");
                push_arg(&mut args, "program_date_time+omit_endlist+append_list+independent_segments");
                assert(views(args@) =~= a1 + hls_args(segment_template@));
                let ghost a2 = views(args@);
                let offset = match ctx.pts_offset {
                    Some(p) => p.duration_ms > 0,
                    None => false,
                };
                if !offset {
                    push_arg(&mut args, "-hls_segment_options");
                    push_arg(&mut args, "mpegts_flags=+initial_discontinuity");
                    assert(views(args@) =~= a2 + seq!["-hls_segment_options"@, "mpegts_flags=+initial_discontinuity"@]);
                } else {
                    assert(views(args@) =~= a2 + seq![]);
                }
            },
        }
        args
    }

    /// The playlist's path.
    pub fn path(&self) -> (r: String)
        ensures
            r@ == match self {
                OutputFormat::Hls { playlist, .. } => playlist@,
            },
    {
        match self {
            OutputFormat::Hls { playlist, .. } => playlist.clone(),
        }
    }
}

} // verus!
