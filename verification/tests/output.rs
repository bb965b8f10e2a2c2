use ffpipeline::audio_filter::AudioFilter;
use ffpipeline::error::FFPipelineError;
use ffpipeline::frame_rate::FrameRate;
use ffpipeline::global_option::{GlobalOption, LogLevel};
use ffpipeline::hardware_accel::HardwareAccel;
use ffpipeline::output_format::OutputFormat;
use ffpipeline::output_option::OutputOption;
use ffpipeline::output_settings::AudioLoudnessSettings;
use ffpipeline::pipeline::{FrameSurface, Hz, Kbps, OutputContext, PtsOffset};
use ffpipeline::video_codec::{AudioCodec, VideoCodec};

fn context(frame_rate: &str, video_codec: VideoCodec, pts_offset: Option<PtsOffset>) -> OutputContext {
    OutputContext {
        media_frame_rate: FrameRate::parse(frame_rate),
        audio_codec: AudioCodec::Aac,
        audio_channels: Some(2),
        video_codec,
        pts_offset,
        preferred_surface: FrameSurface::System,
        preferred_pixel_format: None,
    }
}

#[test]
fn frame_rates_round_half_to_even() {
    assert_eq!(FrameRate::parse("30000/1001").rounded(), 30);
    assert_eq!(FrameRate::parse("25/2").rounded(), 12);
    assert_eq!(FrameRate::parse("27/2").rounded(), 14);
    assert_eq!(FrameRate::parse("29.97").rounded(), 30);
    assert_eq!(FrameRate::parse("0/0").rounded(), 24);
    assert_eq!(FrameRate::parse("abc/1").rounded(), 24);
}

#[test]
fn frame_rate_with_exponent() {
    assert_eq!(FrameRate::parse("3e1").rounded(), 30);
    assert_eq!(FrameRate::parse("2.997e1").rounded(), 30);
}

#[test]
fn frame_rate_without_number_or_slash_is_24() {
    assert_eq!(FrameRate::parse("").rounded(), 24);
    assert_eq!(FrameRate::parse("abc").rounded(), 24);
    assert_eq!(FrameRate::parse("abc").r_frame_rate, "abc");
}

#[test]
fn hls_format_arguments() {
    let format = OutputFormat::Hls { playlist: String::from("live.m3u8"), segment_template: String::from("seg%06d.ts") };
    let args = format.as_arg(&context("30000/1001", VideoCodec::libx264(), None));
    assert_eq!(&args[..6], &["-g", "60", "-keyint_min", "60", "-force_key_frames", "expr:gte(t,n_forced*2)"]);
    assert!(args.contains(&String::from("seg%06d.ts")));
    assert_eq!(&args[args.len() - 2..], &["-hls_segment_options", "mpegts_flags=+initial_discontinuity"]);

    let copied = format.as_arg(&context("25/1", VideoCodec::copy(), Some(PtsOffset { duration_ms: 1000 })));
    assert_eq!(copied[0], "-f");
    assert!(!copied.contains(&String::from("-hls_segment_options")));
    assert_eq!(format.path(), "live.m3u8");
}

#[test]
fn output_option_arguments() {
    let ctx = context("24/1", VideoCodec::libx265(), None);
    assert_eq!(OutputOption::VideoBitrate(Some(Kbps(2000))).as_arg(&ctx), vec!["-b:v", "2000k", "-maxrate:v", "2000k"]);
    assert_eq!(OutputOption::AudioChannels(Some(6)).as_arg(&ctx), vec!["-ac", "6"]);
    assert!(OutputOption::AudioChannels(None).as_arg(&ctx).is_empty());
    assert_eq!(OutputOption::AudioSampleRate(Some(Hz(44100))).as_arg(&ctx), vec!["-ar", "44100"]);
    assert_eq!(OutputOption::Duration(90_500).as_arg(&ctx), vec!["-t", "90500ms"]);
    assert_eq!(OutputOption::TsOffset(Some(PtsOffset { duration_ms: 250 })).as_arg(&ctx), vec!["-output_ts_offset", "250ms"]);
    assert!(OutputOption::TsOffset(Some(PtsOffset { duration_ms: 0 })).as_arg(&ctx).is_empty());
    assert_eq!(
        OutputOption::VideoCodec(VideoCodec::libx265()).as_arg(&ctx),
        vec!["-vcodec", "libx265", "-tag:v", "hvc1", "-x265-params", "log-level=error"]
    );
    assert_eq!(OutputOption::AudioCodec(AudioCodec::Ac3).as_arg(&ctx), vec!["-acodec", "ac3"]);
    assert_eq!(
        OutputOption::FrameRate(Some(FrameRate::parse("30/1"))).as_arg(&ctx),
        vec!["-r", "30/1", "-vsync", "cfr"]
    );
    assert_eq!(OutputOption::VideoTrackTimeScale(90_000).as_arg(&ctx), vec!["-video_track_timescale", "90000"]);
}

#[test]
fn global_option_arguments() {
    assert_eq!(GlobalOption::Threads(4).as_arg(), vec!["-threads", "4"]);
    assert_eq!(GlobalOption::LogLevel(LogLevel::Error).as_arg(), vec!["-loglevel", "error"]);
    assert_eq!(GlobalOption::InitHwDevice(vec![String::from("-init_hw_device"), String::from("vaapi=va")]).as_arg(), vec![
        "-init_hw_device",
        "vaapi=va"
    ]);
}

#[test]
fn hardware_accel_arguments() {
    assert_eq!(HardwareAccel::Cuda.as_arg(), vec!["-init_hw_device", "cuda", "-hwaccel", "cuda"]);
    assert_eq!(HardwareAccel::Qsv.as_arg(), vec!["-hwaccel", "qsv"]);
    assert_eq!(HardwareAccel::VideoToolbox.as_arg(), vec!["-hwaccel", "videotoolbox"]);
}

#[test]
fn audio_filter_arguments() {
    assert_eq!(AudioFilter::Resample.as_arg(), Some(String::from("aresample=async=1")));
    assert_eq!(AudioFilter::Pad.as_arg(), Some(String::from("apad")));
    let loudnorm = AudioFilter::LoudNorm { settings: Some(AudioLoudnessSettings::default()), sample_rate: None };
    assert_eq!(loudnorm.as_arg(), Some(String::from("loudnorm=I=-16:TP=-1.5:LRA=11,aresample=48000")));
    assert_eq!(AudioFilter::LoudNorm { settings: None, sample_rate: Some(Hz(44100)) }.as_arg(), None);
}

#[test]
fn error_messages() {
    assert_eq!(FFPipelineError::ProbeFailed.message(), "ffprobe failed");
    assert_eq!(FFPipelineError::ProbeFailedToParse.message(), "failed to parse ffprobe output");
    assert_eq!(FFPipelineError::AudioInputIsRequired.message(), "audio input is required");
    assert_eq!(FFPipelineError::VideoInputIsRequired.message(), "video input is required");
    assert_eq!(
        FFPipelineError::FfmpegCapabilitiesError(String::from("hwaccels")).message(),
        "error detecting ffmpeg capabilities: hwaccels"
    );
    assert_eq!(
        FFPipelineError::VaapiCapabilitiesError(String::from("vaInitialize failed: -1")).message(),
        "error detecting vaapi capabilities: vaInitialize failed: -1"
    );
    assert_eq!(
        FFPipelineError::OpenCLCapabilitiesError(String::from("x")).message(),
        "error detecting opencl capabilities: x"
    );
}
