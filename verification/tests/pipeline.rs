use ffpipeline::error::FFPipelineError;
use ffpipeline::ffmpeg_info::FfmpegInfo;
use ffpipeline::frame_rate::FrameRate;
use ffpipeline::input::{InputSettings, InputSource, LocalInputSource, ProbedInput};
use ffpipeline::output_format::OutputFormat;
use ffpipeline::output_settings::{AudioOutputSettings, OutputSettings, ScalingMode, SubtitleMode, VideoFilterOptions};
use ffpipeline::pipeline::{generate_pipeline, AudioFormat, FrameSurface, Kbps, Pipeline, VideoFormat};
use ffpipeline::probe::{ProbeResult, ProbeResultAudioStream, ProbeResultStream, ProbeResultVideoStream};

#[test]
fn device_name_returns_correct_ffmpeg_device_strings() {
    assert_eq!(FrameSurface::Cuda.device_name(), Some("cuda"));
    assert_eq!(FrameSurface::OpenCL.device_name(), Some("opencl"));
    assert_eq!(FrameSurface::Qsv.device_name(), Some("qsv"));
    assert_eq!(FrameSurface::Vaapi.device_name(), Some("vaapi"));
    assert_eq!(FrameSurface::Vulkan.device_name(), Some("vulkan"));
    assert_eq!(FrameSurface::VideoToolbox.device_name(), Some("videotoolbox"));
    assert_eq!(FrameSurface::System.device_name(), None);
}

fn video_stream() -> ProbeResultStream {
    ProbeResultStream::Video(ProbeResultVideoStream {
        stream_index: 0,
        codec: String::from("h264"),
        profile: String::from("high"),
        pix_fmt: String::from("yuv420p"),
        height: 1080,
        width: 1920,
        frame_rate: FrameRate::parse("24/1"),
        sample_aspect_ratio: Some(String::from("1:1")),
        display_aspect_ratio: Some(String::from("16:9")),
        field_order: None,
        is_hdr: false,
    })
}

fn audio_stream() -> ProbeResultStream {
    ProbeResultStream::Audio(ProbeResultAudioStream { stream_index: 1, codec: String::from("aac"), channels: 2 })
}

fn probed(path: &str, streams: Vec<ProbeResultStream>, in_point_ms: u64, out_point_ms: u64) -> ProbedInput {
    ProbedInput {
        input_source: InputSource::Local(LocalInputSource { path: String::from(path) }),
        probe_result: ProbeResult { path: String::from(path), streams, duration_ms: Some(out_point_ms) },
        in_point_ms,
        out_point_ms,
        audio_index: None,
        video_index: None,
    }
}

fn output_settings() -> OutputSettings {
    OutputSettings {
        audio: AudioOutputSettings {
            format: Some(AudioFormat::Aac),
            bitrate: Some(Kbps(192)),
            buffer: Some(Kbps(384)),
            channels: Some(2),
            sample_rate: None,
            loudness: None,
        },
        video_format: Some(VideoFormat::H264),
        bit_depth: Some(8),
        video_bitrate: Some(Kbps(2000)),
        video_buffer: Some(Kbps(4000)),
        video_size: None,
        scaling_mode: ScalingMode::ScaleAndPad,
        filter_options: VideoFilterOptions::default(),
        deinterlace: false,
        accel: None,
        format: OutputFormat::Hls {
            playlist: String::from("live.m3u8"),
            segment_template: String::from("live%06d.ts"),
        },
        pts_offset: None,
        realtime: false,
        is_live: false,
        frame_rate: None,
        subtitle_mode: SubtitleMode::Burn,
        save_reports: false,
        reports_folder: None,
    }
}

fn movie_pipeline() -> Pipeline {
    let inputs = InputSettings {
        audio_input: probed("/media/movie.mkv", vec![video_stream(), audio_stream()], 0, 60_000),
        video_input: probed("/media/movie.mkv", vec![video_stream(), audio_stream()], 0, 60_000),
        subtitle_input: None,
    };
    built(inputs)
}

fn built(inputs: InputSettings) -> Pipeline {
    let mut p = match generate_pipeline(&FfmpegInfo::default(), inputs, output_settings()) {
        Ok(p) => p,
        Err(_) => panic!("a pipeline with audio and video must build"),
    };
    p.optimize();
    p
}

fn position_of(args: &[String], a: &str) -> Option<usize> {
    args.iter().position(|x| x == a)
}

#[test]
fn generate_pipeline_requires_a_video_stream() {
    let inputs = InputSettings {
        audio_input: probed("/media/a.mkv", vec![audio_stream()], 0, 1_000),
        video_input: probed("/media/a.mkv", vec![audio_stream()], 0, 1_000),
        subtitle_input: None,
    };
    let r = generate_pipeline(&FfmpegInfo::default(), inputs, output_settings());
    assert!(matches!(r, Err(FFPipelineError::VideoInputIsRequired)));
}

#[test]
fn generate_pipeline_requires_an_audio_stream() {
    let inputs = InputSettings {
        audio_input: probed("/media/v.mkv", vec![video_stream()], 0, 1_000),
        video_input: probed("/media/v.mkv", vec![video_stream()], 0, 1_000),
        subtitle_input: None,
    };
    let r = generate_pipeline(&FfmpegInfo::default(), inputs, output_settings());
    assert!(matches!(r, Err(FFPipelineError::AudioInputIsRequired)));
}

#[test]
fn args_start_with_the_global_options() {
    let args = movie_pipeline().args();
    let expected = ["-threads", "0", "-nostdin", "-hide_banner", "-loglevel", "error", "-fflags", "+genpts+discardcorrupt+igndts"];
    assert_eq!(&args[..expected.len()], &expected.map(String::from)[..]);
}

#[test]
fn args_open_a_shared_input_once_and_map_its_streams() {
    let args = movie_pipeline().args();
    assert_eq!(args.iter().filter(|a| a.as_str() == "-i").count(), 1);
    let i = position_of(&args, "-i").unwrap();
    assert_eq!(args[i + 1], "/media/movie.mkv");
    let maps: Vec<&String> = args.iter().enumerate().filter(|(k, _)| *k > 0 && args[k - 1] == "-map").map(|(_, a)| a).collect();
    assert_eq!(maps, vec!["0:0", "[a]"]);
    let graph = &args[position_of(&args, "-filter_complex").unwrap() + 1];
    assert!(graph.starts_with("[0:1]"), "{graph}");
}

#[test]
fn args_hold_the_output_options() {
    let args = movie_pipeline().args();
    let v = position_of(&args, "-vcodec").unwrap();
    assert_eq!(args[v + 1], "libx264");
    let a = position_of(&args, "-acodec").unwrap();
    assert_eq!(args[a + 1], "aac");
    let t = position_of(&args, "-t").unwrap();
    assert_eq!(args[t + 1], "60000ms");
    let b = position_of(&args, "-b:v").unwrap();
    assert_eq!(args[b + 1], "2000k");
    assert_eq!(args.last().unwrap(), "mpegts_flags=+initial_discontinuity");
}

#[test]
fn args_seek_into_the_video_input() {
    let inputs = InputSettings {
        audio_input: probed("/media/movie.mkv", vec![video_stream(), audio_stream()], 5_000, 65_000),
        video_input: probed("/media/movie.mkv", vec![video_stream(), audio_stream()], 5_000, 65_000),
        subtitle_input: None,
    };
    let args = built(inputs).args();
    let ss = position_of(&args, "-ss").unwrap();
    assert_eq!(args[ss + 1], "5000ms");
    assert!(ss < position_of(&args, "-i").unwrap());
}

#[test]
fn separate_audio_input_gets_its_own_number() {
    let inputs = InputSettings {
        audio_input: probed("/media/music.flac", vec![audio_stream()], 0, 60_000),
        video_input: probed("/media/movie.mkv", vec![video_stream(), audio_stream()], 0, 60_000),
        subtitle_input: None,
    };
    let args = built(inputs).args();
    let inputs: Vec<&String> = args.iter().enumerate().filter(|(k, _)| *k > 0 && args[k - 1] == "-i").map(|(_, a)| a).collect();
    assert_eq!(inputs, vec!["/media/movie.mkv", "/media/music.flac"]);
    let maps: Vec<&String> = args.iter().enumerate().filter(|(k, _)| *k > 0 && args[k - 1] == "-map").map(|(_, a)| a).collect();
    assert_eq!(maps, vec!["0:0", "[a]"]);
    let graph = &args[position_of(&args, "-filter_complex").unwrap() + 1];
    assert!(graph.starts_with("[1:1]"), "{graph}");
}

#[test]
fn movie_pipeline_needs_no_environment() {
    assert!(movie_pipeline().envs().is_empty());
}
