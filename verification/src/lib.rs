pub mod accel;
pub mod capabilities;
pub mod error;
pub mod ffmpeg_info;
pub mod frame_size;
pub mod output_settings;
pub mod pipeline;
pub mod text;
pub mod video_filter;
pub mod video_codec;
pub mod audio_filter;
pub mod overlay_filter;
pub mod filter_chain;
pub mod probe;
pub mod hw_accel;
pub mod frame_rate;
pub mod output_format;
pub mod global_option;
pub mod hardware_accel;
pub mod output_option;
pub mod input;
pub mod video_decoder;
pub mod pipeline_args;
pub mod fade_timing;
pub mod capability_report;
