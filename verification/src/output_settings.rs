use vstd::prelude::*;
use crate::frame_rate::FrameRate;
use crate::frame_size::FrameSize;
use crate::hw_accel::HardwareAccel;
use crate::output_format::OutputFormat;
use crate::pipeline::{AudioFormat, Hz, Kbps, PtsOffset, VideoFormat};

verus! {

/// Options of the video filters that take options.
pub struct VideoFilterOptions {
    pub bwdif: BwdifOptions,
    pub bwdif_cuda: BwdifCudaOptions,
    pub deinterlace_qsv: DeinterlaceQsvOptions,
    pub deinterlace_vaapi: DeinterlaceVaapiOptions,
    pub libplacebo: LibplaceboOptions,
    pub tonemap: TonemapOptions,
    pub tonemap_opencl: TonemapOpenclOptions,
    pub w3fdif: W3fdifOptions,
    pub yadif: YadifOptions,
    pub yadif_cuda: YadifCudaOptions,
}

pub struct BwdifOptions {
    pub mode: Option<String>,
}

pub struct DeinterlaceQsvOptions {
    pub mode: Option<String>,
}

pub struct DeinterlaceVaapiOptions {
    pub mode: Option<String>,
}

pub struct BwdifCudaOptions {
    pub mode: Option<String>,
}

pub struct LibplaceboOptions {
    pub tonemapping: Option<String>,
}

pub struct TonemapOptions {
    pub tonemap: Option<String>,
}

pub struct TonemapOpenclOptions {
    pub tonemap: Option<String>,
}

pub struct W3fdifOptions {
    pub mode: Option<String>,
}

pub struct YadifOptions {
    pub mode: Option<String>,
}

pub struct YadifCudaOptions {
    pub mode: Option<String>,
}

impl VideoFilterOptions {
    /// Options with nothing set.
    pub fn default() -> (r: VideoFilterOptions)
        ensures
            r.deinterlace_vaapi.mode.is_none(),
            r.tonemap_opencl.tonemap.is_none(),
            r.tonemap.tonemap.is_none(),
            r.libplacebo.tonemapping.is_none(),
            r.bwdif.mode.is_none(),
            r.bwdif_cuda.mode.is_none(),
            r.deinterlace_qsv.mode.is_none(),
            r.w3fdif.mode.is_none(),
            r.yadif.mode.is_none(),
            r.yadif_cuda.mode.is_none(),
    {
        VideoFilterOptions {
            bwdif: BwdifOptions { mode: None },
            bwdif_cuda: BwdifCudaOptions { mode: None },
            deinterlace_qsv: DeinterlaceQsvOptions { mode: None },
            deinterlace_vaapi: DeinterlaceVaapiOptions { mode: None },
            libplacebo: LibplaceboOptions { tonemapping: None },
            tonemap: TonemapOptions { tonemap: None },
            tonemap_opencl: TonemapOpenclOptions { tonemap: None },
            w3fdif: W3fdifOptions { mode: None },
            yadif: YadifOptions { mode: None },
            yadif_cuda: YadifCudaOptions { mode: None },
        }
    }
}

/// Loudness normalization targets, in hundredths (of LUFS, LU and dBTP).
#[derive(Debug, Clone, Copy, PartialEq, Eq, Structural)]
pub struct AudioLoudnessSettings {
    pub integrated_target_centi: i32,
    pub range_target_centi: i32,
    pub true_peak_centi: i32,
}

impl AudioLoudnessSettings {
    /// The usual targets: -16 LUFS, 11 LU, -1.5 dBTP.
    pub fn default() -> (r: AudioLoudnessSettings)
        ensures
            r.integrated_target_centi == -1600,
            r.range_target_centi == 1100,
            r.true_peak_centi == -150,
    {
        AudioLoudnessSettings { integrated_target_centi: -1600, range_target_centi: 1100, true_peak_centi: -150 }
    }
}

pub struct AudioOutputSettings {
    pub format: Option<AudioFormat>,
    pub bitrate: Option<Kbps>,
    pub buffer: Option<Kbps>,
    pub channels: Option<u32>,
    pub sample_rate: Option<Hz>,
    pub loudness: Option<AudioLoudnessSettings>,
}

#[derive(Debug, Clone, Copy, PartialEq, Eq, Structural)]
pub enum SubtitleMode {
    Burn,
    Convert,
}

#[derive(Debug, Clone, Copy, PartialEq, Eq, Structural)]
pub enum ScalingMode {
    ScaleAndPad,
    Stretch,
    Crop,
}

/// What the output of a pipeline should be.
pub struct OutputSettings {
    pub audio: AudioOutputSettings,
    pub video_format: Option<VideoFormat>,
    pub bit_depth: Option<u8>,
    pub video_bitrate: Option<Kbps>,
    pub video_buffer: Option<Kbps>,
    pub video_size: Option<FrameSize>,
    pub scaling_mode: ScalingMode,
    pub filter_options: VideoFilterOptions,
    pub deinterlace: bool,
    pub accel: Option<HardwareAccel>,
    pub format: OutputFormat,
    pub pts_offset: Option<PtsOffset>,
    pub realtime: bool,
    pub is_live: bool,
    pub frame_rate: Option<FrameRate>,
    pub subtitle_mode: SubtitleMode,
    pub save_reports: bool,
    pub reports_folder: Option<String>,
}

} // verus!
