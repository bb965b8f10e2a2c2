use vstd::prelude::*;
use crate::ffmpeg_info::FfmpegInfo;
use crate::filter_chain::{duplicate_pipeline_filters, filter_views, PipelineFilter, PipelineFilterView};
use crate::hw_accel::{opt_decoder_view, HardwareAccel, HwAccel, HwDecoder};
use crate::pipeline::{FrameSurface, PixelFormat};
use crate::probe::ProbeResultVideoStream;
use crate::text::{extend_args, views};

verus! {

/// How the video input is decoded: not at all (stream copy or a still image),
/// in software, or by a hardware decoder of an accel.
pub enum VideoDecoder {
    Disabled,
    Software,
    HardwareAccel {
        accel: Box<HardwareAccel>,
        decoder: HwDecoder,
    },
}

impl VideoDecoder {
    /// No decoder when the video is copied or is a still image; the accel's
    /// hardware decoder when there is an accel that has one for the stream;
    /// software otherwise.
    pub fn new(info: &FfmpegInfo, stream: &ProbeResultVideoStream, is_still_image: bool, copies_video: bool,
        accel: &Option<HardwareAccel>) -> (r: VideoDecoder)
        ensures
            (copies_video || is_still_image) ==> r is Disabled,
            !(copies_video || is_still_image) ==> match accel {
                Some(a) => match a.spec_make_decoder(*info, stream.codec@, stream.profile@, stream.pix_fmt@, stream.is_hdr) {
                    Some(d) => (r matches VideoDecoder::HardwareAccel { accel: ra, decoder } && decoder@ == d
                        && ra.spec_name() == a.spec_name()
                        && forall|pf: PixelFormat| ra.spec_output_format(pf) == a.spec_output_format(pf)),
                    None => r is Software,
                },
                None => r is Software,
            },
    {
        if copies_video || is_still_image {
            return VideoDecoder::Disabled;
        }
        match accel {
            Some(a) => match a.make_decoder(info, stream) {
                Some(decoder) => VideoDecoder::HardwareAccel { accel: Box::new(a.duplicate()), decoder },
                None => VideoDecoder::Software,
            },
            None => VideoDecoder::Software,
        }
    }

    pub open spec fn spec_filters(&self) -> Seq<PipelineFilterView> {
        match self {
            VideoDecoder::HardwareAccel { decoder, .. } => filter_views(decoder.filters@),
            _ => seq![],
        }
    }

    /// The filters that follow the decoder.
    pub fn filters(&self) -> (r: Vec<PipelineFilter>)
        ensures
            filter_views(r@) == self.spec_filters(),
    {
        match self {
            VideoDecoder::HardwareAccel { decoder, .. } => duplicate_pipeline_filters(&decoder.filters),
            _ => {
                let r: Vec<PipelineFilter> = Vec::new();
                assert(filter_views(r@) =~= seq![]);
                r
            },
        }
    }

    pub open spec fn spec_output_surface(&self) -> FrameSurface {
        match self {
            VideoDecoder::HardwareAccel { decoder, .. } => decoder.surface,
            _ => FrameSurface::System,
        }
    }

    /// The surface decoded frames are on.
    pub fn output_surface(&self) -> (r: FrameSurface)
        ensures
            r == self.spec_output_surface(),
    {
        match self {
            VideoDecoder::HardwareAccel { decoder, .. } => decoder.surface,
            _ => FrameSurface::System,
        }
    }

    pub open spec fn spec_output_format(&self, source: PixelFormat) -> PixelFormat {
        match self {
            VideoDecoder::HardwareAccel { accel, .. } => accel.spec_output_format(source).spec_format(),
            _ => source,
        }
    }

    /// The pixel format of decoded frames: the accel's hardware format for a
    /// hardware decoder, the source format otherwise.
    pub fn output_format(&self, source_pixel_format: &PixelFormat) -> (r: PixelFormat)
        ensures
            r == self.spec_output_format(*source_pixel_format),
    {
        match self {
            VideoDecoder::HardwareAccel { accel, .. } => accel.output_format(source_pixel_format).format(),
            _ => *source_pixel_format,
        }
    }

    pub open spec fn spec_args(&self) -> Seq<Seq<char>> {
        match self {
            VideoDecoder::HardwareAccel { decoder, .. } => views(decoder.args@),
            _ => seq![],
        }
    }

    /// The decoder's arguments.
    pub fn as_arg(&self) -> (r: Vec<String>)
        ensures
            views(r@) == self.spec_args(),
    {
        let mut r: Vec<String> = Vec::new();
        assert(views(r@) =~= seq![]);
        match self {
            VideoDecoder::HardwareAccel { decoder, .. } => {
                extend_args(&mut r, &decoder.args);
            },
            _ => {},
        }
        r
    }
}

} // verus!
