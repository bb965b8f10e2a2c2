use vstd::prelude::*;
use crate::frame_size::FrameSize;
use crate::pipeline::{opt_string_view, FrameState, FrameStateView, FrameSurface, HwPixelFormat};
use crate::video_filter::{append_or, append_size, sized_state, apply_sized, size_text, text_or};

verus! {

/// Tonemapping on OpenCL frames.
pub struct TonemapOpencl {
    /// The tonemapping algorithm; hable when absent.
    pub algorithm: Option<String>,
    pub output_format: HwPixelFormat,
}

impl TonemapOpencl {
    pub open spec fn spec_apply(self, s: FrameStateView) -> FrameStateView {
        FrameStateView { pixel_format: self.output_format.spec_format(), is_hdr: false, surface: FrameSurface::OpenCL, ..s }
    }

    pub open spec fn spec_arg(self) -> Option<Seq<char>> {
        Some("tonemap_opencl=tonemap="@ + text_or(self.algorithm, "hable"@)
            + ":desat=0:t=bt709:m=bt709:p=bt709:format="@ + self.output_format.spec_format().spec_name())
    }

    pub fn duplicate(&self) -> (r: TonemapOpencl)
        ensures
            r == *self,
    {
        TonemapOpencl { algorithm: crate::pipeline::clone_opt_string(&self.algorithm), output_format: self.output_format }
    }

    pub fn apply_to(&self, state: &mut FrameState)
        ensures
            final(state)@ == self.spec_apply(old(state)@),
    {
        state.pixel_format = self.output_format.format();
        state.is_hdr = false;
        state.surface = FrameSurface::OpenCL;
    }

    pub fn as_arg(&self) -> (r: Option<String>)
        ensures
            opt_string_view(r) == self.spec_arg(),
    {
        let mut s = "tonemap_opencl=tonemap=".to_owned();
        append_or(&mut s, &self.algorithm, "hable");
        s.append(":desat=0:t=bt709:m=bt709:p=bt709:format=");
        s.append(self.output_format.as_arg());
        Some(s)
    }
}

/// Padding on OpenCL frames.
#[derive(Debug, Clone, Copy, PartialEq, Eq, Structural)]
pub struct PadOpencl {
    pub size: Option<FrameSize>,
}

impl PadOpencl {
    pub open spec fn spec_apply(self, s: FrameStateView) -> FrameStateView {
        sized_state(s, self.size, FrameSurface::OpenCL)
    }

    pub open spec fn spec_arg(self) -> Option<Seq<char>> {
        match self.size {
            Some(sz) => Some("pad_opencl="@ + size_text(sz) + ":-1:-1:color=black"@),
            None => None,
        }
    }

    pub fn apply_to(&self, state: &mut FrameState)
        ensures
            final(state)@ == self.spec_apply(old(state)@),
    {
        apply_sized(state, self.size, FrameSurface::OpenCL);
    }

    pub fn as_arg(&self) -> (r: Option<String>)
        ensures
            opt_string_view(r) == self.spec_arg(),
    {
        match self.size {
            Some(sz) => {
                let mut s = "pad_opencl=".to_owned();
                append_size(&mut s, sz);
                s.append(":-1:-1:color=black");
                Some(s)
            },
            None => None,
        }
    }
}

} // verus!
