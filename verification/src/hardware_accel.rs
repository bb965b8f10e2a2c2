use vstd::prelude::*;
use crate::text::{args2, args4, views};

verus! {

/// A hardware acceleration method, as decoder arguments only.
#[derive(Debug, Clone, Copy, PartialEq, Eq, Structural)]
pub enum HardwareAccel {
    Cuda,
    Qsv,
    VideoToolbox,
}

impl HardwareAccel {
    pub open spec fn spec_arg(&self) -> Seq<Seq<char>> {
        match self {
            HardwareAccel::Cuda => seq!["-init_hw_device"@, "cuda"@, "-hwaccel"@, "cuda"@],
            HardwareAccel::Qsv => seq!["-hwaccel"@, "qsv"@],
            HardwareAccel::VideoToolbox => seq!["-hwaccel"@, "videotoolbox"@],
        }
    }

    /// The method's decoder arguments.
    pub fn as_arg(&self) -> (r: Vec<String>)
        ensures
            views(r@) == self.spec_arg(),
    {
        match self {
            HardwareAccel::Cuda => args4("-init_hw_device", "cuda", "-hwaccel", "cuda"),
            HardwareAccel::Qsv => args2("-hwaccel", "qsv"),
            HardwareAccel::VideoToolbox => args2("-hwaccel", "videotoolbox"),
        }
    }
}

} // verus!
