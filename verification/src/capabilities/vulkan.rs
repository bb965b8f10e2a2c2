use vstd::prelude::*;
use crate::capabilities::{keys_unique, lists_depth, lists_format_depth};
use crate::pipeline::VideoFormat;

verus! {

/// What a Vulkan device can decode and encode: for each format, its bit depths.
pub struct VulkanCapabilities {
    pub device_index: u32,
    pub supported_decoders: Vec<(VideoFormat, Vec<u8>)>,
    pub supported_encoders: Vec<(VideoFormat, Vec<u8>)>,
}

impl VulkanCapabilities {
    /// Each format is listed once among the decoders and once among the encoders.
    pub open spec fn wf(&self) -> bool {
        keys_unique(self.supported_decoders@) && keys_unique(self.supported_encoders@)
    }

    /// Whether frames of the format and bit depth can be decoded.
    pub fn can_decode(&self, format: &VideoFormat, bit_depth: u8) -> (r: bool)
        ensures
            r == lists_depth(self.supported_decoders@, *format, bit_depth),
    {
        lists_format_depth(&self.supported_decoders, *format, bit_depth)
    }

    /// Whether frames of the format and bit depth can be encoded.
    pub fn can_encode(&self, format: &VideoFormat, bit_depth: u8) -> (r: bool)
        ensures
            r == lists_depth(self.supported_encoders@, *format, bit_depth),
    {
        lists_format_depth(&self.supported_encoders, *format, bit_depth)
    }

    /// The capabilities where Vulkan video is not probed: device 0, nothing
    /// supported.
    pub fn probe() -> (r: Result<VulkanCapabilities, crate::error::FFPipelineError>)
        ensures
            r matches Ok(c) && c.device_index == 0 && c.supported_decoders@.len() == 0
                && c.supported_encoders@.len() == 0 && c.wf(),
    {
        Ok(VulkanCapabilities { device_index: 0, supported_decoders: Vec::new(), supported_encoders: Vec::new() })
    }
}

} // verus!
