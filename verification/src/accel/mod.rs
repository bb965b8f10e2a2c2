pub mod amf;
pub mod cuda;
pub mod opencl;
pub mod qsv;
pub mod rkmpp;
pub mod vaapi;
pub mod video_toolbox;
pub mod vulkan;
