use vstd::prelude::*;

verus! {

/// The errors of the library.
pub enum FFPipelineError {
    FfmpegCapabilitiesError(String),
    ProbeFailed,
    ProbeFailedToParse,
    AudioInputIsRequired,
    VideoInputIsRequired,
    NvidiaCapabilitiesError(String),
    OpenCLCapabilitiesError(String),
    QsvCapabilitiesError(String),
    RkmppCapabilitiesError(String),
    VaapiCapabilitiesError(String),
    VideoToolboxCapabilitiesError(String),
}

/// A prefix followed by a detail text.
pub open spec fn with_detail(prefix: Seq<char>, detail: Seq<char>) -> Seq<char> {
    prefix + detail
}

impl FFPipelineError {
    pub open spec fn spec_message(&self) -> Seq<char> {
        match self {
            FFPipelineError::FfmpegCapabilitiesError(d) => with_detail("error detecting ffmpeg capabilities: "@, d@),
            FFPipelineError::ProbeFailed => "ffprobe failed"@,
            FFPipelineError::ProbeFailedToParse => "failed to parse ffprobe output"@,
            FFPipelineError::AudioInputIsRequired => "audio input is required"@,
            FFPipelineError::VideoInputIsRequired => "video input is required"@,
            FFPipelineError::NvidiaCapabilitiesError(d) => with_detail("error detecting nvidia capabilities: "@, d@),
            FFPipelineError::OpenCLCapabilitiesError(d) => with_detail("error detecting opencl capabilities: "@, d@),
            FFPipelineError::QsvCapabilitiesError(d) => with_detail("error detecting qsv capabilities: "@, d@),
            FFPipelineError::RkmppCapabilitiesError(d) => with_detail("error detecting rkmpp capabilities: "@, d@),
            FFPipelineError::VaapiCapabilitiesError(d) => with_detail("error detecting vaapi capabilities: "@, d@),
            FFPipelineError::VideoToolboxCapabilitiesError(d) => with_detail("error detecting videotoolbox capabilities: "@, d@),
        }
    }

    /// The text that describes the error.
    pub fn message(&self) -> (r: String)
        ensures
            r@ == self.spec_message(),
    {
        let (prefix, detail): (&str, Option<&String>) = match self {
            FFPipelineError::FfmpegCapabilitiesError(d) => ("error detecting ffmpeg capabilities: ", Some(d)),
            FFPipelineError::ProbeFailed => ("ffprobe failed", None),
            FFPipelineError::ProbeFailedToParse => ("failed to parse ffprobe output", None),
            FFPipelineError::AudioInputIsRequired => ("audio input is required", None),
            FFPipelineError::VideoInputIsRequired => ("video input is required", None),
            FFPipelineError::NvidiaCapabilitiesError(d) => ("error detecting nvidia capabilities: ", Some(d)),
            FFPipelineError::OpenCLCapabilitiesError(d) => ("error detecting opencl capabilities: ", Some(d)),
            FFPipelineError::QsvCapabilitiesError(d) => ("error detecting qsv capabilities: ", Some(d)),
            FFPipelineError::RkmppCapabilitiesError(d) => ("error detecting rkmpp capabilities: ", Some(d)),
            FFPipelineError::VaapiCapabilitiesError(d) => ("error detecting vaapi capabilities: ", Some(d)),
            FFPipelineError::VideoToolboxCapabilitiesError(d) => ("error detecting videotoolbox capabilities: ", Some(d)),
        };
        let mut s = prefix.to_owned();
        match detail {
            Some(d) => s.append(d.as_str()),
            None => {
                assert(s@ + Seq::<char>::empty() =~= s@);
            },
        }
        s
    }
}

} // verus!
