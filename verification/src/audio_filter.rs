use vstd::prelude::*;
use crate::output_settings::AudioLoudnessSettings;
use crate::pipeline::{opt_string_view, Hz};
use crate::text::{centi_string, centi_text, dec, u64_to_string};

verus! {

/// An audio filter of the pipeline.
#[derive(Debug, Clone, Copy, PartialEq, Eq, Structural)]
pub enum AudioFilter {
    Resample,
    Pad,
    LoudNorm {
        settings: Option<AudioLoudnessSettings>,
        sample_rate: Option<Hz>,
    },
}

impl AudioFilter {
    /// The filter's text in a filter graph: loudness normalization only with
    /// settings, resampling to the sample rate (48000 Hz by default).
    pub open spec fn spec_arg(self) -> Option<Seq<char>> {
        match self {
            AudioFilter::Resample => Some("aresample=async=1"@),
            AudioFilter::Pad => Some("apad"@),
            AudioFilter::LoudNorm { settings, sample_rate } => match settings {
                Some(s) => Some("loudnorm=I="@ + centi_text(s.integrated_target_centi as int) + ":TP="@
                    + centi_text(s.true_peak_centi as int) + ":LRA="@ + centi_text(s.range_target_centi as int)
                    + ",aresample="@ + dec(match sample_rate { Some(h) => h.0 as nat, None => 48000nat })),
                None => None,
            },
        }
    }

    /// Audio filters are always kept.
    pub fn evaluate(&self) -> (r: Option<AudioFilter>)
        ensures
            r == Some(*self),
    {
        Some(*self)
    }

    pub fn as_arg(&self) -> (r: Option<String>)
        ensures
            opt_string_view(r) == self.spec_arg(),
    {
        match self {
            AudioFilter::Resample => Some("aresample=async=1".to_owned()),
            AudioFilter::Pad => Some("apad".to_owned()),
            AudioFilter::LoudNorm { settings, sample_rate } => match settings {
                Some(s) => {
                    let mut r = "loudnorm=I=".to_owned();
                    let i = centi_string(s.integrated_target_centi as i64);
                    r.append(i.as_str());
                    r.append(":TP=");
                    let tp = centi_string(s.true_peak_centi as i64);
                    r.append(tp.as_str());
                    r.append(":LRA=");
                    let lra = centi_string(s.range_target_centi as i64);
                    r.append(lra.as_str());
                    r.append(",aresample=");
                    let hz: u32 = match sample_rate {
                        Some(h) => h.0,
                        None => 48000,
                    };
                    let h = u64_to_string(hz as u64);
                    r.append(h.as_str());
                    Some(r)
                },
                None => None,
            },
        }
    }
}

} // verus!
