use vstd::prelude::*;
use crate::text::{args1, args2, dec, extend_args, u64_to_string, views};

verus! {

/// How much ffmpeg logs.
#[derive(Debug, Clone, Copy, PartialEq, Eq, Structural)]
pub enum LogLevel {
    Error,
}

impl LogLevel {
    /// `-loglevel LEVEL`.
    pub fn as_arg(&self) -> (r: Vec<String>)
        ensures
            views(r@) == seq!["-loglevel"@, "error"@],
    {
        args2("-loglevel", "error")
    }
}

/// An option of the ffmpeg process as a whole.
pub enum GlobalOption {
    Threads(u32),
    NoStdIn,
    HideBanner,
    LogLevel(LogLevel),
    StandardFormatFlags,
    InitHwDevice(Vec<String>),
}

impl GlobalOption {
    pub open spec fn spec_arg(&self) -> Seq<Seq<char>> {
        match self {
            GlobalOption::Threads(n) => seq!["-threads"@, dec(*n as nat)],
            GlobalOption::NoStdIn => seq!["-nostdin"@],
            GlobalOption::HideBanner => seq!["-hide_banner"@],
            GlobalOption::LogLevel(_) => seq!["-loglevel"@, "error"@],
            GlobalOption::StandardFormatFlags => seq!["-fflags"@, "+genpts+discardcorrupt+igndts"@],
            GlobalOption::InitHwDevice(a) => views(a@),
        }
    }

    /// The option's arguments.
    pub fn as_arg(&self) -> (r: Vec<String>)
        ensures
            views(r@) == self.spec_arg(),
    {
        match self {
            GlobalOption::Threads(n) => {
                let t = u64_to_string(*n as u64);
                args2("-threads", t.as_str())
            },
            GlobalOption::NoStdIn => args1("-nostdin"),
            GlobalOption::HideBanner => args1("-hide_banner"),
            GlobalOption::LogLevel(level) => level.as_arg(),
            GlobalOption::StandardFormatFlags => args2("-fflags", "+genpts+discardcorrupt+igndts"),
            GlobalOption::InitHwDevice(a) => {
                let mut r: Vec<String> = Vec::new();
                extend_args(&mut r, a);
                assert(views(r@) =~= views(a@));
                r
            },
        }
    }
}

} // verus!
