//! The failures a probe can meet, and the number that stands for each.
use vstd::prelude::*;

verus! {

/// Why a probe could not use one of its mounts.
#[derive(Debug, Clone, Copy, PartialEq, Eq, Structural)]
pub enum MountReadFailed {
    /// `deployFile` is missing or cannot be read.
    Deploy,
    /// `execFile` is missing or cannot be read.
    Exec,
    /// `outFile` cannot be written.
    Out,
}

impl MountReadFailed {
    /// The number a probe returns for this failure.
    pub open spec fn spec_code(self) -> int {
        match self {
            MountReadFailed::Deploy => -1,
            MountReadFailed::Exec => -2,
            MountReadFailed::Out => 404,
        }
    }

    /// The name of the mount that failed.
    pub open spec fn spec_mount(self) -> Seq<char> {
        match self {
            MountReadFailed::Deploy => "deployFile"@,
            MountReadFailed::Exec => "execFile"@,
            MountReadFailed::Out => "outFile"@,
        }
    }

    /// The variant's name, as it appears in a diagnostic.
    pub open spec fn spec_name(self) -> Seq<char> {
        match self {
            MountReadFailed::Deploy => "Deploy"@,
            MountReadFailed::Exec => "Exec"@,
            MountReadFailed::Out => "Out"@,
        }
    }

    /// The line that reports this failure.
    pub open spec fn spec_diagnostic(self) -> Seq<char> {
        "Reading a mount-file failed: "@ + self.spec_name()
    }

    pub fn code(&self) -> (code: i32)
        ensures
            code == self.spec_code(),
    {
        match self {
            MountReadFailed::Deploy => -1,
            MountReadFailed::Exec => -2,
            MountReadFailed::Out => 404,
        }
    }

    pub fn mount(&self) -> (name: &'static str)
        ensures
            name@ == self.spec_mount(),
    {
        match self {
            MountReadFailed::Deploy => "deployFile",
            MountReadFailed::Exec => "execFile",
            MountReadFailed::Out => "outFile",
        }
    }

    pub fn name(&self) -> (name: &'static str)
        ensures
            name@ == self.spec_name(),
    {
        match self {
            MountReadFailed::Deploy => "Deploy",
            MountReadFailed::Exec => "Exec",
            MountReadFailed::Out => "Out",
        }
    }

    pub fn diagnostic(&self) -> (line: String)
        ensures
            line@ == self.spec_diagnostic(),
    {
        let mut line = "Reading a mount-file failed: ".to_owned();
        line.append(self.name());
        line
    }
}

/// Turns a failure into the number that the probe returns for it. Reporting the
/// failure is left to the caller, which has `diagnostic` for the text.
pub fn handle_error(e: MountReadFailed) -> (code: i32)
    ensures
        code == e.spec_code(),
{
    e.code()
}

} // verus!
