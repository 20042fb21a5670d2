//! The failures that the engine reports to its caller.

use vstd::prelude::*;

verus! {

/// The step of an operation that a failure is reported against.
#[derive(Debug, Clone, Copy, PartialEq, Eq, Structural)]
pub enum Step {
    Download,
    Extract,
    List,
    Copy,
    Remove,
    Refresh,
}

#[derive(Debug, Clone, Copy, PartialEq, Eq, Structural)]
pub enum Error {
    /// The archive could not be fetched.
    NetworkFailure,
    /// The archive could not be unpacked.
    ArchiveFailure,
    /// The tool is still not in its place after it was fetched and unpacked.
    ProvisioningFailed,
    /// The tool exited with a failure, or printed what cannot be read, while
    /// it was run for the given step.
    ToolInvocationFailed(Step),
    CopyFailed,
    RemoveFailed,
    /// The volume that was asked for is no longer there.
    VolumeNotFound,
}

impl Step {
    pub open spec fn spec_name(self) -> Seq<char> {
        match self {
            Step::Download => "download"@,
            Step::Extract => "extract"@,
            Step::List => "list"@,
            Step::Copy => "copy"@,
            Step::Remove => "remove"@,
            Step::Refresh => "refresh"@,
        }
    }

    pub fn name(self) -> (name: String)
        ensures
            name@ == self.spec_name(),
    {
        match self {
            Step::Download => String::from_str("download"),
            Step::Extract => String::from_str("extract"),
            Step::List => String::from_str("list"),
            Step::Copy => String::from_str("copy"),
            Step::Remove => String::from_str("remove"),
            Step::Refresh => String::from_str("refresh"),
        }
    }
}

impl Error {
    /// The step that failed.
    pub open spec fn spec_step(self) -> Step {
        match self {
            Error::NetworkFailure => Step::Download,
            Error::ArchiveFailure => Step::Extract,
            Error::ProvisioningFailed => Step::Extract,
            Error::ToolInvocationFailed(step) => step,
            Error::CopyFailed => Step::Copy,
            Error::RemoveFailed => Step::Remove,
            Error::VolumeNotFound => Step::Refresh,
        }
    }

    /// The one line that is shown for this failure.
    pub open spec fn spec_describe(self) -> Seq<char> {
        self.spec_step().spec_name() + " failed"@
    }

    pub fn step(self) -> (step: Step)
        ensures
            step == self.spec_step(),
    {
        match self {
            Error::NetworkFailure => Step::Download,
            Error::ArchiveFailure => Step::Extract,
            Error::ProvisioningFailed => Step::Extract,
            Error::ToolInvocationFailed(step) => step,
            Error::CopyFailed => Step::Copy,
            Error::RemoveFailed => Step::Remove,
            Error::VolumeNotFound => Step::Refresh,
        }
    }

    /// One line that names the step that failed.
    pub fn describe(self) -> (line: String)
        ensures
            line@ == self.spec_describe(),
    {
        self.step().name().concat(" failed")
    }
}

} // verus!
