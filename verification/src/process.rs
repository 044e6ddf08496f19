//! What is known of one attempt to run the tool, as plain values.

use vstd::prelude::*;

verus! {

/// What a process left behind when it ended.
#[derive(Clone, Debug, PartialEq, Eq)]
pub struct ProcessOutput {
    /// The exit status, or `None` where the process ended without one (on
    /// Unix, when a signal killed it).
    pub exit_code: Option<i32>,
    /// Everything the process wrote to its standard output.
    pub stdout: Vec<u8>,
    /// Everything the process wrote to its standard error.
    pub stderr: Vec<u8>,
}

/// The mathematical value of a [`ProcessOutput`].
pub struct ProcessOutputView {
    pub exit_code: Option<i32>,
    pub stdout: Seq<u8>,
    pub stderr: Seq<u8>,
}

impl View for ProcessOutput {
    type V = ProcessOutputView;

    open spec fn view(&self) -> ProcessOutputView {
        ProcessOutputView {
            exit_code: self.exit_code,
            stdout: self.stdout@,
            stderr: self.stderr@,
        }
    }
}

impl ProcessOutputView {
    /// Exit status 0 is the only sign of success: any other status, and an
    /// end without a status, is a failure.
    pub open spec fn succeeded(self) -> bool {
        self.exit_code == Some(0i32)
    }
}

impl ProcessOutput {
    /// Whether the process ended with exit status 0.
    pub fn succeeded(&self) -> (success: bool)
        ensures
            success == self@.succeeded(),
    {
        match self.exit_code {
            Some(code) => code == 0,
            None => false,
        }
    }
}

/// How an attempt to run the tool ended.
#[derive(Clone, Debug, PartialEq, Eq)]
pub enum Launch {
    /// The process was started and has ended.
    Finished(ProcessOutput),
    /// The process could not be started; `reason` is the system's message.
    NotStarted { reason: String },
}

/// The mathematical value of a [`Launch`].
pub enum LaunchView {
    Finished(ProcessOutputView),
    NotStarted { reason: Seq<char> },
}

impl View for Launch {
    type V = LaunchView;

    open spec fn view(&self) -> LaunchView {
        match self {
            Launch::Finished(output) => LaunchView::Finished(output@),
            Launch::NotStarted { reason } => LaunchView::NotStarted { reason: reason@ },
        }
    }
}

} // verus!
