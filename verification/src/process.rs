//! What the program asks the system to run, and what comes back.

use crate::errors::{OsError, OsErrorView};
use vstd::prelude::*;

verus! {

/// A command for the system to run: a program found on the search path and
/// the arguments handed to it, in order.
#[derive(Clone, Debug, PartialEq, Eq)]
pub struct ToolCommand {
    pub program: String,
    pub args: Vec<String>,
}

/// A [`ToolCommand`] as contracts see it.
pub struct ToolCommandView {
    pub program: Seq<char>,
    pub args: Seq<Seq<char>>,
}

impl View for ToolCommand {
    type V = ToolCommandView;

    open spec fn view(&self) -> ToolCommandView {
        ToolCommandView { program: self.program@, args: self.args.deep_view() }
    }
}

/// What a program left behind when it ended.
#[derive(Clone, Debug, PartialEq, Eq)]
pub struct ProcessOutput {
    /// Whether the program ended with status zero.
    pub success: bool,
    /// Everything the program wrote to its standard output.
    pub stdout: Vec<u8>,
    /// Everything the program wrote to its standard error.
    pub stderr: Vec<u8>,
}

/// A [`ProcessOutput`] as contracts see it.
pub struct ProcessOutputView {
    pub success: bool,
    pub stdout: Seq<u8>,
    pub stderr: Seq<u8>,
}

impl View for ProcessOutput {
    type V = ProcessOutputView;

    open spec fn view(&self) -> ProcessOutputView {
        ProcessOutputView { success: self.success, stdout: self.stdout@, stderr: self.stderr@ }
    }
}

/// How an attempt to run a command ended: with the program's output, or
/// with the reason why the system could not start it.
pub type ToolRun = Result<ProcessOutput, OsError>;

/// A [`ToolRun`] as contracts see it.
pub open spec fn run_view(run: ToolRun) -> Result<ProcessOutputView, OsErrorView> {
    match run {
        Ok(output) => Ok(output@),
        Err(failure) => Err(failure@),
    }
}

} // verus!
