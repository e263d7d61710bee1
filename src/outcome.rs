//! Reconciliation after the linker has run: the shim's exit code, its diagnostics,
//! and making the produced artifact executable.
use vstd::prelude::*;

use crate::classify::{captured_output, last_output, lemma_no_output_argument, option_view};
use crate::error::ShimError;

verus! {

/// The exit code by which the linker reports that a library was not found, as it
/// arrives truncated to its low byte on the Linux side.
pub const LIBRARY_NOT_FOUND_CODE: i32 = 1181 & 0xff;

/// The permission bits given to a produced artifact: read, write and execute for all.
pub const EXECUTABLE_MODE: u32 = 0o777;

/// How the linker process ended.
#[derive(Debug, Clone, Copy, PartialEq, Eq, Structural)]
pub enum ProcessOutcome {
    /// It exited with this code.
    Exited(i32),
    /// A signal ended it: there is no exit code.
    Signaled,
}

/// The file whose permissions are fixed up after `outcome`, when the arguments named
/// `output`: only after a zero exit code.
pub open spec fn fixup_target(outcome: ProcessOutcome, output: Option<Seq<char>>) -> Option<Seq<char>> {
    match outcome {
        ProcessOutcome::Exited(code) => if code == 0 {
            output
        } else {
            None
        },
        ProcessOutcome::Signaled => None,
    }
}

/// What to do once the linker has exited.
#[derive(Debug, PartialEq, Eq)]
pub struct PostPlan {
    /// The shim's own exit code: the linker's.
    pub exit_code: i32,
    /// Report that the link failed, with its code.
    pub report_failure: bool,
    /// The artifact whose permissions are to be fixed up, if any.
    pub fixup_path: Option<String>,
    /// Add the hint on configuring the library path.
    pub library_hint: bool,
}

/// Decides what follows the linker's run, given the output path that its arguments
/// named.
pub fn plan_post_processing(outcome: ProcessOutcome, output_path: Option<String>) -> (r: Result<
    PostPlan,
    ShimError,
>)
    ensures
        outcome is Signaled <==> r is Err,
        outcome is Signaled ==> r == Err::<PostPlan, ShimError>(ShimError::SignalTerminated),
        outcome matches ProcessOutcome::Exited(code) ==> r matches Ok(p) && {
            &&& p.exit_code == code
            &&& p.report_failure == (code != 0)
            &&& p.fixup_path == (if code == 0 { output_path } else { None })
            &&& p.library_hint == (code == LIBRARY_NOT_FOUND_CODE)
        },
        r matches Ok(p) ==> option_view(p.fixup_path) == fixup_target(outcome, option_view(output_path)),
{
    match outcome {
        ProcessOutcome::Signaled => Err(ShimError::SignalTerminated),
        ProcessOutcome::Exited(code) => {
            let fixup_path = if code == 0 {
                output_path
            } else {
                None
            };
            Ok(
                PostPlan {
                    exit_code: code,
                    report_failure: code != 0,
                    fixup_path,
                    library_hint: code == LIBRARY_NOT_FOUND_CODE,
                },
            )
        },
    }
}

/// What reading the artifact's metadata gave.
#[derive(Debug, Clone, Copy, PartialEq, Eq, Structural)]
pub enum MetadataStatus {
    Readable,
    NotFound,
    /// Unreadable for another reason than absence.
    Failed,
}

/// Whether to set the artifact's permissions, given its metadata: yes when it is
/// readable; no, silently, when there is no file; an error otherwise.
pub fn plan_fixup(status: MetadataStatus) -> (r: Result<bool, ShimError>)
    ensures
        r == match status {
            MetadataStatus::Readable => Ok::<bool, ShimError>(true),
            MetadataStatus::NotFound => Ok::<bool, ShimError>(false),
            MetadataStatus::Failed => Err::<bool, ShimError>(ShimError::MetadataFailure),
        },
{
    match status {
        MetadataStatus::Readable => Ok(true),
        MetadataStatus::NotFound => Ok(false),
        MetadataStatus::Failed => Err(ShimError::MetadataFailure),
    }
}

/// Without an argument that names an output path, no outcome of the linker leads to a
/// permission fix-up.
pub proof fn lemma_no_capture_no_fixup(args: Seq<Seq<char>>, outcome: ProcessOutcome)
    requires
        forall|i: int| 0 <= i < args.len() ==> (#[trigger] captured_output(args[i])) is None,
    ensures
        fixup_target(outcome, last_output(args)) is None,
{
    lemma_no_output_argument(args);
}

/// A nonzero exit code never leads to a permission fix-up, whatever output path was
/// named.
pub proof fn lemma_failure_suppresses_fixup(code: i32, output: Option<Seq<char>>)
    requires
        code != 0,
    ensures
        fixup_target(ProcessOutcome::Exited(code), output) is None,
{
}

} // verus!
