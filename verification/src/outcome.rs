//! What one run of the tool means for the caller: the text of a success, or
//! the message of a failure.

use crate::decoding::{decode_text, decoding};
use crate::operation::{Operation, OperationView};
use crate::process::{Launch, LaunchView};
use crate::text::{failure, success, text_result, TextResult};
use vstd::prelude::*;
use vstd::utf8::valid_utf8;

verus! {

/// The message for a tool that could not be started: it names the subcommand
/// that was to run and ends with the system's own message.
pub open spec fn launch_failure_text(operation: OperationView, reason: Seq<char>) -> Seq<char> {
    "Failed to execute docker "@ + operation.subcommand() + ": "@ + reason
}

/// What a listing that ended with status 0 yields, given its decoded standard
/// output: the text as it is, or a message that the output could not be read.
pub open spec fn listing_outcome(stdout: TextResult) -> TextResult {
    match stdout {
        Ok(text) => success(text),
        Err(reason) => failure("Failed to parse output: "@ + reason),
    }
}

/// What a run that ended with another status, or with none, yields, given its
/// decoded standard error: always a failure, which carries the tool's own
/// words or a message that they could not be read.
pub open spec fn failure_outcome(stderr: TextResult) -> TextResult {
    match stderr {
        Ok(text) => failure("Docker command failed: "@ + text),
        Err(reason) => failure("Failed to parse error: "@ + reason),
    }
}

/// What a run that ended with status 0 yields. A listing returns its standard
/// output; stopping and removing confirm with a fixed text and ignore what the
/// tool printed.
pub open spec fn success_outcome(operation: OperationView, stdout: Seq<u8>) -> TextResult {
    match operation {
        OperationView::ListContainers => listing_outcome(decoding(stdout)),
        OperationView::StopContainer { .. } => success("Container stopped"@),
        OperationView::RemoveContainer { .. } => success("Container removed"@),
    }
}

/// The result that the caller of `operation` gets once the attempt to run the
/// tool has ended as `launch` says.
pub open spec fn outcome(operation: OperationView, launch: LaunchView) -> TextResult {
    match launch {
        LaunchView::NotStarted { reason } => failure(launch_failure_text(operation, reason)),
        LaunchView::Finished(output) => if output.succeeded() {
            success_outcome(operation, output.stdout)
        } else {
            failure_outcome(decoding(output.stderr))
        },
    }
}

/// The runs for which the caller gets a success: the tool was started, ended
/// with status 0 and, for a listing, wrote well-formed UTF-8 to its standard
/// output.
pub open spec fn succeeds(operation: OperationView, launch: LaunchView) -> bool {
    &&& launch matches LaunchView::Finished(output)
    &&& output.succeeded()
    &&& operation is ListContainers ==> valid_utf8(output.stdout)
}

/// The message for a tool that could not be started.
pub fn launch_failure(operation: &Operation, reason: &str) -> (message: String)
    ensures
        message@ == launch_failure_text(operation@, reason@),
{
    let message = String::from_str("Failed to execute docker ");
    let message = message.concat(operation.subcommand());
    let message = message.concat(": ");
    message.concat(reason)
}

/// The result of a listing that ended with status 0, from its decoded
/// standard output.
pub fn listing(stdout: Result<String, String>) -> (result: Result<String, String>)
    ensures
        text_result(result) == listing_outcome(text_result(stdout)),
{
    match stdout {
        Ok(text) => Ok(text),
        Err(reason) => Err(String::from_str("Failed to parse output: ").concat(reason.as_str())),
    }
}

/// The result of a run that ended with another status, or with none, from its
/// decoded standard error.
pub fn tool_failure(stderr: Result<String, String>) -> (result: Result<String, String>)
    ensures
        text_result(result) == failure_outcome(text_result(stderr)),
{
    match stderr {
        Ok(text) => Err(String::from_str("Docker command failed: ").concat(text.as_str())),
        Err(reason) => Err(String::from_str("Failed to parse error: ").concat(reason.as_str())),
    }
}

/// Turns the end of one attempt to run the tool into the caller's result.
///
/// The result is a success exactly for the runs that [`succeeds`] names. Only
/// the stream that the result is made of is decoded: standard output for a
/// listing that ended with status 0, standard error for any run that did not.
pub fn conclude(operation: &Operation, launch: Launch) -> (result: Result<String, String>)
    ensures
        text_result(result) == outcome(operation@, launch@),
        result is Ok <==> succeeds(operation@, launch@),
{
    match launch {
        Launch::NotStarted { reason } => Err(launch_failure(operation, reason.as_str())),
        Launch::Finished(output) => {
            if output.succeeded() {
                match operation {
                    Operation::ListContainers => listing(decode_text(output.stdout)),
                    Operation::StopContainer { .. } => Ok(String::from_str("Container stopped")),
                    Operation::RemoveContainer { .. } => Ok(String::from_str("Container removed")),
                }
            } else {
                tool_failure(decode_text(output.stderr))
            }
        },
    }
}

} // verus!
