//! What holds of every run of the tool, proved from the definitions in
//! [`crate::outcome`].

use crate::operation::OperationView;
use crate::outcome::{outcome, succeeds};
use crate::process::{LaunchView, ProcessOutputView};
use crate::text::{contains_text, occurs_at, success};
use vstd::prelude::*;
use vstd::utf8::{
    decode_utf8_encode_utf8, encode_utf8, encode_utf8_decode_utf8, encode_utf8_valid_utf8,
    valid_utf8,
};

verus! {

/// The text that a listing returns is the tool's standard output and nothing
/// else: encoded as UTF-8 it is the captured bytes again, none trimmed and
/// none changed.
pub proof fn lemma_listing_returns_stdout(output: ProcessOutputView)
    ensures
        outcome(OperationView::ListContainers, LaunchView::Finished(output)) matches Ok(text)
            ==> encode_utf8(text) == output.stdout,
{
    if valid_utf8(output.stdout) {
        decode_utf8_encode_utf8(output.stdout);
    }
}

/// Whatever text the tool prints before it ends with status 0, a listing
/// returns that text: the way through the bytes and back loses nothing.
pub proof fn lemma_listing_round_trip(text: Seq<char>, stderr: Seq<u8>)
    ensures
        outcome(
            OperationView::ListContainers,
            LaunchView::Finished(
                ProcessOutputView { exit_code: Some(0i32), stdout: encode_utf8(text), stderr },
            ),
        ) == success(text),
{
    encode_utf8_valid_utf8(text);
    encode_utf8_decode_utf8(text);
}

/// The exit status alone decides between success and failure, whatever the
/// tool wrote: status 0 gives a success, anything else a failure. The one run
/// this leaves out is a listing that ends with status 0 and standard output
/// that is not UTF-8, which cannot be returned as text.
pub proof fn lemma_exit_status_decides(operation: OperationView, output: ProcessOutputView)
    requires
        operation is ListContainers && output.exit_code == Some(0i32) ==> valid_utf8(output.stdout),
    ensures
        output.exit_code == Some(0i32) ==> outcome(operation, LaunchView::Finished(output)) is Ok,
        output.exit_code != Some(0i32) ==> outcome(operation, LaunchView::Finished(output)) is Err,
{
}

/// A success is returned for exactly the runs that [`succeeds`] names, and a
/// failure for every other.
pub proof fn lemma_success_exactly_when(operation: OperationView, launch: LaunchView)
    ensures
        outcome(operation, launch) is Ok <==> succeeds(operation, launch),
        outcome(operation, launch) is Err <==> !succeeds(operation, launch),
{
}

/// Stopping and removing confirm with their fixed texts whenever the tool ends
/// with status 0: neither the container named nor anything the tool printed
/// has a part in the text.
pub proof fn lemma_confirmation_is_fixed(container_id: Seq<char>, output: ProcessOutputView)
    requires
        output.exit_code == Some(0i32),
    ensures
        outcome(OperationView::StopContainer { container_id }, LaunchView::Finished(output))
            == success("Container stopped"@),
        outcome(OperationView::RemoveContainer { container_id }, LaunchView::Finished(output))
            == success("Container removed"@),
{
}

/// Where the tool cannot be started, every operation fails with a message
/// that holds the words "Failed to execute docker".
pub proof fn lemma_launch_failure_names_the_tool(operation: OperationView, reason: Seq<char>)
    ensures
        outcome(operation, LaunchView::NotStarted { reason }) matches Err(message)
            && contains_text(message, "Failed to execute docker"@),
{
    reveal_strlit("Failed to execute docker ");
    reveal_strlit("Failed to execute docker");
    let message = outcome(operation, LaunchView::NotStarted { reason })->Err_0;
    assert(message.subrange(0, 24) =~= "Failed to execute docker"@);
    assert(occurs_at(message, "Failed to execute docker"@, 0));
}

} // verus!
