//! Handing a chosen message to the version-control tool.

use vstd::prelude::*;

use crate::error::{Error, ErrorView};
use crate::text::push_text;

verus! {

/// The arguments that commit with `message` and open the editor on it
/// before the commit is made.
pub open spec fn commit_arguments_of(message: Seq<char>) -> Seq<Seq<char>> {
    seq!["commit"@, "--message"@, message, "--edit"@]
}

/// Builds the arguments of the commit command.
pub fn commit_arguments(message: &str) -> (arguments: Vec<String>)
    ensures
        arguments.deep_view() == commit_arguments_of(message@),
{
    let mut arguments: Vec<String> = Vec::new();
    push_text(&mut arguments, "commit");
    push_text(&mut arguments, "--message");
    push_text(&mut arguments, message);
    push_text(&mut arguments, "--edit");
    arguments
}

/// Reads the exit of the commit command: anything but success is the one
/// error of this step.
pub fn commit_result(success: bool) -> (committed: Result<(), Error>)
    ensures
        committed is Ok <==> success,
        committed matches Err(error) ==> error@ == ErrorView::GitCommit,
{
    if success {
        Ok(())
    } else {
        Err(Error::GitCommit)
    }
}

} // verus!
