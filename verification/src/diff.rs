//! Asking the version-control tool for the staged diff, and reading what
//! it printed.

use std::string::FromUtf8Error;
use vstd::prelude::*;
use vstd::utf8::{decode_utf8, valid_utf8};

use crate::error::{Error, ErrorView};
use crate::text::{push_all, push_text};

verus! {

/// The arguments that ask for the staged diff: the two flags that leave
/// whitespace-only and blank-line changes out where `ignore_space` holds,
/// and the paths behind a `--` where there are any.
pub open spec fn diff_arguments_of(ignore_space: bool, paths: Seq<Seq<char>>) -> Seq<Seq<char>> {
    seq!["diff"@, "--staged"@] + (if ignore_space {
        seq!["--ignore-space-change"@, "--ignore-blank-lines"@]
    } else {
        seq![]
    }) + (if paths.len() > 0 {
        seq!["--"@] + paths
    } else {
        seq![]
    })
}

/// What the diff command's outcome means: a failed exit is an error of its
/// own, output that is not UTF-8 another, and anything else is the diff,
/// which may be empty.
pub open spec fn diff_outcome(success: bool, stdout: Seq<u8>) -> Result<Seq<char>, ErrorView> {
    if !success {
        Err(ErrorView::GitDiff)
    } else if !valid_utf8(stdout) {
        Err(ErrorView::FromUtf8)
    } else {
        Ok(decode_utf8(stdout))
    }
}

/// Builds the arguments of the diff command.
pub fn diff_arguments(ignore_space: bool, paths: &Vec<String>) -> (arguments: Vec<String>)
    ensures
        arguments.deep_view() == diff_arguments_of(ignore_space, paths.deep_view()),
{
    let mut arguments: Vec<String> = Vec::new();
    push_text(&mut arguments, "diff");
    push_text(&mut arguments, "--staged");
    if ignore_space {
        push_text(&mut arguments, "--ignore-space-change");
        push_text(&mut arguments, "--ignore-blank-lines");
    }
    if paths.len() > 0 {
        push_text(&mut arguments, "--");
        push_all(&mut arguments, paths);
    }
    arguments
}

/// `String::from_utf8` of std. It succeeds exactly on well-formed UTF-8,
/// and the string it gives holds the scalar values that the bytes encode.
#[verifier::external_body]
fn string_from_utf8(bytes: Vec<u8>) -> (decoded: Result<String, FromUtf8Error>)
    ensures
        decoded is Ok <==> valid_utf8(bytes@),
        decoded matches Ok(text) ==> text@ == decode_utf8(bytes@),
{
    String::from_utf8(bytes)
}

/// Reads the outcome of the diff command: whether it exited with success,
/// and what it wrote to its standard output.
pub fn read_diff(success: bool, stdout: Vec<u8>) -> (diff: Result<String, Error>)
    ensures
        match diff {
            Ok(text) => diff_outcome(success, stdout@) == Ok::<Seq<char>, ErrorView>(text@),
            Err(error) => diff_outcome(success, stdout@) == Err::<Seq<char>, ErrorView>(error@),
        },
{
    if !success {
        return Err(Error::GitDiff);
    }
    match string_from_utf8(stdout) {
        Ok(text) => Ok(text),
        Err(error) => Err(Error::FromUtf8(error)),
    }
}

} // verus!
