//! How a run ends.
use vstd::prelude::*;

use crate::text::concat3;

verus! {

/// The documented ways for a run to end.
#[derive(Clone, Copy, Debug, PartialEq, Eq, Structural)]
pub enum Exit {
    Success,
    Usage,
    Parse,
    RedirectRefused,
    NotFound,
    AccessDenied,
    Io,
    Partial,
}

/// The place of an end in the list.
pub open spec fn rank_of(e: Exit) -> int {
    match e {
        Exit::Success => 0,
        Exit::Usage => 1,
        Exit::Parse => 2,
        Exit::RedirectRefused => 3,
        Exit::NotFound => 4,
        Exit::AccessDenied => 5,
        Exit::Io => 6,
        Exit::Partial => 7,
    }
}

/// Of two ends the one that comes later in the list.
pub open spec fn worse_of(a: Exit, b: Exit) -> Exit {
    if rank_of(a) >= rank_of(b) {
        a
    } else {
        b
    }
}

fn rank(e: Exit) -> (r: u8)
    ensures
        r == rank_of(e),
{
    match e {
        Exit::Success => 0,
        Exit::Usage => 1,
        Exit::Parse => 2,
        Exit::RedirectRefused => 3,
        Exit::NotFound => 4,
        Exit::AccessDenied => 5,
        Exit::Io => 6,
        Exit::Partial => 7,
    }
}

/// Of two ends the one that comes later in the list.
pub fn worse(a: Exit, b: Exit) -> (r: Exit)
    ensures
        r == worse_of(a, b),
{
    if rank(a) >= rank(b) {
        a
    } else {
        b
    }
}

/// An error with the way in which it ends the run.
#[derive(Debug)]
pub struct ExitError {
    pub message: String,
    pub code: Exit,
}

/// What an `ExitError` stands for.
pub struct ErrorView {
    pub message: Seq<char>,
    pub code: Exit,
}

impl View for ExitError {
    type V = ErrorView;

    open spec fn view(&self) -> ErrorView {
        ErrorView { message: self.message@, code: self.code }
    }
}

/// An error with a given end.
pub open spec fn error_with(code: Exit, message: Seq<char>) -> ErrorView {
    ErrorView { message, code }
}

/// An error of the caller's.
pub open spec fn usage_error(message: Seq<char>) -> ErrorView {
    error_with(Exit::Usage, message)
}

/// A refusal.
pub open spec fn denied_error(message: Seq<char>) -> ErrorView {
    error_with(Exit::AccessDenied, message)
}

/// An error without an end of its own.
pub open spec fn plain_error(message: Seq<char>) -> ErrorView {
    error_with(Exit::Io, message)
}

/// Nothing, or an error.
pub open spec fn done_result(r: Result<(), ExitError>) -> Result<(), ErrorView> {
    match r {
        Ok(_) => Ok(()),
        Err(e) => Err(e@),
    }
}

/// An error with a given end.
pub fn coded(code: Exit, message: String) -> (r: ExitError)
    ensures
        r@ == error_with(code, message@),
{
    ExitError { message, code }
}

/// An error of the caller's.
pub fn usage(message: String) -> (r: ExitError)
    ensures
        r@ == usage_error(message@),
{
    coded(Exit::Usage, message)
}

/// A refusal.
pub fn access_denied(message: String) -> (r: ExitError)
    ensures
        r@ == denied_error(message@),
{
    coded(Exit::AccessDenied, message)
}

/// An error without an end of its own.
pub fn failed(message: String) -> (r: ExitError)
    ensures
        r@ == plain_error(message@),
{
    coded(Exit::Io, message)
}

/// An input that could not be read as registry data.
#[derive(Debug)]
pub struct InputError {
    pub source: String,
    pub message: String,
    pub code: Exit,
}

impl InputError {
    /// The error as text.
    pub fn to_string(&self) -> (r: String)
        ensures
            r@ == self.source@ + ": "@ + self.message@,
    {
        concat3(self.source.as_str(), ": ", self.message.as_str())
    }
}

/// Why the registry refused.
#[derive(Clone, Copy, Debug, PartialEq, Eq, Structural)]
pub enum RegistryFailure {
    NotFound,
    AccessDenied,
    Other,
}

/// How a registry failure ends a run.
pub open spec fn failure_exit(failure: RegistryFailure) -> Exit {
    match failure {
        RegistryFailure::NotFound => Exit::NotFound,
        RegistryFailure::AccessDenied => Exit::AccessDenied,
        RegistryFailure::Other => Exit::Io,
    }
}

/// How a registry failure ends a run.
pub fn reg_exit(failure: RegistryFailure) -> (r: Exit)
    ensures
        r == failure_exit(failure),
{
    match failure {
        RegistryFailure::NotFound => Exit::NotFound,
        RegistryFailure::AccessDenied => Exit::AccessDenied,
        RegistryFailure::Other => Exit::Io,
    }
}

} // verus!
