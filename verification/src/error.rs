//! The errors that a launch can end with.

use vstd::prelude::*;

verus! {

/// What went wrong, with the fleet members concerned.
#[derive(Debug, PartialEq, Eq)]
pub enum Error {
    /// No configuration file was given and none was found.
    NoConfig,
    /// The request itself cannot be carried out, with the reason.
    ProcessFailed(String),
    /// The surroundings could not be read, with the cause.
    Io(String),
    /// The binary of `member` is not a readable, executable file.
    BinaryNotFound { member: String },
    /// `first` and `second` both declare `port`.
    DuplicatePort { first: String, second: String, port: u16 },
    /// The process of `member` could not be started, with the cause.
    SpawnFailed { member: String, cause: String },
    /// The processes of `members` could not be stopped cleanly.
    KillFailed { members: Vec<String> },
    /// The interrupt handler could not be installed, with the cause.
    Signal(String),
}

/// An [`Error`] as a mathematical value: every text as its characters.
pub ghost enum ErrorView {
    NoConfig,
    ProcessFailed(Seq<char>),
    Io(Seq<char>),
    BinaryNotFound { member: Seq<char> },
    DuplicatePort { first: Seq<char>, second: Seq<char>, port: u16 },
    SpawnFailed { member: Seq<char>, cause: Seq<char> },
    KillFailed { members: Seq<Seq<char>> },
    Signal(Seq<char>),
}

impl View for Error {
    type V = ErrorView;

    open spec fn view(&self) -> ErrorView {
        match *self {
            Error::NoConfig => ErrorView::NoConfig,
            Error::ProcessFailed(reason) => ErrorView::ProcessFailed(reason@),
            Error::Io(cause) => ErrorView::Io(cause@),
            Error::BinaryNotFound { member } => ErrorView::BinaryNotFound { member: member@ },
            Error::DuplicatePort { first, second, port } => ErrorView::DuplicatePort {
                first: first@,
                second: second@,
                port,
            },
            Error::SpawnFailed { member, cause } => ErrorView::SpawnFailed {
                member: member@,
                cause: cause@,
            },
            Error::KillFailed { members } => ErrorView::KillFailed { members: members.deep_view() },
            Error::Signal(cause) => ErrorView::Signal(cause@),
        }
    }
}

impl Error {
    /// Whether the error aborts a launch. Processes that could not be stopped
    /// cleanly are reported, but the teardown itself has completed.
    pub open spec fn spec_is_fatal(&self) -> bool {
        !(self is KillFailed)
    }

    #[verifier::when_used_as_spec(spec_is_fatal)]
    pub fn is_fatal(&self) -> (fatal: bool)
        ensures
            fatal == self.spec_is_fatal(),
    {
        match self {
            Error::KillFailed { .. } => false,
            _ => true,
        }
    }
}

/// The outcome of an operation as a mathematical value.
pub open spec fn outcome_view(outcome: Result<(), Error>) -> Result<(), ErrorView> {
    match outcome {
        Ok(()) => Ok(()),
        Err(e) => Err(e@),
    }
}

/// The code with which the program exits on `result`: `0` once teardown has
/// completed, even where some process could not be stopped; `1` where the
/// launch was aborted.
pub open spec fn spec_exit_code(result: &Result<(), Error>) -> i32 {
    match *result {
        Ok(()) => 0,
        Err(e) => if e.spec_is_fatal() { 1 } else { 0 },
    }
}

#[verifier::when_used_as_spec(spec_exit_code)]
pub fn exit_code(result: &Result<(), Error>) -> (code: i32)
    ensures
        code == spec_exit_code(result),
{
    match result {
        Ok(()) => 0,
        Err(e) => if e.is_fatal() { 1 } else { 0 },
    }
}

} // verus!
