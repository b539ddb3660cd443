use vstd::prelude::*;

use crate::command::{CommandError, InputProblem};
use crate::range::UnusedRangeStep;

verus! {

/// The kinds of failure that a command can end in.
#[derive(Clone, Copy, Debug, PartialEq, Eq, Structural)]
pub enum ErrorCategory {
    /// No meter matched when opening.
    DeviceNotFound,
    /// Input or output failed on an open meter.
    Transport,
    /// The meter refused an operation or sent what cannot be used for its mode.
    Protocol,
    /// An argument of the command line is malformed.
    InputValidation,
    /// The verb or sub-verb is not in the command tree.
    UnknownCommand,
}

/// A failure of one command, carried unchanged to where the command was started.
pub enum DmmError {
    DeviceNotFound,
    Transport(String),
    Protocol(String),
    /// A reading named a range step that its mode's family does not use.
    UnusedRange(UnusedRangeStep),
    Input(InputProblem),
    UnknownCommand(String),
}

/// The category of each error.
pub open spec fn category_of(e: DmmError) -> ErrorCategory {
    match e {
        DmmError::DeviceNotFound => ErrorCategory::DeviceNotFound,
        DmmError::Transport(_) => ErrorCategory::Transport,
        DmmError::Protocol(_) => ErrorCategory::Protocol,
        DmmError::UnusedRange(_) => ErrorCategory::Protocol,
        DmmError::Input(_) => ErrorCategory::InputValidation,
        DmmError::UnknownCommand(_) => ErrorCategory::UnknownCommand,
    }
}

/// What a malformed argument is reported as.
pub open spec fn problem_text(p: InputProblem) -> Seq<char> {
    match p {
        InputProblem::MissingArgument => "missing argument"@,
        InputProblem::BadIndex => "index is not an unsigned 16-bit number"@,
        InputProblem::BadInterval => "interval is not an unsigned 16-bit number"@,
        InputProblem::BadDuration => "duration is not an unsigned 32-bit number"@,
        InputProblem::BadReferenceValue => "reference value is not a number"@,
    }
}

/// The one line that reports an error.
pub open spec fn message_text(e: DmmError) -> Seq<char> {
    match e {
        DmmError::DeviceNotFound => "DMM is not found"@,
        DmmError::Transport(t) => "transport error: "@ + t@,
        DmmError::Protocol(t) => "protocol error: "@ + t@,
        DmmError::UnusedRange(_) => "protocol error: unused range step"@,
        DmmError::Input(p) => "invalid input: "@ + problem_text(p),
        DmmError::UnknownCommand(t) => "unknown CLI command '"@ + t@ + "'"@,
    }
}

fn problem_str(p: InputProblem) -> (r: &'static str)
    ensures
        r@ == problem_text(p),
{
    match p {
        InputProblem::MissingArgument => "missing argument",
        InputProblem::BadIndex => "index is not an unsigned 16-bit number",
        InputProblem::BadInterval => "interval is not an unsigned 16-bit number",
        InputProblem::BadDuration => "duration is not an unsigned 32-bit number",
        InputProblem::BadReferenceValue => "reference value is not a number",
    }
}

impl DmmError {
    /// The category of this error.
    pub fn category(&self) -> (c: ErrorCategory)
        ensures
            c == category_of(*self),
    {
        match self {
            DmmError::DeviceNotFound => ErrorCategory::DeviceNotFound,
            DmmError::Transport(_) => ErrorCategory::Transport,
            DmmError::Protocol(_) => ErrorCategory::Protocol,
            DmmError::UnusedRange(_) => ErrorCategory::Protocol,
            DmmError::Input(_) => ErrorCategory::InputValidation,
            DmmError::UnknownCommand(_) => ErrorCategory::UnknownCommand,
        }
    }

    /// The one line that reports this error.
    pub fn message(&self) -> (r: String)
        ensures
            r@ == message_text(*self),
    {
        match self {
            DmmError::DeviceNotFound => String::from_str("DMM is not found"),
            DmmError::Transport(t) => String::from_str("transport error: ").concat(t.as_str()),
            DmmError::Protocol(t) => String::from_str("protocol error: ").concat(t.as_str()),
            DmmError::UnusedRange(_) => String::from_str("protocol error: unused range step"),
            DmmError::Input(p) => String::from_str("invalid input: ").concat(problem_str(*p)),
            DmmError::UnknownCommand(t) => String::from_str("unknown CLI command '").concat(
                t.as_str(),
            ).concat("'"),
        }
    }

    /// The error that a refused command line ends in.
    pub fn from_command_error(e: CommandError<String>) -> (r: DmmError)
        ensures
            match e {
                CommandError::UnknownCommand(t) => r matches DmmError::UnknownCommand(u) && u@
                    == t@,
                CommandError::Input(p) => r == DmmError::Input(p),
            },
    {
        match e {
            CommandError::UnknownCommand(t) => DmmError::UnknownCommand(t),
            CommandError::Input(p) => DmmError::Input(p),
        }
    }

    /// The error that a reading with an unused range step ends in.
    pub fn from_unused_range(e: UnusedRangeStep) -> (r: DmmError)
        ensures
            r == DmmError::UnusedRange(e),
            category_of(r) == ErrorCategory::Protocol,
    {
        DmmError::UnusedRange(e)
    }
}

} // verus!
