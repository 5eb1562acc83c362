//! The failures of the agent. Each one ends the process; none is retried.

use vstd::prelude::*;
use vstd::string::*;
use crate::text::decimal;
use crate::text::decimal_text;
use crate::text::signed_decimal;
use crate::text::signed_decimal_text;

verus! {

/// The three kinds of failure.
#[derive(Clone, Copy, Debug, PartialEq, Eq, Structural)]
pub enum ErrorKind {
    Config,
    Io,
    Hibernate,
}

/// How a command ended.
#[derive(Clone, Copy, Debug, PartialEq, Eq)]
pub enum CommandStatus {
    /// It exited with this code.
    Exited(i32),
    /// A signal of this number ended it.
    Signalled(u32),
    /// The system gave neither a code nor a signal.
    Unknown,
}

/// Why the agent stops.
#[derive(Clone, Copy, Debug, PartialEq, Eq)]
pub enum AlertError {
    /// No font was named on the command line.
    MissingArgument,
    /// No file was found for the named font.
    FontNotFound,
    /// The battery could not be found or read.
    BatteryUnreadable,
    /// Hibernation was asked for and did not succeed. Holds how the
    /// command ended.
    HibernateFailed(CommandStatus),
}

impl CommandStatus {
    /// The command succeeded: it exited with code zero.
    pub open spec fn succeeded(&self) -> bool {
        *self == CommandStatus::Exited(0)
    }

    /// The status in words.
    pub open spec fn wording(&self) -> Seq<char> {
        match self {
            CommandStatus::Exited(code) => "exit status: "@ + signed_decimal(*code as int),
            CommandStatus::Signalled(signal) => "signal: "@ + decimal(*signal as nat),
            CommandStatus::Unknown => "unknown status"@,
        }
    }

    pub fn is_success(&self) -> (b: bool)
        ensures
            b == self.succeeded(),
    {
        match self {
            CommandStatus::Exited(code) => *code == 0,
            _ => false,
        }
    }

    pub fn text(&self) -> (s: String)
        ensures
            s@ == self.wording(),
    {
        match self {
            CommandStatus::Exited(code) => {
                let digits = signed_decimal_text(*code);
                String::from_str("exit status: ").concat(digits.as_str())
            },
            CommandStatus::Signalled(signal) => {
                let digits = decimal_text(*signal);
                String::from_str("signal: ").concat(digits.as_str())
            },
            CommandStatus::Unknown => String::from_str("unknown status"),
        }
    }
}

impl AlertError {
    pub open spec fn kind_of(&self) -> ErrorKind {
        match self {
            AlertError::MissingArgument => ErrorKind::Config,
            AlertError::FontNotFound => ErrorKind::Config,
            AlertError::BatteryUnreadable => ErrorKind::Io,
            AlertError::HibernateFailed(_) => ErrorKind::Hibernate,
        }
    }

    /// What is said of the failure before the process ends.
    pub open spec fn message_of(&self) -> Seq<char> {
        match self {
            AlertError::MissingArgument => "Expected a font file path"@,
            AlertError::FontNotFound => "No file found for the font"@,
            AlertError::BatteryUnreadable => "No battery could be read"@,
            AlertError::HibernateFailed(status) => "Failed to hibernate machine: "@
                + status.wording(),
        }
    }

    pub fn kind(&self) -> (k: ErrorKind)
        ensures
            k == self.kind_of(),
    {
        match self {
            AlertError::MissingArgument => ErrorKind::Config,
            AlertError::FontNotFound => ErrorKind::Config,
            AlertError::BatteryUnreadable => ErrorKind::Io,
            AlertError::HibernateFailed(_) => ErrorKind::Hibernate,
        }
    }

    pub fn message(&self) -> (s: String)
        ensures
            s@ == self.message_of(),
    {
        match self {
            AlertError::MissingArgument => String::from_str("Expected a font file path"),
            AlertError::FontNotFound => String::from_str("No file found for the font"),
            AlertError::BatteryUnreadable => String::from_str("No battery could be read"),
            AlertError::HibernateFailed(status) => {
                let status_text = status.text();
                String::from_str("Failed to hibernate machine: ").concat(status_text.as_str())
            },
        }
    }
}

/// The font named on the command line, or the failure for its absence.
pub fn require_argument(argument: Option<String>) -> (r: Result<String, AlertError>)
    ensures
        match argument {
            Some(name) => r == Ok::<String, AlertError>(name),
            None => r == Err::<String, AlertError>(AlertError::MissingArgument),
        },
{
    match argument {
        Some(name) => Ok(name),
        None => Err(AlertError::MissingArgument),
    }
}

/// The path of the font that the search found, or the failure for
/// finding none.
pub fn require_font(found: Option<String>) -> (r: Result<String, AlertError>)
    ensures
        match found {
            Some(path) => r == Ok::<String, AlertError>(path),
            None => r == Err::<String, AlertError>(AlertError::FontNotFound),
        },
{
    match found {
        Some(path) => Ok(path),
        None => Err(AlertError::FontNotFound),
    }
}

/// What the end of the hibernate command means: success if it exited
/// with code zero, else a failure that carries how it ended.
pub fn hibernate_result(status: CommandStatus) -> (r: Result<(), AlertError>)
    ensures
        status.succeeded() ==> r == Ok::<(), AlertError>(()),
        !status.succeeded() ==> r == Err::<(), AlertError>(AlertError::HibernateFailed(status)),
{
    if status.is_success() {
        Ok(())
    } else {
        Err(AlertError::HibernateFailed(status))
    }
}

} // verus!
