//! TNC errors
use vstd::prelude::*;

use crate::protocol::response::CommandResult;

verus! {

/// The kind of an input/output failure
#[derive(Debug, Clone, Copy, PartialEq, Eq, Structural)]
pub enum IoErrorKind {
    /// Lost connection to the TNC
    ConnectionReset,
    /// The TNC did not respond in time
    TimedOut,
    /// The TNC sent malformed or unsolicited data
    InvalidData,
    /// A write made no progress
    UnexpectedEof,
    /// An internal channel closed
    BrokenPipe,
    /// Any other failure
    Other,
}

/// An input/output failure: its kind and a message
#[derive(Debug, Clone, PartialEq, Eq)]
pub struct IoError {
    /// The kind of failure
    pub kind: IoErrorKind,
    /// A description of the failure
    pub message: String,
}

/// Errors raised by the `Tnc` interface
#[derive(Debug)]
pub enum TncError {
    /// TNC rejected a command with a `FAULT` message
    CommandFailed(String),
    /// Event timed out
    ///
    /// This error indicates that an expected TNC event did
    /// not occur within the allotted time. The operation
    /// should probably be retried.
    TimedOut,
    /// Socket connectivity problem
    ///
    /// - `ConnectionReset`: lost connection to TNC
    /// - `TimedOut`: TNC did not respond to a command
    /// - `InvalidData`: TNC sent a malformed or unsolicited
    ///   command response
    IoError(IoError),
}

/// Composite `Ok`/`Err` return type
pub type TncResult<T> = Result<T, TncError>;

/// Abstract value of a `TncError`
pub enum TncErrorView {
    /// See `TncError::CommandFailed`
    CommandFailed(Seq<char>),
    /// See `TncError::TimedOut`
    TimedOut,
    /// See `TncError::IoError`: kind and message
    IoError(IoErrorKind, Seq<char>),
}

impl View for TncError {
    type V = TncErrorView;

    open spec fn view(&self) -> TncErrorView {
        match self {
            TncError::CommandFailed(s) => TncErrorView::CommandFailed(s@),
            TncError::TimedOut => TncErrorView::TimedOut,
            TncError::IoError(e) => TncErrorView::IoError(e.kind, e.message@),
        }
    }
}

/// Message of the error for a lost TNC connection
pub open spec fn spec_reset_message() -> Seq<char> {
    seq![
        'L', 'o', 's', 't', ' ', 'c', 'o', 'n', 'n', 'e', 'c', 't', 'i', 'o', 'n', ' ', 't', 'o',
        ' ', 'A', 'R', 'D', 'O', 'P', ' ', 'T', 'N', 'C'
    ]
}

/// Message of the error for a command timeout
pub open spec fn spec_timeout_message() -> Seq<char> {
    spec_reset_message() + seq![
        ':', ' ', 'c', 'o', 'm', 'm', 'a', 'n', 'd', ' ', 't', 'i', 'm', 'e', 'd', ' ', 'o', 'u',
        't'
    ]
}

/// Message of the error for a response that belongs to no command
pub open spec fn spec_invalid_response_message() -> Seq<char> {
    seq![
        'T', 'N', 'C', ' ', 's', 'e', 'n', 't', ' ', 'a', 'n', ' ', 'u', 'n', 's', 'o', 'l', 'i',
        'c', 'i', 't', 'e', 'd', ' ', 'o', 'r', ' ', 'i', 'n', 'v', 'a', 'l', 'i', 'd', ' ', 'c',
        'o', 'm', 'm', 'a', 'n', 'd', ' ', 'r', 'e', 's', 'p', 'o', 'n', 's', 'e'
    ]
}

/// The error for a lost TNC connection
pub fn connection_reset_err() -> (e: IoError)
    ensures
        e.kind == IoErrorKind::ConnectionReset,
        e.message@ == spec_reset_message(),
{
    proof {
        reveal_strlit("Lost connection to ARDOP TNC");
    }
    IoError { kind: IoErrorKind::ConnectionReset, message: "Lost connection to ARDOP TNC".to_owned() }
}

/// The error for a command that the TNC did not answer in time
pub fn connection_timeout_err() -> (e: IoError)
    ensures
        e.kind == IoErrorKind::TimedOut,
        e.message@ == spec_timeout_message(),
{
    proof {
        reveal_strlit("Lost connection to ARDOP TNC: command timed out");
    }
    IoError {
        kind: IoErrorKind::TimedOut,
        message: "Lost connection to ARDOP TNC: command timed out".to_owned(),
    }
}

/// The error for a command response that belongs to no command sent
pub fn command_response_invalid_err() -> (e: IoError)
    ensures
        e.kind == IoErrorKind::InvalidData,
        e.message@ == spec_invalid_response_message(),
{
    proof {
        reveal_strlit("TNC sent an unsolicited or invalid command response");
    }
    IoError {
        kind: IoErrorKind::InvalidData,
        message: "TNC sent an unsolicited or invalid command response".to_owned(),
    }
}

impl TncError {
    /// The TNC error for a failed command result
    pub fn from_command_result(r: CommandResult) -> (e: TncError)
        requires
            r is Err,
        ensures
            r matches Err(x) && e@ == TncErrorView::CommandFailed(x@),
    {
        match r {
            Ok(_a) => TncError::TimedOut,
            Err(x) => TncError::CommandFailed(x),
        }
    }

    /// The TNC error for an input/output failure: timeouts become
    /// `TimedOut`, everything else an `IoError`
    pub fn from_io(e: IoError) -> (r: TncError)
        ensures
            e.kind == IoErrorKind::TimedOut ==> r@ == TncErrorView::TimedOut,
            e.kind != IoErrorKind::TimedOut ==> r@ == TncErrorView::IoError(e.kind, e.message@),
    {
        match e.kind {
            IoErrorKind::TimedOut => TncError::TimedOut,
            _ => TncError::IoError(e),
        }
    }

    /// Human-readable description of the error
    pub fn to_string(&self) -> (s: String)
        ensures
            s@ == match self@ {
                TncErrorView::CommandFailed(m) => seq![
                    'T', 'N', 'C', ' ', 'c', 'o', 'm', 'm', 'a', 'n', 'd', ' ', 'f', 'a', 'i', 'l',
                    'e', 'd', ':', ' ', '"'
                ] + m + seq!['"'],
                TncErrorView::TimedOut => seq!['T', 'i', 'm', 'e', 'd', ' ', 'o', 'u', 't'],
                TncErrorView::IoError(_k, m) => seq!['I', 'O', ' ', 'E', 'r', 'r', 'o', 'r', ':', ' ']
                    + m,
            },
    {
        proof {
            reveal_strlit("TNC command failed: \"");
            reveal_strlit("\"");
            reveal_strlit("Timed out");
            reveal_strlit("IO Error: ");
        }
        match self {
            TncError::CommandFailed(m) => {
                let mut s = "TNC command failed: \"".to_owned();
                s.append(m.as_str());
                s.append("\"");
                s
            },
            TncError::TimedOut => "Timed out".to_owned(),
            TncError::IoError(e) => {
                let mut s = "IO Error: ".to_owned();
                s.append(e.message.as_str());
                s
            },
        }
    }
}

} // verus!
