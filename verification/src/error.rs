//! The errors that the library reports.

use vstd::prelude::*;

use crate::text::push_decimal;

verus! {

/// What went wrong.
#[derive(Debug, PartialEq, Eq)]
pub enum ZmqError {
    /// The peer broke the wire protocol.
    ProtocolViolation(String),
    /// The value given for the option with this id is not one it can take.
    InvalidOptionValue(i32),
    /// The option with this id cannot be handled at socket level.
    UnsupportedOption(i32),
    /// There is no option with this id.
    InvalidOption(i32),
    /// The option may be written but not read.
    PermissionDenied(String),
    /// The security handshake failed.
    SecurityError(String),
    /// An operation was asked for in a state that does not allow it.
    InvalidState(String),
    /// A part of the endpoint failed.
    Internal(String),
    /// The system reported this error number.
    IoError { errno: i32 },
    /// The peer closed the connection.
    ConnectionClosed,
    /// An operation took longer than it may.
    Timeout,
}

/// A [`ZmqError`] with its text as a sequence of characters.
#[verifier::ext_equal]
pub enum ErrorView {
    ProtocolViolation(Seq<char>),
    InvalidOptionValue(i32),
    UnsupportedOption(i32),
    InvalidOption(i32),
    PermissionDenied(Seq<char>),
    SecurityError(Seq<char>),
    InvalidState(Seq<char>),
    Internal(Seq<char>),
    IoError(i32),
    ConnectionClosed,
    Timeout,
}

impl View for ZmqError {
    type V = ErrorView;

    open spec fn view(&self) -> ErrorView {
        match *self {
            ZmqError::ProtocolViolation(text) => ErrorView::ProtocolViolation(text@),
            ZmqError::InvalidOptionValue(id) => ErrorView::InvalidOptionValue(id),
            ZmqError::UnsupportedOption(id) => ErrorView::UnsupportedOption(id),
            ZmqError::InvalidOption(id) => ErrorView::InvalidOption(id),
            ZmqError::PermissionDenied(text) => ErrorView::PermissionDenied(text@),
            ZmqError::SecurityError(text) => ErrorView::SecurityError(text@),
            ZmqError::InvalidState(text) => ErrorView::InvalidState(text@),
            ZmqError::Internal(text) => ErrorView::Internal(text@),
            ZmqError::IoError { errno } => ErrorView::IoError(errno),
            ZmqError::ConnectionClosed => ErrorView::ConnectionClosed,
            ZmqError::Timeout => ErrorView::Timeout,
        }
    }
}

/// A result with its error seen through its view.
pub open spec fn result_view<T>(result: Result<T, ZmqError>) -> Result<T, ErrorView> {
    match result {
        Ok(value) => Ok(value),
        Err(error) => Err(error@),
    }
}

impl Clone for ZmqError {
    fn clone(&self) -> (copy: Self)
        ensures
            copy@ == self@,
    {
        match self {
            ZmqError::ProtocolViolation(text) => ZmqError::ProtocolViolation(text.clone()),
            ZmqError::InvalidOptionValue(id) => ZmqError::InvalidOptionValue(*id),
            ZmqError::UnsupportedOption(id) => ZmqError::UnsupportedOption(*id),
            ZmqError::InvalidOption(id) => ZmqError::InvalidOption(*id),
            ZmqError::PermissionDenied(text) => ZmqError::PermissionDenied(text.clone()),
            ZmqError::SecurityError(text) => ZmqError::SecurityError(text.clone()),
            ZmqError::InvalidState(text) => ZmqError::InvalidState(text.clone()),
            ZmqError::Internal(text) => ZmqError::Internal(text.clone()),
            ZmqError::IoError { errno } => ZmqError::IoError { errno: *errno },
            ZmqError::ConnectionClosed => ZmqError::ConnectionClosed,
            ZmqError::Timeout => ZmqError::Timeout,
        }
    }
}

/// An integer in base ten, with a minus sign where it is negative.
pub open spec fn signed_text(n: i32) -> Seq<char> {
    if n < 0 {
        "-"@ + crate::text::decimal_text((-n) as nat)
    } else {
        crate::text::decimal_text(n as nat)
    }
}

/// The sentence that describes an error.
pub open spec fn description(error: ErrorView) -> Seq<char> {
    match error {
        ErrorView::ProtocolViolation(text) => "protocol violation: "@ + text,
        ErrorView::InvalidOptionValue(id) => "invalid value for option "@ + signed_text(id),
        ErrorView::UnsupportedOption(id) => "unsupported option "@ + signed_text(id),
        ErrorView::InvalidOption(id) => "invalid option "@ + signed_text(id),
        ErrorView::PermissionDenied(text) => "permission denied: "@ + text,
        ErrorView::SecurityError(text) => "security error: "@ + text,
        ErrorView::InvalidState(text) => "invalid state: "@ + text,
        ErrorView::Internal(text) => "internal error: "@ + text,
        ErrorView::IoError(errno) => "I/O error "@ + signed_text(errno),
        ErrorView::ConnectionClosed => "connection closed by peer"@,
        ErrorView::Timeout => "operation timed out"@,
    }
}

/// A text that starts with `start` and goes on with `rest`.
pub(crate) fn joined(start: &str, rest: &str) -> (text: String)
    ensures
        text@ == start@ + rest@,
{
    let mut text = start.to_string();
    text.append(rest);
    text
}

fn with_number(start: &str, n: i32) -> (text: String)
    ensures
        text@ == start@ + signed_text(n),
{
    let mut text = start.to_string();
    if n < 0 {
        text.append("-");
        push_decimal(&mut text, (-(n as i64)) as u64);
    } else {
        push_decimal(&mut text, n as u64);
    }
    assert(text@ =~= start@ + signed_text(n));
    text
}

impl ZmqError {
    /// The sentence that describes this error.
    pub fn describe(&self) -> (text: String)
        ensures
            text@ == description(self@),
    {
        match self {
            ZmqError::ProtocolViolation(text) => joined("protocol violation: ", text.as_str()),
            ZmqError::InvalidOptionValue(id) => with_number("invalid value for option ", *id),
            ZmqError::UnsupportedOption(id) => with_number("unsupported option ", *id),
            ZmqError::InvalidOption(id) => with_number("invalid option ", *id),
            ZmqError::PermissionDenied(text) => joined("permission denied: ", text.as_str()),
            ZmqError::SecurityError(text) => joined("security error: ", text.as_str()),
            ZmqError::InvalidState(text) => joined("invalid state: ", text.as_str()),
            ZmqError::Internal(text) => joined("internal error: ", text.as_str()),
            ZmqError::IoError { errno } => with_number("I/O error ", *errno),
            ZmqError::ConnectionClosed => "connection closed by peer".to_string(),
            ZmqError::Timeout => "operation timed out".to_string(),
        }
    }
}

} // verus!
