//! The errors that clients and callers are told of.

use vstd::prelude::*;

verus! {

/// The error that goes to a client of the wire protocol.
#[derive(Debug, PartialEq, Eq)]
pub struct ErrorInfo {
    pub severity: String,
    pub code: String,
    pub message: String,
}

/// What an [`ErrorInfo`] says.
pub struct ErrorInfoView {
    pub severity: Seq<char>,
    pub code: Seq<char>,
    pub message: Seq<char>,
}

impl View for ErrorInfo {
    type V = ErrorInfoView;

    open spec fn view(&self) -> ErrorInfoView {
        ErrorInfoView {
            severity: self.severity@,
            code: self.code@,
            message: self.message@,
        }
    }
}

/// The error with which the server answers a client, whatever went wrong.
pub open spec fn server_error(message: Seq<char>) -> ErrorInfoView {
    ErrorInfoView { severity: "ERROR"@, code: "XX000"@, message }
}

/// The error with which the server answers a client.
pub fn error_info(message: &str) -> (r: ErrorInfo)
    ensures
        r@ == server_error(message@),
        r.severity@ == "ERROR"@ && r.code@ == "XX000"@ && r.message@ == message@,
{
    ErrorInfo {
        severity: "ERROR".to_owned(),
        code: "XX000".to_owned(),
        message: message.to_owned(),
    }
}

/// The error with which a session refuses a statement or a value.
#[derive(Debug, PartialEq, Eq)]
pub enum SessionError {
    ParseError(String),
    InvalidArgument(String),
    ConversionError(String),
    InternalError(String),
}

/// What a [`SessionError`] says.
pub enum SessionErrorView {
    ParseError(Seq<char>),
    InvalidArgument(Seq<char>),
    ConversionError(Seq<char>),
    InternalError(Seq<char>),
}

impl View for SessionError {
    type V = SessionErrorView;

    open spec fn view(&self) -> SessionErrorView {
        match *self {
            SessionError::ParseError(m) => SessionErrorView::ParseError(m@),
            SessionError::InvalidArgument(m) => SessionErrorView::InvalidArgument(m@),
            SessionError::ConversionError(m) => SessionErrorView::ConversionError(m@),
            SessionError::InternalError(m) => SessionErrorView::InternalError(m@),
        }
    }
}

} // verus!
