//! The failures the client reports.

use crate::text::{decimal, decimal_text};
use vstd::prelude::*;
use vstd::string::*;

verus! {

/// The four classes every failure falls into.
#[derive(Clone, Copy, Debug, PartialEq, Eq, Structural)]
pub enum ErrorKind {
    /// The connection or the TLS session failed.
    Transport,
    /// The server answered, but not as the protocol requires.
    Protocol,
    /// A body is not JSON, or not JSON of the expected shape.
    Decode,
    /// The request could not be signed.
    Signing,
}

/// One failure, with what is known about it.
#[derive(Debug, PartialEq, Eq)]
pub enum AcmeError {
    /// The transport reported a failure.
    Transport { detail: String },
    /// The response status is outside 200 to 299.
    Status { code: u16 },
    /// The response lacks a header that the protocol requires.
    MissingHeader { name: String },
    /// The body is not a JSON document.
    NotJson,
    /// The document lacks a required member.
    MissingField { name: String },
    /// A member of the document does not hold what it must.
    InvalidField { name: String },
    /// The signer reported a failure.
    Signing { detail: String },
}

/// Mathematical model of an `AcmeError`.
pub enum AcmeErrorView {
    Transport { detail: Seq<char> },
    Status { code: u16 },
    MissingHeader { name: Seq<char> },
    NotJson,
    MissingField { name: Seq<char> },
    InvalidField { name: Seq<char> },
    Signing { detail: Seq<char> },
}

impl View for AcmeError {
    type V = AcmeErrorView;

    open spec fn view(&self) -> AcmeErrorView {
        match self {
            AcmeError::Transport { detail } => AcmeErrorView::Transport { detail: detail@ },
            AcmeError::Status { code } => AcmeErrorView::Status { code: *code },
            AcmeError::MissingHeader { name } => AcmeErrorView::MissingHeader { name: name@ },
            AcmeError::NotJson => AcmeErrorView::NotJson,
            AcmeError::MissingField { name } => AcmeErrorView::MissingField { name: name@ },
            AcmeError::InvalidField { name } => AcmeErrorView::InvalidField { name: name@ },
            AcmeError::Signing { detail } => AcmeErrorView::Signing { detail: detail@ },
        }
    }
}

impl Clone for AcmeError {
    fn clone(&self) -> (r: Self)
        ensures
            r@ == self@,
    {
        match self {
            AcmeError::Transport { detail } => AcmeError::Transport { detail: detail.clone() },
            AcmeError::Status { code } => AcmeError::Status { code: *code },
            AcmeError::MissingHeader { name } => AcmeError::MissingHeader { name: name.clone() },
            AcmeError::NotJson => AcmeError::NotJson,
            AcmeError::MissingField { name } => AcmeError::MissingField { name: name.clone() },
            AcmeError::InvalidField { name } => AcmeError::InvalidField { name: name.clone() },
            AcmeError::Signing { detail } => AcmeError::Signing { detail: detail.clone() },
        }
    }
}

impl AcmeErrorView {
    /// The class a failure belongs to.
    pub open spec fn kind(self) -> ErrorKind {
        match self {
            AcmeErrorView::Transport { .. } => ErrorKind::Transport,
            AcmeErrorView::Status { .. } => ErrorKind::Protocol,
            AcmeErrorView::MissingHeader { .. } => ErrorKind::Protocol,
            AcmeErrorView::NotJson => ErrorKind::Decode,
            AcmeErrorView::MissingField { .. } => ErrorKind::Decode,
            AcmeErrorView::InvalidField { .. } => ErrorKind::Decode,
            AcmeErrorView::Signing { .. } => ErrorKind::Signing,
        }
    }

    /// The one-line description of a failure.
    pub open spec fn message(self) -> Seq<char> {
        match self {
            AcmeErrorView::Transport { detail } => "transport failure: "@ + detail,
            AcmeErrorView::Status { code } => "unexpected status: "@ + decimal(code as nat),
            AcmeErrorView::MissingHeader { name } => "missing header: "@ + name,
            AcmeErrorView::NotJson => "body is not JSON"@,
            AcmeErrorView::MissingField { name } => "missing field: "@ + name,
            AcmeErrorView::InvalidField { name } => "invalid field: "@ + name,
            AcmeErrorView::Signing { detail } => "signing failure: "@ + detail,
        }
    }
}

impl AcmeError {
    /// The class this failure belongs to.
    pub fn kind(&self) -> (r: ErrorKind)
        ensures
            r == self@.kind(),
    {
        match self {
            AcmeError::Transport { .. } => ErrorKind::Transport,
            AcmeError::Status { .. } => ErrorKind::Protocol,
            AcmeError::MissingHeader { .. } => ErrorKind::Protocol,
            AcmeError::NotJson => ErrorKind::Decode,
            AcmeError::MissingField { .. } => ErrorKind::Decode,
            AcmeError::InvalidField { .. } => ErrorKind::Decode,
            AcmeError::Signing { .. } => ErrorKind::Signing,
        }
    }

    /// Describes this failure in one line.
    pub fn message(&self) -> (r: String)
        ensures
            r@ == self@.message(),
    {
        match self {
            AcmeError::Transport { detail } => String::from_str("transport failure: ").concat(
                detail.as_str(),
            ),
            AcmeError::Status { code } => {
                let digits = decimal_text(*code);
                String::from_str("unexpected status: ").concat(digits.as_str())
            },
            AcmeError::MissingHeader { name } => String::from_str("missing header: ").concat(
                name.as_str(),
            ),
            AcmeError::NotJson => String::from_str("body is not JSON"),
            AcmeError::MissingField { name } => String::from_str("missing field: ").concat(
                name.as_str(),
            ),
            AcmeError::InvalidField { name } => String::from_str("invalid field: ").concat(
                name.as_str(),
            ),
            AcmeError::Signing { detail } => String::from_str("signing failure: ").concat(
                detail.as_str(),
            ),
        }
    }
}

} // verus!
