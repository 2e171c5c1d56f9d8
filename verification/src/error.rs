//! The ways in which a request can fail.

use vstd::prelude::*;

verus! {

/// What a decoder was looking for when it gave up.
#[derive(Clone, Copy, Debug, PartialEq, Eq, Structural)]
pub enum ExpectedKind {
    Decimal,
    Timestamp,
    Integer,
    Text,
    Flag,
    List,
    Record,
    /// The code and message that a failed call carries.
    ErrorPayload,
    /// The record that every answer is wrapped in.
    Envelope,
}

/// What a decoder found instead.
#[derive(Clone, Copy, Debug, PartialEq, Eq, Structural)]
pub enum ObservedKind {
    Null,
    Flag,
    Integer,
    Text,
    List,
    Record,
    /// A record lacks the field.
    Missing,
}

/// Every failure of the client, told apart by kind so that callers can
/// branch on it. No variant carries a credential.
#[derive(Clone, Debug, PartialEq, Eq)]
pub enum ClientError {
    /// The credentials are missing or unusable for a private call.
    Configuration,
    /// A signature is required and cannot be made.
    Authentication,
    /// No address can be built from the path.
    InvalidPath,
    /// The transport could not complete the exchange; the cause is as the
    /// transport gave it.
    Transport { cause: String },
    /// The exchange answered with a failure of its own.
    Exchange { code: i64, message: String },
    /// The answer does not have the shape that was asked for.
    Decode { expected: ExpectedKind, observed: ObservedKind },
}

/// A `ClientError` as plain data.
pub enum ClientErrorView {
    Configuration,
    Authentication,
    InvalidPath,
    Transport { cause: Seq<char> },
    Exchange { code: i64, message: Seq<char> },
    Decode { expected: ExpectedKind, observed: ObservedKind },
}

impl View for ClientError {
    type V = ClientErrorView;

    open spec fn view(&self) -> ClientErrorView {
        match *self {
            ClientError::Configuration => ClientErrorView::Configuration,
            ClientError::Authentication => ClientErrorView::Authentication,
            ClientError::InvalidPath => ClientErrorView::InvalidPath,
            ClientError::Transport { cause } => ClientErrorView::Transport { cause: cause@ },
            ClientError::Exchange { code, message } => ClientErrorView::Exchange {
                code,
                message: message@,
            },
            ClientError::Decode { expected, observed } => ClientErrorView::Decode {
                expected,
                observed,
            },
        }
    }
}

/// An answer that does not have the shape asked for: what was looked for,
/// and what was found.
#[derive(Clone, Copy, Debug, PartialEq, Eq, Structural)]
pub struct Mismatch {
    pub expected: ExpectedKind,
    pub observed: ObservedKind,
}

impl ClientError {
    /// A short name of the kind, for logs and messages.
    pub fn kind_name(&self) -> (name: &'static str)
        ensures
            name@ == match *self {
                ClientError::Configuration => "configuration"@,
                ClientError::Authentication => "authentication"@,
                ClientError::InvalidPath => "invalid path"@,
                ClientError::Transport { .. } => "transport"@,
                ClientError::Exchange { .. } => "exchange"@,
                ClientError::Decode { .. } => "decode"@,
            },
    {
        match self {
            ClientError::Configuration => "configuration",
            ClientError::Authentication => "authentication",
            ClientError::InvalidPath => "invalid path",
            ClientError::Transport { .. } => "transport",
            ClientError::Exchange { .. } => "exchange",
            ClientError::Decode { .. } => "decode",
        }
    }
}

} // verus!
