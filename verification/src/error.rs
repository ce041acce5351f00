//! The ways in which a call to the remote service can fail.

use vstd::prelude::*;
use vstd::string::StringExecFns;

verus! {

/// How the remote service turned a request down.
#[derive(Clone, Copy, Debug, PartialEq, Eq, Structural)]
pub enum RejectionKind {
    /// Status 400.
    BadRequest,
    /// Status 401.
    Unauthorized,
    /// Status 403.
    Forbidden,
    /// Status 500.
    InternalServerError,
    /// Status 503.
    ServiceUnavailable,
    /// Any other status that is not a success.
    Unexpected,
}

/// Why a text could not be read as the value that was expected.
#[derive(Clone, Copy, Debug, PartialEq, Eq, Structural)]
pub enum DecodeFailure {
    /// The text is not JSON.
    MalformedJson,
    /// The text is JSON of another shape than the one expected.
    SchemaMismatch,
}

/// A failed call. Every failure ends the call that met it.
#[derive(Clone, Debug, PartialEq, Eq)]
pub enum ClientError {
    /// The request could not be sent, or no response came back. The text is
    /// the transport's own.
    Transport(String),
    /// The service answered with a status that is not a success.
    Rejection { kind: RejectionKind, message: String },
    /// A text did not hold the value that was expected.
    Decode(DecodeFailure),
}

/// The mathematical model of a [`ClientError`].
pub enum ClientErrorView {
    Transport(Seq<char>),
    Rejection { kind: RejectionKind, message: Seq<char> },
    Decode(DecodeFailure),
}

impl View for ClientError {
    type V = ClientErrorView;

    open spec fn view(&self) -> ClientErrorView {
        match *self {
            ClientError::Transport(text) => ClientErrorView::Transport(text@),
            ClientError::Rejection { kind, message } => ClientErrorView::Rejection {
                kind,
                message: message@,
            },
            ClientError::Decode(failure) => ClientErrorView::Decode(failure),
        }
    }
}

/// The message that stands for a failure.
pub open spec fn failure_message(failure: ClientErrorView) -> Seq<char> {
    match failure {
        ClientErrorView::Transport(text) => text,
        ClientErrorView::Rejection { kind, message } => message,
        ClientErrorView::Decode(DecodeFailure::MalformedJson) => "malformed JSON"@,
        ClientErrorView::Decode(DecodeFailure::SchemaMismatch) => "JSON of an unexpected shape"@,
    }
}

/// The model of a result: the model of what was found, or of the failure.
pub open spec fn result_view<T: View>(result: Result<T, ClientError>) -> Result<
    T::V,
    ClientErrorView,
> {
    match result {
        Ok(found) => Ok(found@),
        Err(failure) => Err(failure@),
    }
}

impl ClientError {
    /// The message that stands for this failure: the transport's text, the
    /// message of the rejection, or a fixed text for each decode failure.
    pub fn message(&self) -> (text: String)
        ensures
            text@ == failure_message(self@),
    {
        match self {
            ClientError::Transport(text) => text.clone(),
            ClientError::Rejection { kind, message } => message.clone(),
            ClientError::Decode(DecodeFailure::MalformedJson) => String::from_str("malformed JSON"),
            ClientError::Decode(DecodeFailure::SchemaMismatch) => String::from_str(
                "JSON of an unexpected shape",
            ),
        }
    }
}

} // verus!
