//! What a caller of the bridge can be told went wrong.

use vstd::prelude::*;
use vstd::string::*;

verus! {

/// A failure of one bridge operation.
#[derive(Debug, PartialEq, Eq)]
pub enum BridgeError {
    /// The request could not be queued: the worker's receiver is gone.
    ChannelUnreachable,
    /// No response came, or one of a shape that the request does not call for.
    /// The text says which.
    ChannelSilence(String),
    /// The worker refused the operation, or an argument was malformed. The
    /// worker goes on serving.
    DomainError(String),
    /// The arrangement could not be built, so there is no handle.
    InitializationFailure(String),
}

/// A `BridgeError` with its texts as sequences of characters.
pub enum BridgeErrorView {
    ChannelUnreachable,
    ChannelSilence(Seq<char>),
    DomainError(Seq<char>),
    InitializationFailure(Seq<char>),
}

impl View for BridgeError {
    type V = BridgeErrorView;

    open spec fn view(&self) -> BridgeErrorView {
        match self {
            BridgeError::ChannelUnreachable => BridgeErrorView::ChannelUnreachable,
            BridgeError::ChannelSilence(text) => BridgeErrorView::ChannelSilence(text@),
            BridgeError::DomainError(text) => BridgeErrorView::DomainError(text@),
            BridgeError::InitializationFailure(text) => BridgeErrorView::InitializationFailure(
                text@,
            ),
        }
    }
}

/// A result of the bridge with its error by its view.
pub open spec fn result_view<T>(result: Result<T, BridgeError>) -> Result<T, BridgeErrorView> {
    match result {
        Ok(value) => Ok(value),
        Err(error) => Err(error@),
    }
}

/// The text for a request that could not be queued.
pub open spec fn unreachable_text() -> Seq<char> {
    "Unable to send request"@
}

impl BridgeError {
    /// The message of this error.
    pub open spec fn reason_spec(&self) -> Seq<char> {
        match self@ {
            BridgeErrorView::ChannelUnreachable => unreachable_text(),
            BridgeErrorView::ChannelSilence(text) => text,
            BridgeErrorView::DomainError(text) => text,
            BridgeErrorView::InitializationFailure(text) => text,
        }
    }

    /// The message of this error, as the caller is to see it.
    pub fn reason(&self) -> (text: String)
        ensures
            text@ == self.reason_spec(),
    {
        match self {
            BridgeError::ChannelUnreachable => String::from_str("Unable to send request"),
            BridgeError::ChannelSilence(text) => text.clone(),
            BridgeError::DomainError(text) => text.clone(),
            BridgeError::InitializationFailure(text) => text.clone(),
        }
    }
}

} // verus!
