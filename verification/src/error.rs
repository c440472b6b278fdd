//! The ways in which an operation of this crate can fail.

use vstd::prelude::*;

verus! {

/// Why an operation did not give its result.
#[derive(Debug, PartialEq, Eq)]
pub enum LcuError {
    /// No lockfile and no process gave credentials: no client is running.
    DiscoveryNotFound,
    /// No credentials are stored, so there is nothing to contact.
    NotConnected,
    /// The request did not reach the client; the text says why.
    TransportConnectFailed(String),
    /// The client answered with a status outside 200 to 299.
    TransportHttpStatus(u16),
    /// The body of the answer is not a document of the expected shape.
    TransportDecodeFailed,
    /// The stream could not be opened; the text says why.
    StreamHandshakeFailed(String),
    /// The stream was opened, but the subscription could not be sent.
    StreamSubscribeFailed(String),
    /// The stream was told of something that it was not waiting for.
    StreamOutOfTurn,
}

/// Mathematical value of [`LcuError`].
pub enum LcuErrorView {
    DiscoveryNotFound,
    NotConnected,
    TransportConnectFailed(Seq<char>),
    TransportHttpStatus(u16),
    TransportDecodeFailed,
    StreamHandshakeFailed(Seq<char>),
    StreamSubscribeFailed(Seq<char>),
    StreamOutOfTurn,
}

impl View for LcuError {
    type V = LcuErrorView;

    open spec fn view(&self) -> LcuErrorView {
        match self {
            LcuError::DiscoveryNotFound => LcuErrorView::DiscoveryNotFound,
            LcuError::NotConnected => LcuErrorView::NotConnected,
            LcuError::TransportConnectFailed(why) => LcuErrorView::TransportConnectFailed(why@),
            LcuError::TransportHttpStatus(code) => LcuErrorView::TransportHttpStatus(*code),
            LcuError::TransportDecodeFailed => LcuErrorView::TransportDecodeFailed,
            LcuError::StreamHandshakeFailed(why) => LcuErrorView::StreamHandshakeFailed(why@),
            LcuError::StreamSubscribeFailed(why) => LcuErrorView::StreamSubscribeFailed(why@),
            LcuError::StreamOutOfTurn => LcuErrorView::StreamOutOfTurn,
        }
    }
}

} // verus!
