//! The errors of the library, from pre-flight configuration to task joins.

use vstd::prelude::*;

verus! {

#[verifier::external_type_specification]
#[verifier::external_body]
pub struct ExJsonError(serde_json::Error);

#[verifier::external_type_specification]
#[verifier::external_body]
pub struct ExSocketError(tokio_tungstenite::tungstenite::Error);

#[verifier::external_type_specification]
#[verifier::external_body]
pub struct ExJoinError(tokio::task::JoinError);

/// Every failure the library reports.
#[derive(Debug)]
pub enum ExStreamError {
    /// A connection was asked for with no channel to subscribe to.
    EmptySubscriptionList,
    /// A channel that needs a session token was asked for without one.
    MissingAuth,
    /// A frame of a kind the venues do not send (binary, raw), described.
    UnsupportedMessage(String),
    /// A text frame that is not JSON, with the text as it came.
    ParseError { error: serde_json::Error, raw_content: String },
    /// The socket failed.
    TungsteniteError(Box<tokio_tungstenite::tungstenite::Error>),
    /// A task of the connection failed while it was joined.
    TaskError(tokio::task::JoinError),
    /// A command was pushed after the writer task had exited.
    StreamClosed,
    /// The connection's tasks were already joined by an earlier shutdown.
    AlreadyShutDown,
}

} // verus!
