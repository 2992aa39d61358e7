//! What can go wrong.

use vstd::prelude::*;

use crate::fault::Fault;
use crate::interest::MessageKind;

verus! {

/// Why a text from the server is not a message.
#[derive(Debug)]
pub enum ParseError {
    /// The text is not JSON
    Syntax(serde_json::Error),
    /// A value in the text is not of the shape of a message
    Schema {
        /// The kind of message that the value says it is, where it does
        kind: Option<MessageKind>,
        /// What is wrong with the value
        fault: Fault,
    },
}

/// Errors of the WebSocket layer.
#[derive(Debug)]
pub enum WsError {
    /// The connection could not be opened or broke; with the transport's account of it
    Connection(String),
    /// A text from the server is not a message
    MessageParse(ParseError),
    /// The connection is closed
    ConnectionClosed,
    /// An error was received in place of a message; with its text
    InvalidMessage(String),
    /// A subscription was too slow and missed messages
    Lagged {
        /// How many messages were missed
        count: u64,
    },
}

/// Errors of the client.
#[derive(Debug)]
pub enum ClientError {
    /// A call that the client cannot serve in its state; with the reason
    Validation(String),
    /// An error of the WebSocket layer
    WebSocket(WsError),
}

} // verus!
