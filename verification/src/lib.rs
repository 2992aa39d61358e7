//! Verified core of a WebSocket client for Polymarket's real-time data.
//!
//! The library decides; it performs no I/O. It reads the texts that the server
//! sends, keeps track of connections, heartbeats and subscriptions, and says
//! what is to be sent, handed to subscribers or tried again.
//!
//! - [`client`]: the client, its channels and endpoints
//! - [`subscription`], [`streams`]: subscriptions, and what subscribers get
//! - [`connection`], [`heartbeat`], [`config`]: the life of a connection
//! - [`parse`], [`decode`], [`messages`], [`interest`]: messages, and how they
//!   are read
//! - [`auth`], [`error`], [`fault`], [`text`]: credentials, errors and texts
//! - [`json`], [`decimal`], [`collections`]: what is taken from `serde_json`,
//!   `rust_decimal` and `dashmap`
//! - [`laws`]: what the library promises of all of these

pub mod auth;
pub mod client;
pub mod collections;
pub mod config;
pub mod connection;
pub mod decimal;
pub mod decode;
pub mod error;
pub mod fault;
pub mod heartbeat;
pub mod interest;
pub mod json;
pub mod laws;
pub mod messages;
pub mod parse;
pub mod streams;
pub mod subscription;
pub mod text;

pub use client::WebSocketClient;
pub use config::{ReconnectConfig, WebSocketConfig};
pub use error::WsError;
pub use messages::{
    AuthPayload, BookUpdate, LastTradePrice, MakerOrder, OrderMessage, OrderStatus, PriceChange,
    SubscriptionRequest, TickSizeChange, TradeMessage, WsMessage,
};
