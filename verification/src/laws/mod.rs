//! What the library promises, stated apart from how it is defined.

pub mod client;
pub mod connection;
pub mod decimal;
pub mod decode;
pub mod fault;
pub mod parse;
pub mod requests;
pub mod streams;
pub mod subscription;
pub mod text;
pub mod views;
