//! Secure channels: their state, the headers and messages that travel on
//! them, and the service that opens and renews them.

pub mod chunker;
pub mod message;
pub mod secure_channel;
pub mod secure_channel_service;
pub mod security_header;
pub mod tcp_types;
