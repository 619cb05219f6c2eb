//! Core of an OPC UA server: the binary codec, secure channel negotiation,
//! the address space and the view and subscription services.

pub mod address_space;
pub mod basic_types;
pub mod byte_string;
pub mod comms;
pub mod continuation_point;
pub mod date_time;
pub mod diagnostic_info;
pub mod encoding;
pub mod guid;
pub mod node_id;
pub mod node_ids;
pub mod server;
pub mod service_types;
pub mod services;
pub mod session;
pub mod session_manager;
pub mod state;
pub mod status_codes;
pub mod string;
pub mod subscriptions;
pub mod variant;
