//! The messages of the services and the records they are built from.

pub mod discovery_messages;
pub mod double;
pub mod message_info;
pub mod modify_subscription_request;
pub mod monitored_item_messages;
pub mod notification_message;
pub mod publish_response;
pub mod query_next_request;
pub mod relative_path;
pub mod request_header;
pub mod response_header;
pub mod secure_channel_messages;
pub mod session_messages;
pub mod translate_browse_paths_to_node_ids_request;
pub mod view_messages;
