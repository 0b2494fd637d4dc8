//! The client's side: one peer, the server.

pub mod event_client_core;
pub mod event_queue_connector;
pub mod event_queues;
pub mod refresh;
pub mod report;
pub mod server_response;
