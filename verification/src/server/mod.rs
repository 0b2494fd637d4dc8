//! The server's side: many peers, one per client.

pub mod event_queue_connector;
pub mod event_queues;
pub mod event_server_core;
pub mod refresh;
pub mod report;
