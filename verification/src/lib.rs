//! Reconnect-aware event synchronization for a client/server message channel.
//!
//! A session delivers connection reports, messages and replies to requests.
//! This crate stamps every such event with a counter, decides from two
//! per-peer markers whether it may be shown to the application yet, still, or
//! not at all, and keeps the per-kind queues that readers consume.

pub mod counter;
pub mod epoch_gate;
pub mod event;
pub mod event_registry;
pub mod request_table;
pub mod slot;
pub mod client;
pub mod server;

pub use crate::client::event_client_core::ClientOutcome;
pub use crate::client::event_client_core::EventClientCore;
pub use crate::client::event_queue_connector::EventQueueConnectorClient;
pub use crate::client::event_queues::ClientConnectionQueue;
pub use crate::client::event_queues::ClientMessageQueue;
pub use crate::client::event_queues::ClientResponseQueue;
pub use crate::client::refresh::drain_client;
pub use crate::client::report::ClientEvent;
pub use crate::client::report::ClientReport;
pub use crate::client::server_response::PendingResponseData;
pub use crate::client::server_response::ServerResponse;
pub use crate::counter::is_newer_or_eq;
pub use crate::epoch_gate::EpochGate;
pub use crate::epoch_gate::SendError;
pub use crate::epoch_gate::Visibility;
pub use crate::event::CloseFrame;
pub use crate::event::InternalEvent;
pub use crate::event_registry::EventRegistry;
pub use crate::request_table::RequestTable;
pub use crate::server::event_queue_connector::EventQueueConnectorServer;
pub use crate::server::event_queues::ServerConnectionQueue;
pub use crate::server::event_queues::ServerMessageQueue;
pub use crate::server::event_queues::ServerRequestQueue;
pub use crate::server::event_server_core::EventServerCore;
pub use crate::server::event_server_core::ServerOutcome;
pub use crate::server::refresh::drain_server;
pub use crate::server::report::EnvType;
pub use crate::server::report::ServerEvent;
pub use crate::server::report::ServerReport;
