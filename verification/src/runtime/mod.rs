//! The runtime: event routing, requests and shutdown.

pub mod app_server;
pub mod attachments;
pub mod events;
pub mod live_queue;
pub mod mailbox;
pub mod mailbox_laws;
pub mod owner_laws;
pub mod request_laws;
pub mod route_laws;
pub mod route_lemmas;
pub mod route_life;
pub mod route_model;
pub mod routes;
pub mod shutdown;
pub mod start;
pub mod stream_laws;
