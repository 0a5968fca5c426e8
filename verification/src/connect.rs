//! The rendezvous protocol: addresses, wire messages, and the decision
//! logic of the server's listener and the client's collector.

pub mod addrs;
pub mod client;
pub mod message;
pub mod registry;
pub mod rendezvous;
pub mod server;
pub mod setup;
pub mod shutdown;
pub mod wire;

pub use client::{Client, ServerList};
pub use message::ServerInfo;
pub use server::Server;
