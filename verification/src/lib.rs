//! Peer discovery and connection rules of a peer-to-peer chat node.
//!
//! A node has a 256-bit name. It announces itself, hears the announcements of others, and keeps a
//! connection to the nearest client below it and to the nearest one above it, where near is
//! measured by the exclusive or of the names. Each part of a node is a function from what it is
//! at and what happens to what it is at then and what is to be done; sockets, tasks and locks stay
//! with the caller.

pub mod announce;
pub mod client;
pub mod connections;
pub mod crypto;
pub mod decimal;
pub mod hex;
pub mod link;
pub mod messages;
pub mod neighbours;
pub mod network;
pub mod server;
pub mod word;
