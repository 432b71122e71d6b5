//! Application state of a peer-to-peer chat client: the connection life
//! cycle, conversations and their messages, and the registries through which
//! interested parties learn of changes.

pub mod address;
pub mod bridge;
pub mod configuration;
pub mod connection;
pub mod conversation;
pub mod conversation_list;
pub mod laws;
pub mod message;
pub mod network;
pub mod notice;
pub mod registry;
