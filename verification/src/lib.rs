//! Signaling, connection lifecycle and conformance orchestration for WebRTC
//! data channels.

pub mod args;
pub mod candidate;
pub mod commands;
pub mod connection;
pub mod context;
pub mod demo;
pub mod description;
pub mod host;
pub mod mailbox;
pub mod orchestrate;
pub mod peer;
pub mod signaling;
pub mod text;
pub mod verdict;
