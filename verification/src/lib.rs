//! Core of a live-room message client: a binary envelope codec for the
//! chat-room WebSocket protocol, transparent inflation of compressed command
//! batches, the handshake and heartbeat frames, a reader/heartbeat state
//! machine, and a bounded FIFO delivery queue.

pub mod api;
pub mod batch;
pub mod head;
pub mod info;
pub mod json;
pub mod live;
pub mod passport;
pub mod message;
pub mod payload;
pub mod pump;
pub mod resp;
pub mod cmds;
pub mod share;
pub mod wire;
