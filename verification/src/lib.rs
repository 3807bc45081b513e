//! Decisions of a tool that brings every shard of a Qdrant collection down to
//! local Edge Shards.

pub mod cluster;
pub mod download;
pub mod http;
pub mod json;
pub mod shard;
pub mod sync;
pub mod text;
pub mod ui;
pub mod verify;
