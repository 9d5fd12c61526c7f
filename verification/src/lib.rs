//! Tools for reading a sharded, cursor-based event stream: payload decoding,
//! record formatting, and the decisions of the per-shard polling workers and
//! of the consumer that fans out over the shards.

pub mod commands;
pub mod consumer;
pub mod fleet;
pub mod format;
pub mod listing;
pub mod payload;
pub mod record;
pub mod text;
pub mod worker;
