//! Chunk-scoped records: scheduled world updates.

pub mod tile_tick;
