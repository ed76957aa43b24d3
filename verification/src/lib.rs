//! Decoding of tagged-tree documents into typed records.
//!
//! A caller obtains a document node (a compound: ordered string-keyed fields)
//! from a document parser and hands it to one of the record decoders here,
//! together with an identifier string when the record kind is chosen at
//! run time. Decoding either yields a fully built record or a typed failure
//! naming the offending field; it never partially constructs a record.

pub mod block_entities;
pub mod chunk;
pub mod components;
pub mod error;
pub mod kv;
pub mod nbt;
pub mod rarity;
pub mod traits;
pub mod util;
pub mod uuid;
