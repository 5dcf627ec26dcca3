//! Storage and lifecycle of index segments: how a segment's files are addressed, opened,
//! and moved from an in-memory store to a durable one, and the per-segment state that a
//! writer tracks between commits.
pub mod segment_id;
pub mod segment_component;
pub mod segment_meta;
pub mod directory;
pub mod bitset;
pub mod delete_cursor;
pub mod schema;
pub mod index;
pub mod segment;
pub mod segment_entry;
pub mod segment_serializer;
