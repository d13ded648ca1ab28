//! Decoding of serialized block programs into typed, linked nodes.
//!
//! A project stores each block as a loosely typed record keyed by an
//! identifier. This crate turns one such record into a [`blocks::BlockType`]:
//! it extracts the record's fields ([`raw`]), resolves every slot cell to a
//! [`value::Value`], and dispatches on the opcode ([`dispatch`]).
//!
//! Every function states what it computes over mathematical models: a text is
//! its sequence of characters, a raw value is a [`json::JsonView`], and a node
//! is a [`blocks::NodeView`].
pub mod block_defs;
pub mod block_names;
pub mod blocks;
pub mod dispatch;
pub mod error;
pub mod json;
pub mod raw;
pub mod text;
pub mod value;
