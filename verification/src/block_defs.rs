//! The node types, one file per palette of the editor.
pub mod control;
pub mod custom;
pub mod data;
pub mod events;
pub mod look;
pub mod motion;
pub mod operators;
pub mod sensing;
pub mod sound;
