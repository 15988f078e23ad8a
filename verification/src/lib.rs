//! Composable audio-scene model and multi-lane playback engine.
//!
//! A scene is a tree of named "threads" (parallel playback lanes) holding
//! tracks and nested sub-compositions.  Rendering flattens the tree into a
//! flat [`stream::Stream`] of independently advancing, independently looping
//! lanes; the [`player::Player`] state machine drives playback, hot-swap and
//! volume mixing.  Audio decoding and device output are reached only through
//! the [`source::Source`] capability, which the surrounding application
//! implements; everything in this crate is plain, verified state logic.

pub mod audio;
pub mod player;
pub mod sink;
pub mod source;
pub mod storage;
pub mod stream;
pub mod tag;
pub mod text;
pub mod threadstream;
pub mod trackstream;
pub mod volume;
pub mod widgets;
