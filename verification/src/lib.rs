//! Loading and per-frame core of a small camera demo.
//!
//! A load is described as a tree of deferred steps ([`task`]), built from
//! tagged descriptors ([`loader`]) and run once against the shared
//! [`world::World`]. The scene that comes out of it ([`scene`]) is then driven
//! frame by frame: update, draw, interact, and a check whether it is finished.
//!
//! Coordinates are whole grid units. Reading files, decoding payloads, taking
//! locks and talking to the graphics backend are left to the caller.

pub mod error;
pub mod input;
pub mod world;
pub mod scene;
pub mod task;
pub mod loader;
