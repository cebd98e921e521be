//! The decision core of a small Linux container engine: where images,
//! extracted images and containers live on disk, how a build script is read
//! and turned into a chain of intermediate containers, which steps isolate a
//! container and in what order, and how the outcome of each piece of outside
//! work maps to a result.
//!
//! The library touches neither the filesystem nor the kernel. Its callers
//! perform that work and report what they observed as plain values.

pub mod text;
pub mod image;
pub mod config;
pub mod container;
pub mod runtime;
pub mod names;
pub mod builder;
