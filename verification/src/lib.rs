//! Verified core of a dual-backend 3D renderer abstraction layer.
//!
//! The crate models the triangle-batching and flush protocol that moves
//! vertex data from worker threads to the thread allowed to issue draw
//! calls: fixed-capacity accumulation batches, the flush decision and the
//! data it hands to a draw call, the coordinator tally for multi-threaded
//! rendering, the per-frame vertex-buffer pools of the explicit backend,
//! uniform-buffer byte staging, and the reflection-file parser that feeds
//! the resource tables.
//!
//! Vertex components and other floating-point payloads are carried as
//! `u32` bit patterns: the logic proved here moves and indexes the data
//! and never computes with the numeric values themselves.

pub mod barriers;
pub mod batch;
pub mod bytesutil;
pub mod deviceselect;
pub mod embedded;
pub mod flush;
pub mod frame;
pub mod harness;
pub mod hexdump;
pub mod image;
pub mod layout;
pub mod pools;
pub mod reflect;
pub mod resources;
pub mod shadertext;
pub mod uniforms;
pub mod version;
