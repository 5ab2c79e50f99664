//! A safe, verified protocol layer around the native VMAF video-quality engine.
//!
//! The native engine speaks in integer status codes and raw buffer handles.
//! This crate models those handles as plain values and proves that its own
//! decisions keep the engine's protocol: every status code is interpreted in
//! one place, frame pairs are checked before they reach the engine, each
//! native buffer is released exactly once, and scores can only be read after
//! the ingestion phase has been flushed.

/// Native status codes and the errors they stand for.
pub mod error;

/// Zero-terminated byte strings for the native loaders.
pub mod cstr;

/// Frame buffers, their ownership state, and filling them from decoded frames.
pub mod picture;

/// Scoring models and their loading options.
pub mod model;

/// Pooling methods and the errors of scoring with a model.
pub mod scoring;

/// The two-phase scoring session and the driver of a whole scoring run.
pub mod vmaf;

/// Target sizes and frame counts of decoded video.
pub mod video;
