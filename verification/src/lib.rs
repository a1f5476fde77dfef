//! Navigation and selection core of a terminal dashboard for smart lighting.
//!
//! The library tracks which tab and drill-down view is active, keeps one
//! selection cursor per list level, resolves the current selection against a
//! read-only inventory snapshot, and turns a confirmed selection into a
//! device command intent. All device I/O, rendering and key decoding live
//! outside the library; it consumes plain values and returns plain values.

pub mod app;
pub mod config;
pub mod cursor;
pub mod handler;
pub mod order;
pub mod resolve;
pub mod snapshot;
pub mod ui;
