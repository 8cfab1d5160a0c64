//! Persistence of a desktop window's geometry.
//!
//! The position and size of the main window are kept as one record in a
//! key-value store. This crate holds the rules of that persistence: the shape
//! of the record, how a record read back from the store becomes a geometry,
//! what is applied to the window on startup, and what is written when the
//! window is moved or resized. It performs no I/O: the caller owns the window
//! and the store, feeds in what it observed, and carries out what comes back.

pub mod binary64;
pub mod geometry;
pub mod json;
pub mod persistence;
pub mod record;
pub mod store;
