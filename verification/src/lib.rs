//! Persisting and restoring a window's on-screen geometry across runs.
//!
//! A [`settings::WindowSettings`] value snapshots a window's inner position
//! (physical pixels) and inner size (logical units). It can be encoded to
//! bytes for storage, decoded back, and applied to a window configuration
//! under construction, validating a stored position against the displays
//! that are currently attached.

pub mod codec;
pub mod geometry;
pub mod settings;
