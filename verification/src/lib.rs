//! Verified control core of a double-buffered cellular automaton that lives
//! on a graphics device.
//!
//! The crate decides and the frame loop performs. Nothing here touches a
//! window or a device: the loop asks what to upload, what to dispatch and
//! what to draw, gets plain values back, and records them. Each answer comes
//! with a proved contract.
//!
//! - [`clock`] gates the ticks: at most one a frame, none before the time
//!   debt exceeds the threshold.
//! - [`bindings`] names the two cell buffers and the two configurations that
//!   take turns reading one and writing the other.
//! - [`stages`] holds the dispatch of the transition stage and the draw of
//!   the render stage, and proves that a tick's dispatch updates every cell
//!   exactly once.
//! - [`grid`] is the per-frame controller: update, then draw.
//! - [`rule`], [`cells`], [`seed`] and [`bytes`] are the field itself: the
//!   transition rule on a torus, the stored words, the random seed and the
//!   bytes that are uploaded.
//! - [`buffers`] and [`host`] run the grid without a device, to show and to
//!   prove what the device has to show after any number of frames.
//! - [`mesh`] is the quad, [`presentation`] the policy of the loop around
//!   the surface, [`error`] the refusals of construction.

pub mod bindings;
pub mod buffers;
pub mod bytes;
pub mod cells;
pub mod clock;
pub mod error;
pub mod grid;
pub mod host;
pub mod mesh;
pub mod presentation;
pub mod rule;
pub mod seed;
pub mod stages;
