//! Verified core of a small terminal counter application.
//!
//! The library holds the state and geometry logic of the application: a
//! saturating 8-bit counter driven by key presses, a scrollable description
//! pane with a clamped scroll offset, a two-way pane rotation toggle, and a
//! layout composer that partitions the terminal canvas into sub-rectangles
//! by fixed percentage splits. Terminal I/O, event reading, image decoding
//! and the actual drawing live outside the library.

pub mod app;
pub mod counter;
pub mod description;
pub mod geometry;
pub mod image_pane;
pub mod input;
pub mod layout;
