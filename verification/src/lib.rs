//! Geometry planning and render-state bookkeeping for a small 2D shape viewer.
//!
//! The viewer draws one primitive (triangle, square or circle) over an optional
//! axis or grid overlay. This crate holds the part of it that can be reasoned
//! about exactly: which vertices make up the two triangle lists, in which order
//! they are emitted, how many there are, what the uniform blocks hold, and how
//! the render state reacts to resize and redraw requests.
//!
//! Every length is an exact number of thousandths of the viewport's
//! half-extent, whole or fractional, and an aspect ratio is a fraction in
//! lowest terms. Only the angles of circle points are carried as they are
//! named, a step out of so many around the full turn: a host evaluates them,
//! and turns the exact values into the floats of its graphics device.
//!
//! - [`units`]: lengths, points, colours and offsets.
//! - [`aspect`]: surface sizes and the aspect ratio derived from them.
//! - [`shape`]: the configuration and the outline of the shape.
//! - [`axis`]: the overlay of grid lines, axes and tick dots.
//! - [`layout`]: vertex buffer layouts and uniform blocks.
//! - [`state`]: the render state and its reactions to window events.

pub mod units;
pub mod aspect;
pub mod shape;
pub mod axis;
pub mod layout;
pub mod state;
