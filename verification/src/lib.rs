//! The drawing core of a retained-mode GUI toolkit.
//!
//! Widgets draw by calling the [`draw::DrawPipe`] of their window. The draw
//! pipe hands each call to one of three pipelines, which cut the shape into
//! triangles and queue them for the render pass of a clip region. At the end
//! of a frame the draw pipe lays out the render passes, one per clip region,
//! and empties the queues; a graphics back end records what it laid out.
//!
//! All geometry is computed in integers: scalars are fixed-point numbers
//! (see [`fixed`]), and quotients are kept as pairs of dividend and divisor
//! (see [`vertex::Ratio2`]), so that every result is exact and stated in the
//! contract of the function that computes it.
//!
//! Beside the drawing core stand the small parts of the toolkit that widgets
//! and windows share: responses to events ([`event`]), a few widgets
//! ([`control`], [`widget`]) and the timed callbacks of a window ([`timer`]).

use vstd::prelude::*;

pub mod colour;
pub mod control;
pub mod draw;
pub mod event;
pub mod fixed;
pub mod geom;
pub mod timer;
pub mod vertex;
pub mod widget;

verus! {

/// Error type returned by toolkit proxy functions.
///
/// This error occurs only if the toolkit already terminated.
#[derive(Clone, Copy, Debug, PartialEq, Eq, Structural)]
pub struct ClosedError;

} // verus!
