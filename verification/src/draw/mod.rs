//! The drawing pipeline.
//!
//! Drawing calls queue vertices, pass by pass, in one of three pipelines.
//! Rendering empties the queues into a [`Frame`]: the list of render passes
//! that the graphics back end records, one per clip region.

use vstd::prelude::*;
use crate::fixed::{px, UNIT};
use crate::geom::{Rect, Size};
use crate::vertex::{Ratio2, Vec2};

pub mod custom;
pub mod draw_pipe;
pub mod flat_round;
pub mod passes;
pub mod shaded_round;
pub mod shaded_square;

pub use custom::{CustomPipe, CustomPipeBuilder, DrawCustom, Void};
pub use draw_pipe::DrawPipe;
pub use flat_round::FlatRound;
pub use shaded_round::ShadedRound;
pub use shaded_square::ShadedSquare;

verus! {

/// Handle of a clip region: the number of the render pass that draws it.
#[derive(Clone, Copy, Debug, PartialEq, Eq, Structural)]
pub struct Region(pub usize);

/// The factors by which the vertex stage maps pixel coordinates to the
/// surface: two over the width, two over the height.
pub open spec fn scale_of(size: Size) -> Ratio2 {
    Ratio2 { num: Vec2(131072, 131072), den: Vec2::of_size(size) }
}

/// The factors by which the vertex stage maps pixel coordinates to the
/// surface: two over the width, two over the height.
pub fn scale_for(size: Size) -> (scale: Ratio2)
    ensures
        scale == scale_of(size),
{
    Ratio2 { num: Vec2::splat(2 * UNIT), den: Vec2::from(size) }
}

/// What one pipeline draws in one render pass: its queued vertices, three
/// to a triangle, and the scale factors in force.
#[derive(Debug, PartialEq, Eq)]
pub struct Batch<V> {
    pub scale: Ratio2,
    pub vertices: Vec<V>,
}

/// A batch as a value: the scale factors and the sequence of vertices.
pub struct BatchView<V> {
    pub scale: Ratio2,
    pub vertices: Seq<V>,
}

impl<V> View for Batch<V> {
    type V = BatchView<V>;

    open spec fn view(&self) -> BatchView<V> {
        BatchView { scale: self.scale, vertices: self.vertices@ }
    }
}

/// The batch that a pipeline with the given scale factors and queues hands
/// over for `pass`: none where it has no queue for `pass`.
pub open spec fn batch_of<V>(scale: Ratio2, passes: Seq<Seq<V>>, pass: int) -> Option<BatchView<V>> {
    if 0 <= pass < passes.len() {
        Some(BatchView { scale, vertices: passes[pass] })
    } else {
        None
    }
}

/// The value of a batch that may be missing.
pub open spec fn batch_view<V>(batch: Option<Batch<V>>) -> Option<BatchView<V>> {
    match batch {
        Some(b) => Some(b@),
        None => None,
    }
}

/// The queues `q` after the first `n` passes were rendered: their queues
/// are empty.
pub open spec fn cleared_upto<V>(q: Seq<Seq<V>>, n: int) -> Seq<Seq<V>> {
    Seq::new(q.len(), |i: int| if i < n { Seq::<V>::empty() } else { q[i] })
}

/// Rendering one more pass empties one more queue.
pub proof fn lemma_cleared_upto_step<V>(scale: Ratio2, q: Seq<Seq<V>>, n: int)
    requires
        0 <= n,
    ensures
        cleared_upto(q, 0) == q,
        passes::cleared(cleared_upto(q, n), n) == cleared_upto(q, n + 1),
        batch_of(scale, cleared_upto(q, n), n) == batch_of(scale, q, n),
{
    assert(cleared_upto(q, 0) =~= q);
    assert(passes::cleared(cleared_upto(q, n), n) =~= cleared_upto(q, n + 1));
}

/// Load operation of a render pass: whether the target is cleared before
/// the pass draws, or kept.
#[derive(Clone, Copy, Debug, PartialEq, Eq, Structural)]
pub enum LoadOp {
    Clear,
    Load,
}

/// The load operation of the pass with the given number: only the first
/// pass clears.
pub open spec fn load_op_of(pass: int) -> LoadOp {
    if pass == 0 {
        LoadOp::Clear
    } else {
        LoadOp::Load
    }
}

/// Top-left corner of `rect`.
pub open spec fn corner_aa(rect: Rect) -> Vec2 {
    Vec2::of_coord(rect.pos)
}

/// Bottom-right corner of `rect`.
pub open spec fn corner_bb(rect: Rect) -> Vec2 {
    Vec2::of(px(rect.pos.0 + rect.size.0), px(rect.pos.1 + rect.size.1))
}

/// The horizontal span of a frame's inner rectangle: that of `inner` where
/// it lies within that of `outer`, else the empty span at `outer`'s left
/// edge.
pub open spec fn inner_span_x(outer: Rect, inner: Rect) -> (int, int) {
    if outer.x0() <= inner.x0() && inner.x1() <= outer.x1() {
        (px(inner.x0()), px(inner.x1()))
    } else {
        (px(outer.x0()), px(outer.x0()))
    }
}

/// The vertical span of a frame's inner rectangle: that of `inner` where it
/// lies within that of `outer`, else the empty span at `outer`'s top edge.
pub open spec fn inner_span_y(outer: Rect, inner: Rect) -> (int, int) {
    if outer.y0() <= inner.y0() && inner.y1() <= outer.y1() {
        (px(inner.y0()), px(inner.y1()))
    } else {
        (px(outer.y0()), px(outer.y0()))
    }
}

/// Top-left corner of the inner rectangle of the frame between `outer` and
/// `inner`.
pub open spec fn inner_cc(outer: Rect, inner: Rect) -> Vec2 {
    Vec2::of(inner_span_x(outer, inner).0, inner_span_y(outer, inner).0)
}

/// Bottom-right corner of the inner rectangle of the frame between `outer`
/// and `inner`.
pub open spec fn inner_dd(outer: Rect, inner: Rect) -> Vec2 {
    Vec2::of(inner_span_x(outer, inner).1, inner_span_y(outer, inner).1)
}

/// The corners of the inner rectangle of the frame between `outer` and
/// `inner`. In each dimension in which `inner` does not lie within `outer`,
/// the inner rectangle collapses to `outer`'s top-left corner.
pub fn inner_corners(outer: Rect, inner: Rect) -> (corners: (Vec2, Vec2))
    ensures
        corners.0 == inner_cc(outer, inner),
        corners.1 == inner_dd(outer, inner),
        corner_aa(outer).le_spec(corners.0),
        corners.0.le_spec(corners.1),
        corners.1.le_spec(corner_bb(outer)),
{
    let aa = Vec2::from(outer.pos);
    let bb = aa + Vec2::from(outer.size);
    let cc = Vec2::from(inner.pos);
    let dd = cc + Vec2::from(inner.size);
    let (cx, dx) = if aa.0 <= cc.0 && dd.0 <= bb.0 {
        (cc.0, dd.0)
    } else {
        (aa.0, aa.0)
    };
    let (cy, dy) = if aa.1 <= cc.1 && dd.1 <= bb.1 {
        (cc.1, dd.1)
    } else {
        (aa.1, aa.1)
    };
    (Vec2(cx, cy), Vec2(dx, dy))
}

} // verus!
