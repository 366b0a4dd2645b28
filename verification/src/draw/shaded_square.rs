//! Square pipeline: flat and shaded rectangles and frames
//!
//! A vertex of this pipeline carries a normal: the tilt of the surface toward
//! the light, from which the fragment stage shades it. Flat shapes have the
//! normal zero.

use vstd::prelude::*;
use super::passes::{appended, cleared, queued, Passes, GROWTH};
use super::{
    batch_of, batch_view, cleared_upto, corner_aa, corner_bb, inner_cc, inner_corners, inner_dd,
    scale_for, scale_of, Batch, BatchView,
};
use crate::colour::Colour;
use crate::fixed::UNIT;
use crate::geom::{Rect, Size};
use crate::vertex::{Ratio2, Rgb, Vec2};

verus! {

/// One corner of a triangle.
#[derive(Clone, Copy, Debug, PartialEq, Eq, Structural)]
pub struct Vertex {
    /// Position on the surface
    pub position: Vec2,
    pub colour: Rgb,
    /// Tilt of the surface toward the light
    pub normal: Vec2,
}

/// The direction of the light: a vector of three scalars, fixed when the
/// pipeline is made.
#[derive(Clone, Copy, Debug, PartialEq, Eq, Structural)]
pub struct Light(pub i64, pub i64, pub i64);

/// The pair of tilts as the pipeline uses it: the pair `(0, 0)` where a
/// component lies outside the range from minus one to one.
pub open spec fn tilt_of(norm: Vec2) -> Vec2 {
    if -UNIT <= norm.0 <= UNIT && -UNIT <= norm.1 <= UNIT {
        norm
    } else {
        Vec2(0, 0)
    }
}

/// The pair of tilts as the pipeline uses it: the pair `(0, 0)` where a
/// component lies outside the range from minus one to one.
pub fn tilt_for(norm: Vec2) -> (tilt: Vec2)
    ensures
        tilt == tilt_of(norm),
        -UNIT <= tilt.0 <= UNIT,
        -UNIT <= tilt.1 <= UNIT,
{
    if -UNIT <= norm.0 && norm.0 <= UNIT && -UNIT <= norm.1 && norm.1 <= UNIT {
        norm
    } else {
        Vec2(0, 0)
    }
}

/// The two triangles of the flat rectangle from `aa` to `bb`.
pub open spec fn flat_shape(aa: Vec2, bb: Vec2, col: Rgb) -> Seq<Vertex> {
    let t = Vec2(0, 0);
    let ab = Vertex { position: Vec2(aa.0, bb.1), colour: col, normal: t };
    let ba = Vertex { position: Vec2(bb.0, aa.1), colour: col, normal: t };
    let aa = Vertex { position: aa, colour: col, normal: t };
    let bb = Vertex { position: bb, colour: col, normal: t };
    seq![aa, ba, ab, ab, ba, bb]
}

/// The triangles that `rect` queues: none for a rectangle without interior.
pub open spec fn rect_vertices(rect: Rect, col: Colour) -> Seq<Vertex> {
    if rect.is_empty() {
        Seq::empty()
    } else {
        flat_shape(corner_aa(rect), corner_bb(rect), Rgb::of(col))
    }
}

/// The four triangles of the shaded rectangle from `aa` to `bb`: a fan
/// around the midpoint, one triangle to each side. The corners of a side
/// tilt away from the midpoint by `tilt.0`, the midpoint by `tilt.1`.
pub open spec fn pyramid_shape(aa: Vec2, bb: Vec2, tilt: Vec2, col: Rgb) -> Seq<Vertex> {
    let ab = Vec2(aa.0, bb.1);
    let ba = Vec2(bb.0, aa.1);
    let mid = aa.midpoint_spec(bb);
    let t0 = tilt.0 as int;
    let t1 = tilt.1 as int;
    seq![
        Vertex { position: ba, colour: col, normal: Vec2::of(0, -t0) },
        Vertex { position: mid, colour: col, normal: Vec2::of(0, -t1) },
        Vertex { position: aa, colour: col, normal: Vec2::of(0, -t0) },
        Vertex { position: aa, colour: col, normal: Vec2::of(-t0, 0) },
        Vertex { position: mid, colour: col, normal: Vec2::of(-t1, 0) },
        Vertex { position: ab, colour: col, normal: Vec2::of(-t0, 0) },
        Vertex { position: ab, colour: col, normal: Vec2::of(0, t0) },
        Vertex { position: mid, colour: col, normal: Vec2::of(0, t1) },
        Vertex { position: bb, colour: col, normal: Vec2::of(0, t0) },
        Vertex { position: bb, colour: col, normal: Vec2::of(t0, 0) },
        Vertex { position: mid, colour: col, normal: Vec2::of(t1, 0) },
        Vertex { position: ba, colour: col, normal: Vec2::of(t0, 0) },
    ]
}

/// The triangles that `shaded_rect` queues: none for a rectangle without
/// interior.
pub open spec fn shaded_rect_vertices(rect: Rect, norm: Vec2, col: Colour) -> Seq<Vertex> {
    if rect.is_empty() {
        Seq::empty()
    } else {
        pyramid_shape(corner_aa(rect), corner_bb(rect), tilt_of(norm), Rgb::of(col))
    }
}

/// The eight triangles of the frame between the rectangle from `aa` to `bb`
/// and the rectangle from `cc` to `dd` within it: two to each bar. The
/// outer corners of a bar tilt outward by `tilt.0`, the inner by `tilt.1`.
pub open spec fn bars_shape(aa: Vec2, bb: Vec2, cc: Vec2, dd: Vec2, tilt: Vec2, col: Rgb) -> Seq<
    Vertex,
> {
    let ab = Vec2(aa.0, bb.1);
    let ba = Vec2(bb.0, aa.1);
    let cd = Vec2(cc.0, dd.1);
    let dc = Vec2(dd.0, cc.1);
    let t0 = tilt.0 as int;
    let t1 = tilt.1 as int;
    seq![
        // top bar: ba - dc - cc - aa
        Vertex { position: ba, colour: col, normal: Vec2::of(0, -t0) },
        Vertex { position: dc, colour: col, normal: Vec2::of(0, -t1) },
        Vertex { position: aa, colour: col, normal: Vec2::of(0, -t0) },
        Vertex { position: aa, colour: col, normal: Vec2::of(0, -t0) },
        Vertex { position: dc, colour: col, normal: Vec2::of(0, -t1) },
        Vertex { position: cc, colour: col, normal: Vec2::of(0, -t1) },
        // left bar: aa - cc - cd - ab
        Vertex { position: aa, colour: col, normal: Vec2::of(-t0, 0) },
        Vertex { position: cc, colour: col, normal: Vec2::of(-t1, 0) },
        Vertex { position: ab, colour: col, normal: Vec2::of(-t0, 0) },
        Vertex { position: ab, colour: col, normal: Vec2::of(-t0, 0) },
        Vertex { position: cc, colour: col, normal: Vec2::of(-t1, 0) },
        Vertex { position: cd, colour: col, normal: Vec2::of(-t1, 0) },
        // bottom bar: ab - cd - dd - bb
        Vertex { position: ab, colour: col, normal: Vec2::of(0, t0) },
        Vertex { position: cd, colour: col, normal: Vec2::of(0, t1) },
        Vertex { position: bb, colour: col, normal: Vec2::of(0, t0) },
        Vertex { position: bb, colour: col, normal: Vec2::of(0, t0) },
        Vertex { position: cd, colour: col, normal: Vec2::of(0, t1) },
        Vertex { position: dd, colour: col, normal: Vec2::of(0, t1) },
        // right bar: bb - dd - dc - ba
        Vertex { position: bb, colour: col, normal: Vec2::of(t0, 0) },
        Vertex { position: dd, colour: col, normal: Vec2::of(t1, 0) },
        Vertex { position: ba, colour: col, normal: Vec2::of(t0, 0) },
        Vertex { position: ba, colour: col, normal: Vec2::of(t0, 0) },
        Vertex { position: dd, colour: col, normal: Vec2::of(t1, 0) },
        Vertex { position: dc, colour: col, normal: Vec2::of(t1, 0) },
    ]
}

/// The triangles that `shaded_frame` queues: none for an outer rectangle
/// without interior.
pub open spec fn shaded_frame_vertices(outer: Rect, inner: Rect, norm: Vec2, col: Colour) -> Seq<
    Vertex,
> {
    if outer.is_empty() {
        Seq::empty()
    } else {
        bars_shape(
            corner_aa(outer),
            corner_bb(outer),
            inner_cc(outer, inner),
            inner_dd(outer, inner),
            tilt_of(norm),
            Rgb::of(col),
        )
    }
}

/// What a square pipeline holds: the scale factors of the surface, the
/// light and, pass by pass, the vertices queued.
pub struct ShadedSquareView {
    pub scale: Ratio2,
    pub light: Light,
    pub passes: Seq<Seq<Vertex>>,
}

impl ShadedSquareView {
    /// The pipeline after `verts` were queued for `pass`. Where there is
    /// nothing to queue, the pipeline stays as it is.
    pub open spec fn with(self, pass: int, verts: Seq<Vertex>) -> ShadedSquareView {
        if verts.len() == 0 {
            self
        } else {
            ShadedSquareView {
                scale: self.scale,
                light: self.light,
                passes: appended(self.passes, pass, verts),
            }
        }
    }

    /// The pipeline after a flat rectangle was drawn.
    pub open spec fn rect(self, pass: int, rect: Rect, col: Colour) -> ShadedSquareView {
        self.with(pass, rect_vertices(rect, col))
    }

    /// The pipeline after a shaded rectangle was drawn.
    pub open spec fn shaded_rect(self, pass: int, rect: Rect, norm: Vec2, col: Colour)
        -> ShadedSquareView {
        self.with(pass, shaded_rect_vertices(rect, norm, col))
    }

    /// The pipeline after a flat frame was drawn.
    pub open spec fn frame(self, pass: int, outer: Rect, inner: Rect, col: Colour)
        -> ShadedSquareView {
        self.with(pass, shaded_frame_vertices(outer, inner, Vec2(0, 0), col))
    }

    /// The pipeline after a shaded frame was drawn.
    pub open spec fn shaded_frame(self, pass: int, outer: Rect, inner: Rect, norm: Vec2, col: Colour)
        -> ShadedSquareView {
        self.with(pass, shaded_frame_vertices(outer, inner, norm, col))
    }

    /// The pipeline after the surface took the given size.
    pub open spec fn resize(self, size: Size) -> ShadedSquareView {
        ShadedSquareView { scale: scale_of(size), light: self.light, passes: self.passes }
    }

    /// The pipeline after `pass` was rendered: its queue is empty.
    pub open spec fn render(self, pass: int) -> ShadedSquareView {
        ShadedSquareView {
            scale: self.scale,
            light: self.light,
            passes: cleared(self.passes, pass),
        }
    }

    /// The vertices queued for `pass`.
    pub open spec fn queued(self, pass: int) -> Seq<Vertex> {
        queued(self.passes, pass)
    }

    /// The batch that rendering `pass` hands over: none where the pipeline
    /// has no queue for `pass`.
    pub open spec fn batch(self, pass: int) -> Option<BatchView<Vertex>> {
        batch_of(self.scale, self.passes, pass)
    }

    /// The pipeline after the first `n` passes were rendered.
    pub open spec fn render_upto(self, n: int) -> ShadedSquareView {
        ShadedSquareView { passes: cleared_upto(self.passes, n), ..self }
    }
}

/// A pipeline for rendering rectangles and frames, flat or shaded
pub struct ShadedSquare {
    scale: Ratio2,
    light: Light,
    passes: Passes<Vertex>,
}

impl View for ShadedSquare {
    type V = ShadedSquareView;

    closed spec fn view(&self) -> ShadedSquareView {
        ShadedSquareView { scale: self.scale, light: self.light, passes: self.passes@ }
    }
}

fn push_bars(out: &mut Vec<Vertex>, aa: Vec2, bb: Vec2, cc: Vec2, dd: Vec2, tilt: Vec2, col: Rgb)
    requires
        -UNIT <= tilt.0 <= UNIT,
        -UNIT <= tilt.1 <= UNIT,
    ensures
        final(out)@ == old(out)@ + bars_shape(aa, bb, cc, dd, tilt, col),
{
    let ab = Vec2(aa.0, bb.1);
    let ba = Vec2(bb.0, aa.1);
    let cd = Vec2(cc.0, dd.1);
    let dc = Vec2(dd.0, cc.1);
    let t0 = tilt.0;
    let t1 = tilt.1;
    // top bar: ba - dc - cc - aa
    let o = Vec2(0, -t0);
    let i = Vec2(0, -t1);
    out.push(Vertex { position: ba, colour: col, normal: o });
    out.push(Vertex { position: dc, colour: col, normal: i });
    out.push(Vertex { position: aa, colour: col, normal: o });
    out.push(Vertex { position: aa, colour: col, normal: o });
    out.push(Vertex { position: dc, colour: col, normal: i });
    out.push(Vertex { position: cc, colour: col, normal: i });
    // left bar: aa - cc - cd - ab
    let o = Vec2(-t0, 0);
    let i = Vec2(-t1, 0);
    out.push(Vertex { position: aa, colour: col, normal: o });
    out.push(Vertex { position: cc, colour: col, normal: i });
    out.push(Vertex { position: ab, colour: col, normal: o });
    out.push(Vertex { position: ab, colour: col, normal: o });
    out.push(Vertex { position: cc, colour: col, normal: i });
    out.push(Vertex { position: cd, colour: col, normal: i });
    // bottom bar: ab - cd - dd - bb
    let o = Vec2(0, t0);
    let i = Vec2(0, t1);
    out.push(Vertex { position: ab, colour: col, normal: o });
    out.push(Vertex { position: cd, colour: col, normal: i });
    out.push(Vertex { position: bb, colour: col, normal: o });
    out.push(Vertex { position: bb, colour: col, normal: o });
    out.push(Vertex { position: cd, colour: col, normal: i });
    out.push(Vertex { position: dd, colour: col, normal: i });
    // right bar: bb - dd - dc - ba
    let o = Vec2(t0, 0);
    let i = Vec2(t1, 0);
    out.push(Vertex { position: bb, colour: col, normal: o });
    out.push(Vertex { position: dd, colour: col, normal: i });
    out.push(Vertex { position: ba, colour: col, normal: o });
    out.push(Vertex { position: ba, colour: col, normal: o });
    out.push(Vertex { position: dd, colour: col, normal: i });
    out.push(Vertex { position: dc, colour: col, normal: i });
    assert(out@ =~= old(out)@ + bars_shape(aa, bb, cc, dd, tilt, col));
}

impl ShadedSquare {
    /// Construct, for a surface of the given size and light from the given
    /// direction
    pub fn new(size: Size, light: Light) -> (pipe: Self)
        ensures
            pipe@ == (ShadedSquareView { scale: scale_of(size), light, passes: Seq::empty() }),
    {
        ShadedSquare { scale: scale_for(size), light, passes: Passes::new() }
    }

    /// The direction of the light.
    pub fn light(&self) -> (light: Light)
        ensures
            light == self@.light,
    {
        self.light
    }

    /// Takes note of the new size of the surface. Returns the scale factors
    /// that the vertex stage is to use from now on.
    pub fn resize(&mut self, size: Size) -> (scale: Ratio2)
        ensures
            final(self)@ == old(self)@.resize(size),
            scale == scale_of(size),
    {
        self.scale = scale_for(size);
        self.scale
    }

    /// Hands over the triangles queued for `pass` and clears the queue.
    /// Where no queue exists for `pass`, there is nothing to draw.
    pub fn render(&mut self, pass: usize) -> (batch: Option<Batch<Vertex>>)
        ensures
            final(self)@ == old(self)@.render(pass as int),
            final(self)@.queued(pass as int).len() == 0,
            batch_view(batch) == old(self)@.batch(pass as int),
    {
        match self.passes.take(pass) {
            Some(vertices) => Some(Batch { scale: self.scale, vertices }),
            None => None,
        }
    }

    /// The number of vertices queued for `pass`.
    pub fn count(&self, pass: usize) -> (n: usize)
        ensures
            n == self@.queued(pass as int).len(),
    {
        self.passes.count(pass)
    }

    /// Queues a flat rectangle. A rectangle without interior has nothing
    /// drawn.
    pub fn rect(&mut self, pass: usize, rect: Rect, col: Colour)
        requires
            pass + GROWTH <= usize::MAX,
        ensures
            final(self)@ == old(self)@.rect(pass as int, rect, col),
    {
        let aa = Vec2::from(rect.pos);
        let bb = aa + Vec2::from(rect.size);

        if !aa.lt(bb) {
            // zero size: nothing to draw
            return ;
        }
        let col = Rgb::from(col);
        let t = Vec2::splat(0);
        let ab = Vertex { position: Vec2(aa.0, bb.1), colour: col, normal: t };
        let ba = Vertex { position: Vec2(bb.0, aa.1), colour: col, normal: t };
        let aa = Vertex { position: aa, colour: col, normal: t };
        let bb = Vertex { position: bb, colour: col, normal: t };

        let mut verts: Vec<Vertex> = Vec::with_capacity(6);
        verts.push(aa);
        verts.push(ba);
        verts.push(ab);
        verts.push(ab);
        verts.push(ba);
        verts.push(bb);
        assert(verts@ =~= seq![aa, ba, ab, ab, ba, bb]);
        self.add_vertices(pass, verts.as_slice());
    }

    /// Queues a rectangle shaded as a shallow pyramid. The pair `norm` gives
    /// the tilt at the corners and at the midpoint; where a component lies
    /// outside the range from minus one to one, the rectangle is flat.
    /// A rectangle without interior has nothing drawn.
    pub fn shaded_rect(&mut self, pass: usize, rect: Rect, norm: Vec2, col: Colour)
        requires
            pass + GROWTH <= usize::MAX,
        ensures
            final(self)@ == old(self)@.shaded_rect(pass as int, rect, norm, col),
    {
        let aa = Vec2::from(rect.pos);
        let bb = aa + Vec2::from(rect.size);

        if !aa.lt(bb) {
            // zero size: nothing to draw
            return ;
        }
        let tilt = tilt_for(norm);
        let col = Rgb::from(col);
        let ab = Vec2(aa.0, bb.1);
        let ba = Vec2(bb.0, aa.1);
        let mid = aa.midpoint(bb);
        let t0 = tilt.0;
        let t1 = tilt.1;

        let mut verts: Vec<Vertex> = Vec::with_capacity(12);
        verts.push(Vertex { position: ba, colour: col, normal: Vec2(0, -t0) });
        verts.push(Vertex { position: mid, colour: col, normal: Vec2(0, -t1) });
        verts.push(Vertex { position: aa, colour: col, normal: Vec2(0, -t0) });
        verts.push(Vertex { position: aa, colour: col, normal: Vec2(-t0, 0) });
        verts.push(Vertex { position: mid, colour: col, normal: Vec2(-t1, 0) });
        verts.push(Vertex { position: ab, colour: col, normal: Vec2(-t0, 0) });
        verts.push(Vertex { position: ab, colour: col, normal: Vec2(0, t0) });
        verts.push(Vertex { position: mid, colour: col, normal: Vec2(0, t1) });
        verts.push(Vertex { position: bb, colour: col, normal: Vec2(0, t0) });
        verts.push(Vertex { position: bb, colour: col, normal: Vec2(t0, 0) });
        verts.push(Vertex { position: mid, colour: col, normal: Vec2(t1, 0) });
        verts.push(Vertex { position: ba, colour: col, normal: Vec2(t0, 0) });
        assert(verts@ =~= pyramid_shape(aa, bb, tilt, col));
        self.add_vertices(pass, verts.as_slice());
    }

    /// Queues a flat frame between `outer` and `inner`.
    #[inline]
    pub fn frame(&mut self, pass: usize, outer: Rect, inner: Rect, col: Colour)
        requires
            pass + GROWTH <= usize::MAX,
        ensures
            final(self)@ == old(self)@.frame(pass as int, outer, inner, col),
    {
        let norm = Vec2::splat(0);
        self.shaded_frame(pass, outer, inner, norm, col);
    }

    /// Queues the frame between `outer` and `inner`, shaded as a bevel. The
    /// pair `norm` gives the tilt at the outer and at the inner edge; where
    /// a component lies outside the range from minus one to one, the frame
    /// is flat. In each dimension in which `inner` does not lie within
    /// `outer`, the inner rectangle collapses to `outer`'s top-left corner.
    /// An outer rectangle without interior has nothing drawn.
    pub fn shaded_frame(&mut self, pass: usize, outer: Rect, inner: Rect, norm: Vec2, col: Colour)
        requires
            pass + GROWTH <= usize::MAX,
        ensures
            final(self)@ == old(self)@.shaded_frame(pass as int, outer, inner, norm, col),
    {
        let aa = Vec2::from(outer.pos);
        let bb = aa + Vec2::from(outer.size);

        if !aa.lt(bb) {
            // zero size: nothing to draw
            return ;
        }
        let (cc, dd) = inner_corners(outer, inner);
        let tilt = tilt_for(norm);

        let mut verts: Vec<Vertex> = Vec::with_capacity(24);
        push_bars(&mut verts, aa, bb, cc, dd, tilt, Rgb::from(col));
        assert(verts@ =~= shaded_frame_vertices(outer, inner, norm, col));
        self.add_vertices(pass, verts.as_slice());
    }

    fn add_vertices(&mut self, pass: usize, slice: &[Vertex])
        requires
            pass + GROWTH <= usize::MAX,
        ensures
            final(self)@ == (ShadedSquareView {
                scale: old(self)@.scale,
                light: old(self)@.light,
                passes: appended(old(self)@.passes, pass as int, slice@),
            }),
    {
        self.passes.add_vertices(pass, slice);
    }
}

/// A flat rectangle of no width or no height queues no vertex and leaves
/// the pipeline as it was.
pub proof fn lemma_rect_without_interior(pipe: ShadedSquareView, pass: int, rect: Rect, col: Colour)
    requires
        rect.size.0 == 0 || rect.size.1 == 0,
    ensures
        rect_vertices(rect, col).len() == 0,
        pipe.rect(pass, rect, col) == pipe,
{
}

/// A flat rectangle with an interior queues two triangles, a shaded one
/// four, and a frame eight.
pub proof fn lemma_square_triangle_counts(outer: Rect, inner: Rect, norm: Vec2, col: Colour)
    requires
        outer.size.0 > 0,
        outer.size.1 > 0,
    ensures
        rect_vertices(outer, col).len() == 6,
        shaded_rect_vertices(outer, norm, col).len() == 12,
        shaded_frame_vertices(outer, inner, norm, col).len() == 24,
{
}

/// Once a pass is rendered, nothing is queued for it; the queues of the
/// other passes stay as they were.
pub proof fn lemma_square_render_empties_queue(pipe: ShadedSquareView, pass: int)
    ensures
        pipe.render(pass).queued(pass).len() == 0,
        forall|other: int| other != pass ==> pipe.render(pass).queued(other) == pipe.queued(other),
{
}

} // verus!
