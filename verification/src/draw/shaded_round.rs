//! Round pipeline: shaded discs and frames with rounded corners
//!
//! A vertex of this pipeline carries, beside the numbers of the round edge,
//! a pair of tilts from which the fragment stage shades the surface as a
//! dome or a rounded bevel.

use vstd::prelude::*;
use super::passes::{appended, cleared, queued, Passes, GROWTH};
use super::shaded_square::{tilt_for, tilt_of, Light};
use super::{
    batch_of, batch_view, cleared_upto, corner_aa, corner_bb, inner_cc, inner_corners, inner_dd,
    scale_for, scale_of, Batch, BatchView,
};
use crate::colour::Colour;
use crate::fixed::{div_trunc, OFFSET, UNIT};
use crate::geom::{Rect, Size};
use crate::vertex::{Ratio2, Rgb, Vec2};
use core::ops::Neg;

verus! {

/// One corner of a triangle.
#[derive(Clone, Copy, Debug, PartialEq, Eq, Structural)]
pub struct Vertex {
    /// Position on the surface
    pub position: Vec2,
    pub colour: Rgb,
    /// Direction from the centre of the round edge, each component minus
    /// one, zero or one
    pub direction: Vec2,
    /// Tilt of the surface toward the light at the outer and at the inner
    /// edge
    pub tilt: Vec2,
    /// Width of the softened edge in units of `direction`
    pub aa_offset: Ratio2,
}

/// The width of the softened edge for a corner with the given normal, at
/// the given distance from the centre of the round edge.
pub open spec fn softening(normal: Vec2, distance: Vec2) -> Ratio2 {
    Ratio2 {
        num: Vec2::of(div_trunc(normal.0 * OFFSET, UNIT as int), div_trunc(normal.1 * OFFSET, UNIT as int)),
        den: distance,
    }
}

fn soften(normal: Vec2, distance: Vec2) -> (p: Ratio2)
    requires
        -UNIT <= normal.0 <= UNIT,
        -UNIT <= normal.1 <= UNIT,
    ensures
        p == softening(normal, distance),
{
    Ratio2 { num: Vec2(normal.0 * OFFSET / UNIT, normal.1 * OFFSET / UNIT), den: distance }
}

/// The triangles of a shaded disc inscribed in the rectangle from `aa` to
/// `bb`: a fan of four around the midpoint.
pub open spec fn dome_shape(aa: Vec2, bb: Vec2, tilt: Vec2, col: Rgb) -> Seq<Vertex> {
    let ab = Vec2(aa.0, bb.1);
    let ba = Vec2(bb.0, aa.1);
    let mid = aa.midpoint_spec(bb);
    let n0 = Vec2(0, 0);
    let nb = Vec2::of(bb.0 - aa.0, bb.1 - aa.1).sign_spec();
    let na = Vec2::of(-nb.0, -nb.1);
    let nab = Vec2(na.0, nb.1);
    let nba = Vec2(nb.0, na.1);
    let p = softening(nb, Vec2::of(bb.0 - mid.0, bb.1 - mid.1));
    let aa = Vertex { position: aa, colour: col, tilt, direction: na, aa_offset: p };
    let ab = Vertex { position: ab, colour: col, tilt, direction: nab, aa_offset: p };
    let ba = Vertex { position: ba, colour: col, tilt, direction: nba, aa_offset: p };
    let bb = Vertex { position: bb, colour: col, tilt, direction: nb, aa_offset: p };
    let mid = Vertex { position: mid, colour: col, tilt, direction: n0, aa_offset: p };
    seq![ba, mid, aa, bb, mid, ba, ab, mid, bb, aa, mid, ab]
}

/// The triangles that `circle` queues: none for a rectangle without
/// interior.
pub open spec fn circle_vertices(rect: Rect, norm: Vec2, col: Colour) -> Seq<Vertex> {
    if rect.is_empty() {
        Seq::empty()
    } else {
        dome_shape(corner_aa(rect), corner_bb(rect), tilt_of(norm), Rgb::of(col))
    }
}

/// The triangles of the shaded frame between the rectangle from `aa` to
/// `bb` and the rectangle from `cc` to `dd` within it: four to each bar.
pub open spec fn bevel_shape(aa: Vec2, bb: Vec2, cc: Vec2, dd: Vec2, tilt: Vec2, col: Rgb) -> Seq<
    Vertex,
> {
    let ab = Vec2(aa.0, bb.1);
    let ba = Vec2(bb.0, aa.1);
    let cd = Vec2(cc.0, dd.1);
    let dc = Vec2(dd.0, cc.1);
    let n0 = Vec2(0, 0);
    let nb = Vec2::of(bb.0 - aa.0, bb.1 - aa.1).sign_spec();
    let na = Vec2::of(-nb.0, -nb.1);
    let nab = Vec2(na.0, nb.1);
    let nba = Vec2(nb.0, na.1);
    let na0 = Vec2(na.0, 0);
    let nb0 = Vec2(nb.0, 0);
    let n0a = Vec2(0, na.1);
    let n0b = Vec2(0, nb.1);
    let paa = softening(na, Vec2::of(aa.0 - cc.0, aa.1 - cc.1));
    let pab = softening(nab, Vec2::of(ab.0 - cd.0, ab.1 - cd.1));
    let pba = softening(nba, Vec2::of(ba.0 - dc.0, ba.1 - dc.1));
    let pbb = softening(nb, Vec2::of(bb.0 - dd.0, bb.1 - dd.1));
    let ab = Vertex { position: ab, colour: col, tilt, direction: nab, aa_offset: pab };
    let ba = Vertex { position: ba, colour: col, tilt, direction: nba, aa_offset: pba };
    let cd = Vertex { position: cd, colour: col, tilt, direction: n0, aa_offset: pab };
    let dc = Vertex { position: dc, colour: col, tilt, direction: n0, aa_offset: pba };
    let ac = Vertex {
        position: Vec2(aa.0, cc.1),
        colour: col,
        tilt,
        direction: na0,
        aa_offset: paa,
    };
    let ad = Vertex {
        position: Vec2(aa.0, dd.1),
        colour: col,
        tilt,
        direction: na0,
        aa_offset: pab,
    };
    let bc = Vertex {
        position: Vec2(bb.0, cc.1),
        colour: col,
        tilt,
        direction: nb0,
        aa_offset: pba,
    };
    let bd = Vertex {
        position: Vec2(bb.0, dd.1),
        colour: col,
        tilt,
        direction: nb0,
        aa_offset: pbb,
    };
    let ca = Vertex {
        position: Vec2(cc.0, aa.1),
        colour: col,
        tilt,
        direction: n0a,
        aa_offset: paa,
    };
    let cb = Vertex {
        position: Vec2(cc.0, bb.1),
        colour: col,
        tilt,
        direction: n0b,
        aa_offset: pab,
    };
    let da = Vertex {
        position: Vec2(dd.0, aa.1),
        colour: col,
        tilt,
        direction: n0a,
        aa_offset: pba,
    };
    let db = Vertex {
        position: Vec2(dd.0, bb.1),
        colour: col,
        tilt,
        direction: n0b,
        aa_offset: pbb,
    };
    let aa = Vertex { position: aa, colour: col, tilt, direction: na, aa_offset: paa };
    let bb = Vertex { position: bb, colour: col, tilt, direction: nb, aa_offset: pbb };
    let cc = Vertex { position: cc, colour: col, tilt, direction: n0, aa_offset: paa };
    let dd = Vertex { position: dd, colour: col, tilt, direction: n0, aa_offset: pbb };
    seq![
        // top bar: ba - dc - cc - aa
        ba, dc, da,
        da, dc, ca,
        dc, cc, ca,
        ca, cc, aa,
        // left bar: aa - cc - cd - ab
        aa, cc, ac,
        ac, cc, cd,
        ac, cd, ad,
        ad, cd, ab,
        // bottom bar: ab - cd - dd - bb
        ab, cd, cb,
        cb, cd, dd,
        cb, dd, db,
        db, dd, bb,
        // right bar: bb - dd - dc - ba
        bb, dd, bd,
        bd, dd, dc,
        bd, dc, bc,
        bc, dc, ba,
    ]
}

/// The triangles that `shaded_frame` queues: none for an outer rectangle
/// without interior.
pub open spec fn shaded_frame_vertices(outer: Rect, inner: Rect, norm: Vec2, col: Colour) -> Seq<
    Vertex,
> {
    if outer.is_empty() {
        Seq::empty()
    } else {
        bevel_shape(
            corner_aa(outer),
            corner_bb(outer),
            inner_cc(outer, inner),
            inner_dd(outer, inner),
            tilt_of(norm),
            Rgb::of(col),
        )
    }
}

/// What a round pipeline holds: the scale factors of the surface, the light
/// and, pass by pass, the vertices queued.
pub struct ShadedRoundView {
    pub scale: Ratio2,
    pub light: Light,
    pub passes: Seq<Seq<Vertex>>,
}

impl ShadedRoundView {
    /// The pipeline after `verts` were queued for `pass`. Where there is
    /// nothing to queue, the pipeline stays as it is.
    pub open spec fn with(self, pass: int, verts: Seq<Vertex>) -> ShadedRoundView {
        if verts.len() == 0 {
            self
        } else {
            ShadedRoundView {
                scale: self.scale,
                light: self.light,
                passes: appended(self.passes, pass, verts),
            }
        }
    }

    /// The pipeline after a shaded circle was drawn.
    pub open spec fn circle(self, pass: int, rect: Rect, norm: Vec2, col: Colour)
        -> ShadedRoundView {
        self.with(pass, circle_vertices(rect, norm, col))
    }

    /// The pipeline after a shaded frame was drawn.
    pub open spec fn shaded_frame(self, pass: int, outer: Rect, inner: Rect, norm: Vec2, col: Colour)
        -> ShadedRoundView {
        self.with(pass, shaded_frame_vertices(outer, inner, norm, col))
    }

    /// The pipeline after the surface took the given size.
    pub open spec fn resize(self, size: Size) -> ShadedRoundView {
        ShadedRoundView { scale: scale_of(size), light: self.light, passes: self.passes }
    }

    /// The pipeline after `pass` was rendered: its queue is empty.
    pub open spec fn render(self, pass: int) -> ShadedRoundView {
        ShadedRoundView { scale: self.scale, light: self.light, passes: cleared(self.passes, pass) }
    }

    /// The vertices queued for `pass`.
    pub open spec fn queued(self, pass: int) -> Seq<Vertex> {
        queued(self.passes, pass)
    }

    /// The batch that rendering `pass` hands over: none where the pipeline
    /// has no queue for `pass`.
    pub open spec fn batch(self, pass: int) -> Option<BatchView<Vertex>> {
        batch_of(self.scale, self.passes, pass)
    }

    /// The pipeline after the first `n` passes were rendered.
    pub open spec fn render_upto(self, n: int) -> ShadedRoundView {
        ShadedRoundView { passes: cleared_upto(self.passes, n), ..self }
    }
}

/// A pipeline for rendering shaded round shapes
pub struct ShadedRound {
    scale: Ratio2,
    light: Light,
    passes: Passes<Vertex>,
}

impl View for ShadedRound {
    type V = ShadedRoundView;

    closed spec fn view(&self) -> ShadedRoundView {
        ShadedRoundView { scale: self.scale, light: self.light, passes: self.passes@ }
    }
}

fn push_dome(out: &mut Vec<Vertex>, aa: Vec2, bb: Vec2, tilt: Vec2, col: Rgb)
    requires
        aa.lt_spec(bb),
        -0x4_0000_0000_0000 <= aa.0 && bb.0 <= 0x4_0000_0000_0000,
        -0x4_0000_0000_0000 <= aa.1 && bb.1 <= 0x4_0000_0000_0000,
    ensures
        final(out)@ == old(out)@ + dome_shape(aa, bb, tilt, col),
{
    let ab = Vec2(aa.0, bb.1);
    let ba = Vec2(bb.0, aa.1);
    let mid = aa.midpoint(bb);
    let n0 = Vec2::splat(0);
    let nb = (bb - aa).sign();
    let na = nb.neg();
    let nab = Vec2(na.0, nb.1);
    let nba = Vec2(nb.0, na.1);
    // Since we take the mid-point, all offsets are uniform
    let p = soften(nb, bb - mid);
    let aa = Vertex { position: aa, colour: col, tilt, direction: na, aa_offset: p };
    let ab = Vertex { position: ab, colour: col, tilt, direction: nab, aa_offset: p };
    let ba = Vertex { position: ba, colour: col, tilt, direction: nba, aa_offset: p };
    let bb = Vertex { position: bb, colour: col, tilt, direction: nb, aa_offset: p };
    let mid = Vertex { position: mid, colour: col, tilt, direction: n0, aa_offset: p };
    out.push(ba);
    out.push(mid);
    out.push(aa);
    out.push(bb);
    out.push(mid);
    out.push(ba);
    out.push(ab);
    out.push(mid);
    out.push(bb);
    out.push(aa);
    out.push(mid);
    out.push(ab);
    assert(out@ =~= old(out)@ + seq![ba, mid, aa, bb, mid, ba, ab, mid, bb, aa, mid, ab]);
}

fn push_bevel(out: &mut Vec<Vertex>, aa: Vec2, bb: Vec2, cc: Vec2, dd: Vec2, tilt: Vec2, col: Rgb)
    requires
        aa.lt_spec(bb),
        aa.le_spec(cc),
        cc.le_spec(dd),
        dd.le_spec(bb),
        -0x4_0000_0000_0000 <= aa.0 && bb.0 <= 0x4_0000_0000_0000,
        -0x4_0000_0000_0000 <= aa.1 && bb.1 <= 0x4_0000_0000_0000,
    ensures
        final(out)@ == old(out)@ + bevel_shape(aa, bb, cc, dd, tilt, col),
{
    let ab = Vec2(aa.0, bb.1);
    let ba = Vec2(bb.0, aa.1);
    let cd = Vec2(cc.0, dd.1);
    let dc = Vec2(dd.0, cc.1);

    let n0 = Vec2::splat(0);
    let nb = (bb - aa).sign();
    let na = nb.neg();
    let nab = Vec2(na.0, nb.1);
    let nba = Vec2(nb.0, na.1);
    let na0 = Vec2(na.0, 0);
    let nb0 = Vec2(nb.0, 0);
    let n0a = Vec2(0, na.1);
    let n0b = Vec2(0, nb.1);

    let paa = soften(na, aa - cc);
    let pab = soften(nab, ab - cd);
    let pba = soften(nba, ba - dc);
    let pbb = soften(nb, bb - dd);

    // We must add corners separately to ensure correct interpolation of dir
    // values, hence need 16 points:
    let ab = Vertex { position: ab, colour: col, tilt, direction: nab, aa_offset: pab };
    let ba = Vertex { position: ba, colour: col, tilt, direction: nba, aa_offset: pba };
    let cd = Vertex { position: cd, colour: col, tilt, direction: n0, aa_offset: pab };
    let dc = Vertex { position: dc, colour: col, tilt, direction: n0, aa_offset: pba };

    let ac = Vertex {
        position: Vec2(aa.0, cc.1),
        colour: col,
        tilt,
        direction: na0,
        aa_offset: paa,
    };
    let ad = Vertex {
        position: Vec2(aa.0, dd.1),
        colour: col,
        tilt,
        direction: na0,
        aa_offset: pab,
    };
    let bc = Vertex {
        position: Vec2(bb.0, cc.1),
        colour: col,
        tilt,
        direction: nb0,
        aa_offset: pba,
    };
    let bd = Vertex {
        position: Vec2(bb.0, dd.1),
        colour: col,
        tilt,
        direction: nb0,
        aa_offset: pbb,
    };

    let ca = Vertex {
        position: Vec2(cc.0, aa.1),
        colour: col,
        tilt,
        direction: n0a,
        aa_offset: paa,
    };
    let cb = Vertex {
        position: Vec2(cc.0, bb.1),
        colour: col,
        tilt,
        direction: n0b,
        aa_offset: pab,
    };
    let da = Vertex {
        position: Vec2(dd.0, aa.1),
        colour: col,
        tilt,
        direction: n0a,
        aa_offset: pba,
    };
    let db = Vertex {
        position: Vec2(dd.0, bb.1),
        colour: col,
        tilt,
        direction: n0b,
        aa_offset: pbb,
    };

    let aa = Vertex { position: aa, colour: col, tilt, direction: na, aa_offset: paa };
    let bb = Vertex { position: bb, colour: col, tilt, direction: nb, aa_offset: pbb };
    let cc = Vertex { position: cc, colour: col, tilt, direction: n0, aa_offset: paa };
    let dd = Vertex { position: dd, colour: col, tilt, direction: n0, aa_offset: pbb };

    // top bar: ba - dc - cc - aa
    push_triangle(out, ba, dc, da);
    push_triangle(out, da, dc, ca);
    push_triangle(out, dc, cc, ca);
    push_triangle(out, ca, cc, aa);
    // left bar: aa - cc - cd - ab
    push_triangle(out, aa, cc, ac);
    push_triangle(out, ac, cc, cd);
    push_triangle(out, ac, cd, ad);
    push_triangle(out, ad, cd, ab);
    // bottom bar: ab - cd - dd - bb
    push_triangle(out, ab, cd, cb);
    push_triangle(out, cb, cd, dd);
    push_triangle(out, cb, dd, db);
    push_triangle(out, db, dd, bb);
    // right bar: bb - dd - dc - ba
    push_triangle(out, bb, dd, bd);
    push_triangle(out, bd, dd, dc);
    push_triangle(out, bd, dc, bc);
    push_triangle(out, bc, dc, ba);
    assert(out@ =~= old(out)@ + seq![
        ba, dc, da,
        da, dc, ca,
        dc, cc, ca,
        ca, cc, aa,
        aa, cc, ac,
        ac, cc, cd,
        ac, cd, ad,
        ad, cd, ab,
        ab, cd, cb,
        cb, cd, dd,
        cb, dd, db,
        db, dd, bb,
        bb, dd, bd,
        bd, dd, dc,
        bd, dc, bc,
        bc, dc, ba,
    ]);
}

fn push_triangle(out: &mut Vec<Vertex>, a: Vertex, b: Vertex, c: Vertex)
    ensures
        final(out)@ == old(out)@.push(a).push(b).push(c),
{
    out.push(a);
    out.push(b);
    out.push(c);
}

impl ShadedRound {
    /// Construct, for a surface of the given size and light from the given
    /// direction
    pub fn new(size: Size, light: Light) -> (pipe: Self)
        ensures
            pipe@ == (ShadedRoundView { scale: scale_of(size), light, passes: Seq::empty() }),
    {
        ShadedRound { scale: scale_for(size), light, passes: Passes::new() }
    }

    /// The direction of the light.
    pub fn light(&self) -> (light: Light)
        ensures
            light == self@.light,
    {
        self.light
    }

    /// Takes note of the new size of the surface. Returns the scale factors
    /// that the vertex stage is to use from now on.
    pub fn resize(&mut self, size: Size) -> (scale: Ratio2)
        ensures
            final(self)@ == old(self)@.resize(size),
            scale == scale_of(size),
    {
        self.scale = scale_for(size);
        self.scale
    }

    /// Hands over the triangles queued for `pass` and clears the queue.
    /// Where no queue exists for `pass`, there is nothing to draw.
    pub fn render(&mut self, pass: usize) -> (batch: Option<Batch<Vertex>>)
        ensures
            final(self)@ == old(self)@.render(pass as int),
            final(self)@.queued(pass as int).len() == 0,
            batch_view(batch) == old(self)@.batch(pass as int),
    {
        match self.passes.take(pass) {
            Some(vertices) => Some(Batch { scale: self.scale, vertices }),
            None => None,
        }
    }

    /// The number of vertices queued for `pass`.
    pub fn count(&self, pass: usize) -> (n: usize)
        ensures
            n == self@.queued(pass as int).len(),
    {
        self.passes.count(pass)
    }

    /// Queues a disc inscribed in `rect`, shaded as a dome. The pair `norm`
    /// gives the tilt at the rim and at the centre; where a component lies
    /// outside the range from minus one to one, the disc is flat. A
    /// rectangle without interior has nothing drawn.
    pub fn circle(&mut self, pass: usize, rect: Rect, norm: Vec2, col: Colour)
        requires
            pass + GROWTH <= usize::MAX,
        ensures
            final(self)@ == old(self)@.circle(pass as int, rect, norm, col),
    {
        let aa = Vec2::from(rect.pos);
        let bb = aa + Vec2::from(rect.size);

        if !aa.lt(bb) {
            // zero size: nothing to draw
            return ;
        }
        let tilt = tilt_for(norm);

        let mut verts: Vec<Vertex> = Vec::with_capacity(12);
        push_dome(&mut verts, aa, bb, tilt, Rgb::from(col));
        assert(verts@ =~= circle_vertices(rect, norm, col));
        self.add_vertices(pass, verts.as_slice());
    }

    /// Queues the frame between `outer` and `inner`, with rounded corners
    /// and shaded as a rounded bevel. The pair `norm` gives the tilt at the
    /// outer and at the inner edge; where a component lies outside the range
    /// from minus one to one, the frame is flat. In each dimension in which
    /// `inner` does not lie within `outer`, the inner rectangle collapses to
    /// `outer`'s top-left corner. An outer rectangle without interior has
    /// nothing drawn.
    pub fn shaded_frame(&mut self, pass: usize, outer: Rect, inner: Rect, norm: Vec2, col: Colour)
        requires
            pass + GROWTH <= usize::MAX,
        ensures
            final(self)@ == old(self)@.shaded_frame(pass as int, outer, inner, norm, col),
    {
        let aa = Vec2::from(outer.pos);
        let bb = aa + Vec2::from(outer.size);

        if !aa.lt(bb) {
            // zero size: nothing to draw
            return ;
        }
        let (cc, dd) = inner_corners(outer, inner);
        let tilt = tilt_for(norm);

        let mut verts: Vec<Vertex> = Vec::with_capacity(48);
        push_bevel(&mut verts, aa, bb, cc, dd, tilt, Rgb::from(col));
        assert(verts@ =~= shaded_frame_vertices(outer, inner, norm, col));
        self.add_vertices(pass, verts.as_slice());
    }

    fn add_vertices(&mut self, pass: usize, slice: &[Vertex])
        requires
            pass + GROWTH <= usize::MAX,
        ensures
            final(self)@ == (ShadedRoundView {
                scale: old(self)@.scale,
                light: old(self)@.light,
                passes: appended(old(self)@.passes, pass as int, slice@),
            }),
    {
        self.passes.add_vertices(pass, slice);
    }
}

/// A shaded circle in a rectangle with an interior queues four triangles,
/// a shaded round frame sixteen; without an interior, none.
pub proof fn lemma_round_triangle_counts(outer: Rect, inner: Rect, norm: Vec2, col: Colour)
    ensures
        outer.is_empty() ==> circle_vertices(outer, norm, col).len() == 0
            && shaded_frame_vertices(outer, inner, norm, col).len() == 0,
        !outer.is_empty() ==> circle_vertices(outer, norm, col).len() == 12
            && shaded_frame_vertices(outer, inner, norm, col).len() == 48,
{
}

/// Once a pass is rendered, nothing is queued for it; the queues of the
/// other passes stay as they were.
pub proof fn lemma_round_render_empties_queue(pipe: ShadedRoundView, pass: int)
    ensures
        pipe.render(pass).queued(pass).len() == 0,
        forall|other: int| other != pass ==> pipe.render(pass).queued(other) == pipe.queued(other),
{
}

} // verus!
