//! Rounded flat pipeline
//!
//! Lines with round caps, discs, rings and frames with rounded corners are
//! cut into triangles here. Nothing is rounded in the geometry: each vertex
//! carries the numbers from which the fragment stage finds, pixel by pixel,
//! on which side of the round edge it lies.

use vstd::prelude::*;
use super::passes::{appended, cleared, queued, Passes, GROWTH};
use super::{
    batch_of, batch_view, cleared_upto, corner_aa, corner_bb, inner_cc, inner_corners, inner_dd,
    scale_for, scale_of, Batch, BatchView,
};
use crate::colour::Colour;
use crate::fixed::{
    clamp_unit, clamp_unit_spec, div_trunc, is_isqrt, isqrt, isqrt_spec, lemma_isqrt_exists, px,
    whole, whole_spec, OFFSET, UNIT,
};
use crate::geom::{Coord, Rect, Size};
use crate::vertex::{Ratio2, Rgb, Vec2};
use core::ops::Neg;

verus! {

/// One corner of a triangle.
#[derive(Clone, Copy, Debug, PartialEq, Eq, Structural)]
pub struct Vertex {
    /// Position on the surface
    pub position: Vec2,
    pub colour: Rgb,
    /// Inner radius as a fraction of the outer: zero fills the shape, one
    /// leaves nothing of it
    pub shape_param: i64,
    /// Direction from the centre of the round edge, each component minus
    /// one, zero or one
    pub normal: Vec2,
    /// Width of the softened edge in units of `normal`
    pub aa_offset: Ratio2,
}

/// The width of the softened edge for a corner with the given normal, at
/// the given distance from the centre of the round edge.
pub open spec fn softening(normal: Vec2, distance: Vec2) -> Ratio2 {
    Ratio2 {
        num: Vec2::of(div_trunc(normal.0 * OFFSET, UNIT as int), div_trunc(normal.1 * OFFSET, UNIT as int)),
        den: distance,
    }
}

fn soften(normal: Vec2, distance: Vec2) -> (p: Ratio2)
    requires
        -UNIT <= normal.0 <= UNIT,
        -UNIT <= normal.1 <= UNIT,
    ensures
        p == softening(normal, distance),
{
    Ratio2 { num: Vec2(normal.0 * OFFSET / UNIT, normal.1 * OFFSET / UNIT), den: distance }
}

/// The triangles of a disc or ring inscribed in the rectangle from `aa` to
/// `bb`: a fan of four around the midpoint.
pub open spec fn disc_vertices(aa: Vec2, bb: Vec2, inner: i64, col: Rgb) -> Seq<Vertex> {
    let ab = Vec2(aa.0, bb.1);
    let ba = Vec2(bb.0, aa.1);
    let mid = aa.midpoint_spec(bb);
    let n0 = Vec2(0, 0);
    let nb = Vec2::of(bb.0 - aa.0, bb.1 - aa.1).sign_spec();
    let na = Vec2::of(-nb.0, -nb.1);
    let nab = Vec2(na.0, nb.1);
    let nba = Vec2(nb.0, na.1);
    let p = softening(nb, Vec2::of(bb.0 - mid.0, bb.1 - mid.1));
    let aa = Vertex { position: aa, colour: col, shape_param: inner, normal: na, aa_offset: p };
    let ab = Vertex { position: ab, colour: col, shape_param: inner, normal: nab, aa_offset: p };
    let ba = Vertex { position: ba, colour: col, shape_param: inner, normal: nba, aa_offset: p };
    let bb = Vertex { position: bb, colour: col, shape_param: inner, normal: nb, aa_offset: p };
    let mid = Vertex { position: mid, colour: col, shape_param: inner, normal: n0, aa_offset: p };
    seq![ba, mid, aa, bb, mid, ba, ab, mid, bb, aa, mid, ab]
}

/// The triangles that `circle` queues: none for a rectangle without
/// interior.
pub open spec fn circle_vertices(rect: Rect, inner_radius: i64, col: Colour) -> Seq<Vertex> {
    if rect.is_empty() {
        Seq::empty()
    } else {
        disc_vertices(
            corner_aa(rect),
            corner_bb(rect),
            clamp_unit_spec(inner_radius as int) as i64,
            Rgb::of(col),
        )
    }
}

/// The triangles of the frame between the rectangle from `aa` to `bb` and
/// the rectangle from `cc` to `dd` within it: four to each bar.
pub open spec fn frame_shape(aa: Vec2, bb: Vec2, cc: Vec2, dd: Vec2, inner: i64, col: Rgb) -> Seq<
    Vertex,
> {
    let ab = Vec2(aa.0, bb.1);
    let ba = Vec2(bb.0, aa.1);
    let cd = Vec2(cc.0, dd.1);
    let dc = Vec2(dd.0, cc.1);
    let n0 = Vec2(0, 0);
    let nb = Vec2::of(bb.0 - aa.0, bb.1 - aa.1).sign_spec();
    let na = Vec2::of(-nb.0, -nb.1);
    let nab = Vec2(na.0, nb.1);
    let nba = Vec2(nb.0, na.1);
    let na0 = Vec2(na.0, 0);
    let nb0 = Vec2(nb.0, 0);
    let n0a = Vec2(0, na.1);
    let n0b = Vec2(0, nb.1);
    let paa = softening(na, Vec2::of(aa.0 - cc.0, aa.1 - cc.1));
    let pab = softening(nab, Vec2::of(ab.0 - cd.0, ab.1 - cd.1));
    let pba = softening(nba, Vec2::of(ba.0 - dc.0, ba.1 - dc.1));
    let pbb = softening(nb, Vec2::of(bb.0 - dd.0, bb.1 - dd.1));
    let ab = Vertex { position: ab, colour: col, shape_param: inner, normal: nab, aa_offset: pab };
    let ba = Vertex { position: ba, colour: col, shape_param: inner, normal: nba, aa_offset: pba };
    let cd = Vertex { position: cd, colour: col, shape_param: inner, normal: n0, aa_offset: pab };
    let dc = Vertex { position: dc, colour: col, shape_param: inner, normal: n0, aa_offset: pba };
    let ac = Vertex {
        position: Vec2(aa.0, cc.1),
        colour: col,
        shape_param: inner,
        normal: na0,
        aa_offset: paa,
    };
    let ad = Vertex {
        position: Vec2(aa.0, dd.1),
        colour: col,
        shape_param: inner,
        normal: na0,
        aa_offset: pab,
    };
    let bc = Vertex {
        position: Vec2(bb.0, cc.1),
        colour: col,
        shape_param: inner,
        normal: nb0,
        aa_offset: pba,
    };
    let bd = Vertex {
        position: Vec2(bb.0, dd.1),
        colour: col,
        shape_param: inner,
        normal: nb0,
        aa_offset: pbb,
    };
    let ca = Vertex {
        position: Vec2(cc.0, aa.1),
        colour: col,
        shape_param: inner,
        normal: n0a,
        aa_offset: paa,
    };
    let cb = Vertex {
        position: Vec2(cc.0, bb.1),
        colour: col,
        shape_param: inner,
        normal: n0b,
        aa_offset: pab,
    };
    let da = Vertex {
        position: Vec2(dd.0, aa.1),
        colour: col,
        shape_param: inner,
        normal: n0a,
        aa_offset: pba,
    };
    let db = Vertex {
        position: Vec2(dd.0, bb.1),
        colour: col,
        shape_param: inner,
        normal: n0b,
        aa_offset: pbb,
    };
    let aa = Vertex { position: aa, colour: col, shape_param: inner, normal: na, aa_offset: paa };
    let bb = Vertex { position: bb, colour: col, shape_param: inner, normal: nb, aa_offset: pbb };
    let cc = Vertex { position: cc, colour: col, shape_param: inner, normal: n0, aa_offset: paa };
    let dd = Vertex { position: dd, colour: col, shape_param: inner, normal: n0, aa_offset: pbb };
    seq![
        // top bar: ba - dc - cc - aa
        ba, dc, da,
        da, dc, ca,
        dc, cc, ca,
        ca, cc, aa,
        // left bar: aa - cc - cd - ab
        aa, cc, ac,
        ac, cc, cd,
        ac, cd, ad,
        ad, cd, ab,
        // bottom bar: ab - cd - dd - bb
        ab, cd, cb,
        cb, cd, dd,
        cb, dd, db,
        db, dd, bb,
        // right bar: bb - dd - dc - ba
        bb, dd, bd,
        bd, dd, dc,
        bd, dc, bc,
        bc, dc, ba,
    ]
}

/// The triangles that `rounded_frame` queues: none for an outer rectangle
/// without interior.
pub open spec fn frame_vertices(outer: Rect, inner: Rect, inner_radius: i64, col: Colour) -> Seq<
    Vertex,
> {
    if outer.is_empty() {
        Seq::empty()
    } else {
        frame_shape(
            corner_aa(outer),
            corner_bb(outer),
            inner_cc(outer, inner),
            inner_dd(outer, inner),
            clamp_unit_spec(inner_radius as int) as i64,
            Rgb::of(col),
        )
    }
}

/// The length of the vector `(dx, dy)` as a scalar, rounded down.
pub open spec fn length(dx: int, dy: int) -> int {
    isqrt_spec(((dx * dx + dy * dy) * (UNIT * UNIT)) as nat) as int
}

/// The vector of length `radius` that points from `p1` to `p2`. Each
/// component is rounded toward zero.
pub open spec fn axis(p1: Coord, p2: Coord, radius: int) -> Vec2 {
    let dx = p2.0 - p1.0;
    let dy = p2.1 - p1.1;
    Vec2::of(
        div_trunc(dx * radius * UNIT, length(dx, dy)),
        div_trunc(dy * radius * UNIT, length(dx, dy)),
    )
}

/// The triangles of the capsule of half-width `radius` around the segment
/// from `p1` to `p2`, which differ: three to each cap and four to the body.
pub open spec fn capsule_vertices(p1: Coord, p2: Coord, radius: i32, col: Rgb) -> Seq<Vertex> {
    capsule_shape(Vec2::of_coord(p1), Vec2::of_coord(p2), axis(p1, p2, radius as int), radius, col)
}

/// The triangles of the capsule around the segment from `a` to `b`, where
/// `vx` has the length `radius` and points from `a` to `b`.
pub open spec fn capsule_shape(a: Vec2, b: Vec2, vx: Vec2, radius: i32, col: Rgb) -> Seq<Vertex> {
    let vy = Vec2::of(-vx.1, vx.0 as int);
    let n0 = Vec2(0, 0);
    let nb = Vec2::of(vx.0 + vy.0, vx.1 + vy.1).sign_spec();
    let na = Vec2::of(-nb.0, -nb.1);
    let p = Ratio2 { num: Vec2(OFFSET, OFFSET), den: Vec2(radius as i64, radius as i64) };
    let ma1 = Vertex {
        position: Vec2::of(a.0 - vy.0, a.1 - vy.1),
        colour: col,
        shape_param: 0,
        normal: Vec2(0, na.1),
        aa_offset: p,
    };
    let mb1 = Vertex {
        position: Vec2::of(a.0 + vy.0, a.1 + vy.1),
        colour: col,
        shape_param: 0,
        normal: Vec2(0, nb.1),
        aa_offset: p,
    };
    let aa1 = Vertex {
        position: Vec2::of(ma1.position.0 - vx.0, ma1.position.1 - vx.1),
        colour: col,
        shape_param: 0,
        normal: Vec2(na.0, na.1),
        aa_offset: p,
    };
    let ab1 = Vertex {
        position: Vec2::of(mb1.position.0 - vx.0, mb1.position.1 - vx.1),
        colour: col,
        shape_param: 0,
        normal: Vec2(na.0, nb.1),
        aa_offset: p,
    };
    let ma2 = Vertex {
        position: Vec2::of(b.0 - vy.0, b.1 - vy.1),
        colour: col,
        shape_param: 0,
        normal: Vec2(0, na.1),
        aa_offset: p,
    };
    let mb2 = Vertex {
        position: Vec2::of(b.0 + vy.0, b.1 + vy.1),
        colour: col,
        shape_param: 0,
        normal: Vec2(0, nb.1),
        aa_offset: p,
    };
    let ba2 = Vertex {
        position: Vec2::of(ma2.position.0 + vx.0, ma2.position.1 + vx.1),
        colour: col,
        shape_param: 0,
        normal: Vec2(nb.0, na.1),
        aa_offset: p,
    };
    let bb2 = Vertex {
        position: Vec2::of(mb2.position.0 + vx.0, mb2.position.1 + vx.1),
        colour: col,
        shape_param: 0,
        normal: Vec2(nb.0, nb.1),
        aa_offset: p,
    };
    let c1 = Vertex { position: a, colour: col, shape_param: 0, normal: n0, aa_offset: p };
    let c2 = Vertex { position: b, colour: col, shape_param: 0, normal: n0, aa_offset: p };
    seq![
        ab1, c1, mb1,
        aa1, c1, ab1,
        ma1, c1, aa1,
        mb1, c1, mb2,
        mb2, c1, c2,
        mb2, c2, bb2,
        bb2, c2, ba2,
        ba2, c2, ma2,
        ma2, c2, c1,
        c1, ma1, ma2,
    ]
}

/// Side in pixels of the square that stands for a line without length: twice
/// `radius`, rounded toward zero, and zero for a negative `radius`.
pub open spec fn dot_side(radius: i32) -> int {
    if radius <= 0 {
        0
    } else {
        (2 * radius) / (UNIT as int)
    }
}

/// Top-left corner in pixels, along one axis, of the square that stands for
/// a line without length at `p`.
pub open spec fn dot_origin(p: i32, radius: i32) -> int {
    p - whole_spec(radius as int)
}

/// The triangles of a line without length at `p`: a disc in the square of
/// side [`dot_side`] at [`dot_origin`], with `radius` as its inner radius.
pub open spec fn dot_vertices(p: Coord, radius: i32, col: Colour) -> Seq<Vertex> {
    if dot_side(radius) == 0 {
        Seq::empty()
    } else {
        disc_vertices(
            Vec2::of(px(dot_origin(p.0, radius)), px(dot_origin(p.1, radius))),
            Vec2::of(
                px(dot_origin(p.0, radius) + dot_side(radius)),
                px(dot_origin(p.1, radius) + dot_side(radius)),
            ),
            clamp_unit_spec(radius as int) as i64,
            Rgb::of(col),
        )
    }
}

/// The triangles that `line` queues.
pub open spec fn line_vertices(p1: Coord, p2: Coord, radius: i32, col: Colour) -> Seq<Vertex> {
    if p1 == p2 {
        dot_vertices(p1, radius, col)
    } else {
        capsule_vertices(p1, p2, radius, Rgb::of(col))
    }
}

/// What a rounded flat pipeline holds: the scale factors of the surface and,
/// pass by pass, the vertices queued.
pub struct FlatRoundView {
    pub scale: Ratio2,
    pub passes: Seq<Seq<Vertex>>,
}

impl FlatRoundView {
    /// The pipeline after `verts` were queued for `pass`. Where there is
    /// nothing to queue, the pipeline stays as it is.
    pub open spec fn with(self, pass: int, verts: Seq<Vertex>) -> FlatRoundView {
        if verts.len() == 0 {
            self
        } else {
            FlatRoundView { scale: self.scale, passes: appended(self.passes, pass, verts) }
        }
    }

    /// The pipeline after a line was drawn.
    pub open spec fn line(self, pass: int, p1: Coord, p2: Coord, radius: i32, col: Colour)
        -> FlatRoundView {
        self.with(pass, line_vertices(p1, p2, radius, col))
    }

    /// The pipeline after a circle was drawn.
    pub open spec fn circle(self, pass: int, rect: Rect, inner_radius: i64, col: Colour)
        -> FlatRoundView {
        self.with(pass, circle_vertices(rect, inner_radius, col))
    }

    /// The pipeline after a rounded frame was drawn.
    pub open spec fn rounded_frame(
        self,
        pass: int,
        outer: Rect,
        inner: Rect,
        inner_radius: i64,
        col: Colour,
    ) -> FlatRoundView {
        self.with(pass, frame_vertices(outer, inner, inner_radius, col))
    }

    /// The pipeline after the surface took the given size.
    pub open spec fn resize(self, size: Size) -> FlatRoundView {
        FlatRoundView { scale: scale_of(size), passes: self.passes }
    }

    /// The pipeline after `pass` was rendered: its queue is empty.
    pub open spec fn render(self, pass: int) -> FlatRoundView {
        FlatRoundView { scale: self.scale, passes: cleared(self.passes, pass) }
    }

    /// The vertices queued for `pass`.
    pub open spec fn queued(self, pass: int) -> Seq<Vertex> {
        queued(self.passes, pass)
    }

    /// The batch that rendering `pass` hands over: none where the pipeline
    /// has no queue for `pass`.
    pub open spec fn batch(self, pass: int) -> Option<BatchView<Vertex>> {
        batch_of(self.scale, self.passes, pass)
    }

    /// The pipeline after the first `n` passes were rendered.
    pub open spec fn render_upto(self, n: int) -> FlatRoundView {
        FlatRoundView { passes: cleared_upto(self.passes, n), ..self }
    }
}

/// A pipeline for rendering rounded shapes
pub struct FlatRound {
    scale: Ratio2,
    passes: Passes<Vertex>,
}

impl View for FlatRound {
    type V = FlatRoundView;

    closed spec fn view(&self) -> FlatRoundView {
        FlatRoundView { scale: self.scale, passes: self.passes@ }
    }
}

fn axis_for(p1: Coord, p2: Coord, radius: i32) -> (vx: Vec2)
    requires
        p1 != p2,
    ensures
        vx == axis(p1, p2, radius as int),
        -0x8000_0000 <= vx.0 <= 0x8000_0000,
        -0x8000_0000 <= vx.1 <= 0x8000_0000,
{
    let dx: i128 = p2.0 as i128 - p1.0 as i128;
    let dy: i128 = p2.1 as i128 - p1.1 as i128;
    assert(0 <= dx * dx <= 0x1_0000_0000 * 0x1_0000_0000) by (nonlinear_arith)
        requires
            -0x1_0000_0000 <= dx <= 0x1_0000_0000,
    ;
    assert(0 <= dy * dy <= 0x1_0000_0000 * 0x1_0000_0000) by (nonlinear_arith)
        requires
            -0x1_0000_0000 <= dy <= 0x1_0000_0000,
    ;
    assert(dx * dx + dy * dy >= 1) by (nonlinear_arith)
        requires
            dx != 0 || dy != 0,
    ;
    let sq: i128 = dx * dx + dy * dy;
    let n: u128 = (sq as u128) * 0x1_0000_0000;
    assert(n == (dx * dx + dy * dy) * (UNIT * UNIT));
    let len: i128 = isqrt(n) as i128;
    proof {
        lemma_length_bounds(dx as int, dy as int, len as int);
    }
    let r: i128 = radius as i128;
    assert(-(0x8000_0000 * len) <= dx * r * UNIT <= 0x8000_0000 * len
        && -0x1_0000_0000_0000_0000_0000_0000 <= dx * r <= 0x1_0000_0000_0000_0000_0000_0000)
        by (nonlinear_arith)
        requires
            -0x8000_0000 <= r <= 0x8000_0000,
            -0x1_0000_0000 <= dx <= 0x1_0000_0000,
            -len <= dx * UNIT <= len,
    ;
    assert(-(0x8000_0000 * len) <= dy * r * UNIT <= 0x8000_0000 * len
        && -0x1_0000_0000_0000_0000_0000_0000 <= dy * r <= 0x1_0000_0000_0000_0000_0000_0000)
        by (nonlinear_arith)
        requires
            -0x8000_0000 <= r <= 0x8000_0000,
            -0x1_0000_0000 <= dy <= 0x1_0000_0000,
            -len <= dy * UNIT <= len,
    ;
    let nx: i128 = dx * r * 65536;
    let ny: i128 = dy * r * 65536;
    proof {
        lemma_div_trunc_bounds(nx as int, len as int, 0x8000_0000);
        lemma_div_trunc_bounds(ny as int, len as int, 0x8000_0000);
    }
    let x: i128 = nx / len;
    let y: i128 = ny / len;
    Vec2(x as i64, y as i64)
}

/// The rounded-down length of a vector other than zero is at least one, and
/// no component exceeds it.
proof fn lemma_length_bounds(dx: int, dy: int, len: int)
    requires
        dx != 0 || dy != 0,
        len == length(dx, dy),
    ensures
        len >= UNIT,
        -len <= dx * UNIT <= len,
        -len <= dy * UNIT <= len,
{
    let n = (dx * dx + dy * dy) * (UNIT * UNIT);
    assert(n >= UNIT * UNIT) by (nonlinear_arith)
        requires
            n == (dx * dx + dy * dy) * (UNIT * UNIT),
            dx != 0 || dy != 0,
    ;
    lemma_isqrt_exists(n as nat);
    assert(is_isqrt(n as nat, len as nat));
    let ax = if dx >= 0 { dx } else { -dx };
    let ay = if dy >= 0 { dy } else { -dy };
    assert(ax * ax == dx * dx && ay * ay == dy * dy) by (nonlinear_arith)
        requires
            ax == dx || ax == -dx,
            ay == dy || ay == -dy,
    ;
    assert((ax * UNIT) * (ax * UNIT) <= n && (ay * UNIT) * (ay * UNIT) <= n) by (nonlinear_arith)
        requires
            n == (dx * dx + dy * dy) * (UNIT * UNIT),
            ax * ax == dx * dx,
            ay * ay == dy * dy,
    ;
    assert(ax * UNIT <= len) by (nonlinear_arith)
        requires
            (ax * UNIT) * (ax * UNIT) <= n,
            n < (len + 1) * (len + 1),
            len >= 0,
            ax >= 0,
    ;
    assert(ay * UNIT <= len) by (nonlinear_arith)
        requires
            (ay * UNIT) * (ay * UNIT) <= n,
            n < (len + 1) * (len + 1),
            len >= 0,
            ay >= 0,
    ;
    assert(len >= UNIT) by (nonlinear_arith)
        requires
            n >= UNIT * UNIT,
            n < (len + 1) * (len + 1),
            len >= 0,
    ;
}

/// A quotient rounded toward zero is no larger than the bound of which the
/// dividend is a multiple's worth.
proof fn lemma_div_trunc_bounds(a: int, b: int, c: int)
    requires
        b > 0,
        c >= 0,
        -(c * b) <= a <= c * b,
    ensures
        -c <= div_trunc(a, b) <= c,
{
    if a >= 0 {
        assert(0 <= a / b <= c) by (nonlinear_arith)
            requires
                b > 0,
                0 <= a <= c * b,
        ;
    } else {
        assert(0 <= (-a) / b <= c) by (nonlinear_arith)
            requires
                b > 0,
                0 <= -a <= c * b,
        ;
    }
}

fn push_disc(out: &mut Vec<Vertex>, aa: Vec2, bb: Vec2, inner: i64, col: Rgb)
    requires
        aa.lt_spec(bb),
        -0x4_0000_0000_0000 <= aa.0 && bb.0 <= 0x4_0000_0000_0000,
        -0x4_0000_0000_0000 <= aa.1 && bb.1 <= 0x4_0000_0000_0000,
    ensures
        final(out)@ == old(out)@ + disc_vertices(aa, bb, inner, col),
{
    let ab = Vec2(aa.0, bb.1);
    let ba = Vec2(bb.0, aa.1);
    let mid = aa.midpoint(bb);
    let n0 = Vec2::splat(0);
    let nb = (bb - aa).sign();
    let na = nb.neg();
    let nab = Vec2(na.0, nb.1);
    let nba = Vec2(nb.0, na.1);
    // Since we take the mid-point, all offsets are uniform
    let p = soften(nb, bb - mid);
    let aa = Vertex { position: aa, colour: col, shape_param: inner, normal: na, aa_offset: p };
    let ab = Vertex { position: ab, colour: col, shape_param: inner, normal: nab, aa_offset: p };
    let ba = Vertex { position: ba, colour: col, shape_param: inner, normal: nba, aa_offset: p };
    let bb = Vertex { position: bb, colour: col, shape_param: inner, normal: nb, aa_offset: p };
    let mid = Vertex { position: mid, colour: col, shape_param: inner, normal: n0, aa_offset: p };
    out.push(ba);
    out.push(mid);
    out.push(aa);
    out.push(bb);
    out.push(mid);
    out.push(ba);
    out.push(ab);
    out.push(mid);
    out.push(bb);
    out.push(aa);
    out.push(mid);
    out.push(ab);
    assert(out@ =~= old(out)@ + seq![ba, mid, aa, bb, mid, ba, ab, mid, bb, aa, mid, ab]);
}

fn push_capsule(out: &mut Vec<Vertex>, a: Vec2, b: Vec2, vx: Vec2, radius: i32, rgb: Rgb)
    requires
        -0x4_0000_0000_0000 <= a.0 <= 0x4_0000_0000_0000,
        -0x4_0000_0000_0000 <= a.1 <= 0x4_0000_0000_0000,
        -0x4_0000_0000_0000 <= b.0 <= 0x4_0000_0000_0000,
        -0x4_0000_0000_0000 <= b.1 <= 0x4_0000_0000_0000,
        -0x8000_0000 <= vx.0 <= 0x8000_0000,
        -0x8000_0000 <= vx.1 <= 0x8000_0000,
    ensures
        final(out)@ == old(out)@ + capsule_shape(a, b, vx, radius, rgb),
{
    let vy = Vec2(-vx.1, vx.0);

    let n0 = Vec2::splat(0);
    let nb = (vx + vy).sign();
    let na = nb.neg();

    // Since we take the mid-point, all offsets are uniform
    let p = Ratio2 { num: Vec2::splat(OFFSET), den: Vec2::splat(radius as i64) };

    let ma1 = Vertex {
        position: a - vy,
        colour: rgb,
        shape_param: 0,
        normal: Vec2(0, na.1),
        aa_offset: p,
    };
    let mb1 = Vertex {
        position: a + vy,
        colour: rgb,
        shape_param: 0,
        normal: Vec2(0, nb.1),
        aa_offset: p,
    };
    let aa1 = Vertex {
        position: ma1.position - vx,
        colour: rgb,
        shape_param: 0,
        normal: Vec2(na.0, na.1),
        aa_offset: p,
    };
    let ab1 = Vertex {
        position: mb1.position - vx,
        colour: rgb,
        shape_param: 0,
        normal: Vec2(na.0, nb.1),
        aa_offset: p,
    };
    let ma2 = Vertex {
        position: b - vy,
        colour: rgb,
        shape_param: 0,
        normal: Vec2(0, na.1),
        aa_offset: p,
    };
    let mb2 = Vertex {
        position: b + vy,
        colour: rgb,
        shape_param: 0,
        normal: Vec2(0, nb.1),
        aa_offset: p,
    };
    let ba2 = Vertex {
        position: ma2.position + vx,
        colour: rgb,
        shape_param: 0,
        normal: Vec2(nb.0, na.1),
        aa_offset: p,
    };
    let bb2 = Vertex {
        position: mb2.position + vx,
        colour: rgb,
        shape_param: 0,
        normal: Vec2(nb.0, nb.1),
        aa_offset: p,
    };
    let c1 = Vertex { position: a, colour: rgb, shape_param: 0, normal: n0, aa_offset: p };
    let c2 = Vertex { position: b, colour: rgb, shape_param: 0, normal: n0, aa_offset: p };

    out.push(ab1);
    out.push(c1);
    out.push(mb1);
    out.push(aa1);
    out.push(c1);
    out.push(ab1);
    out.push(ma1);
    out.push(c1);
    out.push(aa1);
    out.push(mb1);
    out.push(c1);
    out.push(mb2);
    out.push(mb2);
    out.push(c1);
    out.push(c2);
    out.push(mb2);
    out.push(c2);
    out.push(bb2);
    out.push(bb2);
    out.push(c2);
    out.push(ba2);
    out.push(ba2);
    out.push(c2);
    out.push(ma2);
    out.push(ma2);
    out.push(c2);
    out.push(c1);
    out.push(c1);
    out.push(ma1);
    out.push(ma2);
    assert(out@ =~= old(out)@ + seq![
        ab1, c1, mb1,
        aa1, c1, ab1,
        ma1, c1, aa1,
        mb1, c1, mb2,
        mb2, c1, c2,
        mb2, c2, bb2,
        bb2, c2, ba2,
        ba2, c2, ma2,
        ma2, c2, c1,
        c1, ma1, ma2,
    ]);
}

fn push_frame(out: &mut Vec<Vertex>, aa: Vec2, bb: Vec2, cc: Vec2, dd: Vec2, inner: i64, col: Rgb)
    requires
        aa.lt_spec(bb),
        aa.le_spec(cc),
        cc.le_spec(dd),
        dd.le_spec(bb),
        -0x4_0000_0000_0000 <= aa.0 && bb.0 <= 0x4_0000_0000_0000,
        -0x4_0000_0000_0000 <= aa.1 && bb.1 <= 0x4_0000_0000_0000,
    ensures
        final(out)@ == old(out)@ + frame_shape(aa, bb, cc, dd, inner, col),
{
    let ab = Vec2(aa.0, bb.1);
    let ba = Vec2(bb.0, aa.1);
    let cd = Vec2(cc.0, dd.1);
    let dc = Vec2(dd.0, cc.1);

    let n0 = Vec2::splat(0);
    let nb = (bb - aa).sign();
    let na = nb.neg();
    let nab = Vec2(na.0, nb.1);
    let nba = Vec2(nb.0, na.1);
    let na0 = Vec2(na.0, 0);
    let nb0 = Vec2(nb.0, 0);
    let n0a = Vec2(0, na.1);
    let n0b = Vec2(0, nb.1);

    let paa = soften(na, aa - cc);
    let pab = soften(nab, ab - cd);
    let pba = soften(nba, ba - dc);
    let pbb = soften(nb, bb - dd);

    // We must add corners separately to ensure correct interpolation of dir
    // values, hence need 16 points:
    let ab = Vertex { position: ab, colour: col, shape_param: inner, normal: nab, aa_offset: pab };
    let ba = Vertex { position: ba, colour: col, shape_param: inner, normal: nba, aa_offset: pba };
    let cd = Vertex { position: cd, colour: col, shape_param: inner, normal: n0, aa_offset: pab };
    let dc = Vertex { position: dc, colour: col, shape_param: inner, normal: n0, aa_offset: pba };

    let ac = Vertex {
        position: Vec2(aa.0, cc.1),
        colour: col,
        shape_param: inner,
        normal: na0,
        aa_offset: paa,
    };
    let ad = Vertex {
        position: Vec2(aa.0, dd.1),
        colour: col,
        shape_param: inner,
        normal: na0,
        aa_offset: pab,
    };
    let bc = Vertex {
        position: Vec2(bb.0, cc.1),
        colour: col,
        shape_param: inner,
        normal: nb0,
        aa_offset: pba,
    };
    let bd = Vertex {
        position: Vec2(bb.0, dd.1),
        colour: col,
        shape_param: inner,
        normal: nb0,
        aa_offset: pbb,
    };

    let ca = Vertex {
        position: Vec2(cc.0, aa.1),
        colour: col,
        shape_param: inner,
        normal: n0a,
        aa_offset: paa,
    };
    let cb = Vertex {
        position: Vec2(cc.0, bb.1),
        colour: col,
        shape_param: inner,
        normal: n0b,
        aa_offset: pab,
    };
    let da = Vertex {
        position: Vec2(dd.0, aa.1),
        colour: col,
        shape_param: inner,
        normal: n0a,
        aa_offset: pba,
    };
    let db = Vertex {
        position: Vec2(dd.0, bb.1),
        colour: col,
        shape_param: inner,
        normal: n0b,
        aa_offset: pbb,
    };

    let aa = Vertex { position: aa, colour: col, shape_param: inner, normal: na, aa_offset: paa };
    let bb = Vertex { position: bb, colour: col, shape_param: inner, normal: nb, aa_offset: pbb };
    let cc = Vertex { position: cc, colour: col, shape_param: inner, normal: n0, aa_offset: paa };
    let dd = Vertex { position: dd, colour: col, shape_param: inner, normal: n0, aa_offset: pbb };

    // top bar: ba - dc - cc - aa
    push_triangle(out, ba, dc, da);
    push_triangle(out, da, dc, ca);
    push_triangle(out, dc, cc, ca);
    push_triangle(out, ca, cc, aa);
    // left bar: aa - cc - cd - ab
    push_triangle(out, aa, cc, ac);
    push_triangle(out, ac, cc, cd);
    push_triangle(out, ac, cd, ad);
    push_triangle(out, ad, cd, ab);
    // bottom bar: ab - cd - dd - bb
    push_triangle(out, ab, cd, cb);
    push_triangle(out, cb, cd, dd);
    push_triangle(out, cb, dd, db);
    push_triangle(out, db, dd, bb);
    // right bar: bb - dd - dc - ba
    push_triangle(out, bb, dd, bd);
    push_triangle(out, bd, dd, dc);
    push_triangle(out, bd, dc, bc);
    push_triangle(out, bc, dc, ba);
    assert(out@ =~= old(out)@ + seq![
        ba, dc, da,
        da, dc, ca,
        dc, cc, ca,
        ca, cc, aa,
        aa, cc, ac,
        ac, cc, cd,
        ac, cd, ad,
        ad, cd, ab,
        ab, cd, cb,
        cb, cd, dd,
        cb, dd, db,
        db, dd, bb,
        bb, dd, bd,
        bd, dd, dc,
        bd, dc, bc,
        bc, dc, ba,
    ]);
}

fn push_triangle(out: &mut Vec<Vertex>, a: Vertex, b: Vertex, c: Vertex)
    ensures
        final(out)@ == old(out)@.push(a).push(b).push(c),
{
    out.push(a);
    out.push(b);
    out.push(c);
}

impl FlatRound {
    /// Construct, for a surface of the given size
    pub fn new(size: Size) -> (pipe: Self)
        ensures
            pipe@ == (FlatRoundView { scale: scale_of(size), passes: Seq::empty() }),
    {
        FlatRound { scale: scale_for(size), passes: Passes::new() }
    }

    /// Takes note of the new size of the surface. Returns the scale factors
    /// that the vertex stage is to use from now on.
    pub fn resize(&mut self, size: Size) -> (scale: Ratio2)
        ensures
            final(self)@ == old(self)@.resize(size),
            scale == scale_of(size),
    {
        self.scale = scale_for(size);
        self.scale
    }

    /// Hands over the triangles queued for `pass` and clears the queue.
    /// Where no queue exists for `pass`, there is nothing to draw.
    pub fn render(&mut self, pass: usize) -> (batch: Option<Batch<Vertex>>)
        ensures
            final(self)@ == old(self)@.render(pass as int),
            final(self)@.queued(pass as int).len() == 0,
            batch_view(batch) == old(self)@.batch(pass as int),
    {
        match self.passes.take(pass) {
            Some(vertices) => Some(Batch { scale: self.scale, vertices }),
            None => None,
        }
    }

    /// The number of vertices queued for `pass`.
    pub fn count(&self, pass: usize) -> (n: usize)
        ensures
            n == self@.queued(pass as int).len(),
    {
        self.passes.count(pass)
    }

    /// Queues a line of half-width `radius` from `p1` to `p2`, with round
    /// caps. A line without length is a disc.
    pub fn line(&mut self, pass: usize, p1: Coord, p2: Coord, radius: i32, col: Colour)
        requires
            pass + GROWTH <= usize::MAX,
        ensures
            final(self)@ == old(self)@.line(pass as int, p1, p2, radius, col),
    {
        if p1.0 == p2.0 && p1.1 == p2.1 {
            let side: i64 = if radius <= 0 {
                0
            } else {
                (2 * (radius as i64)) / UNIT
            };
            if side == 0 {
                return ;
            }
            let r: i64 = whole(radius) as i64;
            let aa = Vec2((p1.0 as i64 - r) * UNIT, (p1.1 as i64 - r) * UNIT);
            let bb = Vec2((p1.0 as i64 - r + side) * UNIT, (p1.1 as i64 - r + side) * UNIT);
            let mut verts: Vec<Vertex> = Vec::with_capacity(12);
            push_disc(&mut verts, aa, bb, clamp_unit(radius as i64), Rgb::from(col));
            assert(verts@ =~= line_vertices(p1, p2, radius, col));
            self.add_vertices(pass, verts.as_slice());
            return ;
        }
        let mut verts: Vec<Vertex> = Vec::with_capacity(30);
        push_capsule(
            &mut verts,
            Vec2::from(p1),
            Vec2::from(p2),
            axis_for(p1, p2, radius),
            radius,
            Rgb::from(col),
        );
        self.add_vertices(pass, verts.as_slice());
    }

    /// Queues a disc or ring inscribed in `rect`. The inner radius is a
    /// fraction of the outer and is limited to the range from zero to one.
    /// A rectangle without interior has nothing drawn.
    pub fn circle(&mut self, pass: usize, rect: Rect, inner_radius: i64, col: Colour)
        requires
            pass + GROWTH <= usize::MAX,
        ensures
            final(self)@ == old(self)@.circle(pass as int, rect, inner_radius, col),
    {
        let aa = Vec2::from(rect.pos);
        let bb = aa + Vec2::from(rect.size);

        if !aa.lt(bb) {
            // zero size: nothing to draw
            return ;
        }
        let inner = clamp_unit(inner_radius);

        let mut verts: Vec<Vertex> = Vec::with_capacity(12);
        push_disc(&mut verts, aa, bb, inner, Rgb::from(col));
        assert(verts@ =~= circle_vertices(rect, inner_radius, col));
        self.add_vertices(pass, verts.as_slice());
    }

    /// Queues the frame between `outer` and `inner`, with rounded corners.
    /// The inner radius is a fraction of the outer and is limited to the
    /// range from zero to one. In each dimension in which `inner` does not
    /// lie within `outer`, the inner rectangle collapses to `outer`'s
    /// top-left corner. An outer rectangle without interior has nothing drawn.
    pub fn rounded_frame(
        &mut self,
        pass: usize,
        outer: Rect,
        inner: Rect,
        inner_radius: i64,
        col: Colour,
    )
        requires
            pass + GROWTH <= usize::MAX,
        ensures
            final(self)@ == old(self)@.rounded_frame(pass as int, outer, inner, inner_radius, col),
    {
        let aa = Vec2::from(outer.pos);
        let bb = aa + Vec2::from(outer.size);

        if !aa.lt(bb) {
            // zero size: nothing to draw
            return ;
        }
        let (cc, dd) = inner_corners(outer, inner);
        let shape_param = clamp_unit(inner_radius);

        let mut verts: Vec<Vertex> = Vec::with_capacity(48);
        push_frame(&mut verts, aa, bb, cc, dd, shape_param, Rgb::from(col));
        assert(verts@ =~= frame_vertices(outer, inner, inner_radius, col));
        self.add_vertices(pass, verts.as_slice());
    }

    fn add_vertices(&mut self, pass: usize, slice: &[Vertex])
        requires
            pass + GROWTH <= usize::MAX,
        ensures
            final(self)@ == (FlatRoundView {
                scale: old(self)@.scale,
                passes: appended(old(self)@.passes, pass as int, slice@),
            }),
    {
        self.passes.add_vertices(pass, slice);
    }
}

/// An inner radius below zero or above one draws the circle that the
/// nearest radius within that range draws.
pub proof fn lemma_circle_clamps_inner_radius(
    pipe: FlatRoundView,
    pass: int,
    rect: Rect,
    inner_radius: i64,
    col: Colour,
)
    ensures
        pipe.circle(pass, rect, inner_radius, col) == pipe.circle(
            pass,
            rect,
            clamp_unit_spec(inner_radius as int) as i64,
            col,
        ),
{
}

/// An inner radius below zero or above one draws the rounded frame that the
/// nearest radius within that range draws.
pub proof fn lemma_rounded_frame_clamps_inner_radius(
    pipe: FlatRoundView,
    pass: int,
    outer: Rect,
    inner: Rect,
    inner_radius: i64,
    col: Colour,
)
    ensures
        pipe.rounded_frame(pass, outer, inner, inner_radius, col) == pipe.rounded_frame(
            pass,
            outer,
            inner,
            clamp_unit_spec(inner_radius as int) as i64,
            col,
        ),
{
}

/// A circle in a rectangle of no width or no height queues no vertex and
/// leaves the pipeline as it was.
pub proof fn lemma_circle_in_empty_rect(
    pipe: FlatRoundView,
    pass: int,
    rect: Rect,
    inner_radius: i64,
    col: Colour,
)
    requires
        rect.size.0 == 0 || rect.size.1 == 0,
    ensures
        circle_vertices(rect, inner_radius, col).len() == 0,
        pipe.circle(pass, rect, inner_radius, col) == pipe,
{
}

/// A line from a point to itself queues the vertices of the circle in the
/// square of side twice the radius around the point, with the radius as its
/// inner radius.
pub proof fn lemma_line_without_length_is_circle(
    pipe: FlatRoundView,
    pass: int,
    p: Coord,
    radius: i32,
    col: Colour,
    rect: Rect,
)
    requires
        rect.pos.0 == p.0 - whole_spec(radius as int),
        rect.pos.1 == p.1 - whole_spec(radius as int),
        rect.size.0 == dot_side(radius),
        rect.size.1 == dot_side(radius),
    ensures
        line_vertices(p, p, radius, col) == circle_vertices(rect, radius as i64, col),
        pipe.line(pass, p, p, radius, col) == pipe.circle(pass, rect, radius as i64, col),
{
    assert(px(dot_origin(p.0, radius) + dot_side(radius)) == px(rect.pos.0 + rect.size.0));
    assert(px(dot_origin(p.1, radius) + dot_side(radius)) == px(rect.pos.1 + rect.size.1));
}

/// A line between two different points queues ten triangles, whatever its
/// length and radius.
pub proof fn lemma_line_queues_ten_triangles(p1: Coord, p2: Coord, radius: i32, col: Colour)
    requires
        p1 != p2,
    ensures
        line_vertices(p1, p2, radius, col).len() == 30,
{
}

/// A circle in a rectangle with an interior queues four triangles.
pub proof fn lemma_circle_queues_four_triangles(rect: Rect, inner_radius: i64, col: Colour)
    requires
        rect.size.0 > 0,
        rect.size.1 > 0,
    ensures
        circle_vertices(rect, inner_radius, col).len() == 12,
{
}

/// A rounded frame whose outer rectangle has an interior queues sixteen
/// triangles, wherever the inner rectangle lies.
pub proof fn lemma_rounded_frame_queues_sixteen_triangles(
    outer: Rect,
    inner: Rect,
    inner_radius: i64,
    col: Colour,
)
    requires
        outer.size.0 > 0,
        outer.size.1 > 0,
    ensures
        frame_vertices(outer, inner, inner_radius, col).len() == 48,
{
}

/// Where the inner rectangle has an interior that lies wholly to one side
/// of the outer rectangle, the frame's inner rectangle has no area: in that
/// dimension it collapses to the outer rectangle's top-left corner. Where it
/// misses the outer rectangle in both dimensions, it is that corner. The
/// frame still has its sixteen triangles.
pub proof fn lemma_rounded_frame_inner_outside(
    outer: Rect,
    inner: Rect,
    inner_radius: i64,
    col: Colour,
)
    requires
        outer.size.0 > 0,
        outer.size.1 > 0,
        inner.size.0 > 0,
        inner.size.1 > 0,
        inner.x1() <= outer.x0() || outer.x1() <= inner.x0() || inner.y1() <= outer.y0()
            || outer.y1() <= inner.y0(),
    ensures
        frame_vertices(outer, inner, inner_radius, col).len() == 48,
        inner.x1() <= outer.x0() || outer.x1() <= inner.x0() ==> inner_cc(outer, inner).0
            == corner_aa(outer).0 && inner_dd(outer, inner).0 == corner_aa(outer).0,
        inner.y1() <= outer.y0() || outer.y1() <= inner.y0() ==> inner_cc(outer, inner).1
            == corner_aa(outer).1 && inner_dd(outer, inner).1 == corner_aa(outer).1,
        (inner.x1() <= outer.x0() || outer.x1() <= inner.x0()) && (inner.y1() <= outer.y0()
            || outer.y1() <= inner.y0()) ==> inner_cc(outer, inner) == corner_aa(outer)
            && inner_dd(outer, inner) == corner_aa(outer),
{
}

/// Once a pass is rendered, nothing is queued for it.
pub proof fn lemma_render_empties_queue(pipe: FlatRoundView, pass: int)
    ensures
        pipe.render(pass).queued(pass).len() == 0,
        pipe.render(pass).scale == pipe.scale,
        forall|other: int| other != pass ==> pipe.render(pass).queued(other) == pipe.queued(other),
{
}

} // verus!
