use kas_wgpu::colour::Colour;
use kas_wgpu::draw::flat_round::{FlatRound, Vertex};
use kas_wgpu::draw::Batch;
use kas_wgpu::geom::{Coord, Rect, Size};
use kas_wgpu::vertex::{Ratio2, Rgb, Vec2};

const U: i64 = 65536;

fn colour() -> Colour {
    Colour { r: 100, g: 200, b: 300, a: 400 }
}

fn rgb() -> Rgb {
    Rgb { r: 100, g: 200, b: 300 }
}

fn rect(x: i32, y: i32, w: u32, h: u32) -> Rect {
    Rect { pos: Coord(x, y), size: Size(w, h) }
}

fn vertex(position: (i64, i64), shape_param: i64, normal: (i64, i64), num: (i64, i64), den: (i64, i64)) -> Vertex {
    Vertex {
        position: Vec2(position.0, position.1),
        colour: rgb(),
        shape_param,
        normal: Vec2(normal.0, normal.1),
        aa_offset: Ratio2 { num: Vec2(num.0, num.1), den: Vec2(den.0, den.1) },
    }
}

fn drawn(pipe: &mut FlatRound, pass: usize) -> Vec<Vertex> {
    match pipe.render(pass) {
        Some(batch) => batch.vertices,
        None => panic!("no queue for pass {}", pass),
    }
}

#[test]
fn circle_is_a_fan_of_four_triangles() {
    let mut pipe = FlatRound::new(Size(640, 480));
    pipe.circle(0, rect(0, 0, 10, 20), 0, colour());
    assert_eq!(pipe.count(0), 12);
    let p = ((8192, 8192), (5 * U, 10 * U));
    let aa = vertex((0, 0), 0, (-U, -U), p.0, p.1);
    let ab = vertex((0, 20 * U), 0, (-U, U), p.0, p.1);
    let ba = vertex((10 * U, 0), 0, (U, -U), p.0, p.1);
    let bb = vertex((10 * U, 20 * U), 0, (U, U), p.0, p.1);
    let mid = vertex((5 * U, 10 * U), 0, (0, 0), p.0, p.1);
    assert_eq!(drawn(&mut pipe, 0), vec![ba, mid, aa, bb, mid, ba, ab, mid, bb, aa, mid, ab]);
}

#[test]
fn circle_midpoint_of_odd_rect_lies_between_pixels() {
    let mut pipe = FlatRound::new(Size(640, 480));
    pipe.circle(0, rect(-3, 1, 1, 3), 32768, colour());
    let v = drawn(&mut pipe, 0);
    assert_eq!(v[1], vertex((-3 * U + 32768, 2 * U + 32768), 32768, (0, 0), (8192, 8192), (32768, 98304)));
}

#[test]
fn circle_without_interior_queues_nothing() {
    let mut pipe = FlatRound::new(Size(640, 480));
    pipe.circle(0, rect(0, 0, 0, 10), 0, colour());
    pipe.circle(0, rect(0, 0, 10, 0), 0, colour());
    pipe.circle(3, rect(5, 5, 0, 0), 0, colour());
    assert_eq!(pipe.count(0), 0);
    assert_eq!(pipe.count(3), 0);
    // not even a queue was made
    assert_eq!(pipe.render(0), None);
    assert_eq!(pipe.render(3), None);
}

#[test]
fn circle_clamps_inner_radius() {
    let mut a = FlatRound::new(Size(640, 480));
    let mut b = FlatRound::new(Size(640, 480));
    a.circle(0, rect(1, 2, 30, 40), 70000, colour());
    b.circle(0, rect(1, 2, 30, 40), U, colour());
    let va = drawn(&mut a, 0);
    assert_eq!(va[0].shape_param, U);
    assert_eq!(va, drawn(&mut b, 0));

    a.circle(0, rect(1, 2, 30, 40), -5, colour());
    b.circle(0, rect(1, 2, 30, 40), 0, colour());
    let va = drawn(&mut a, 0);
    assert_eq!(va[0].shape_param, 0);
    assert_eq!(va, drawn(&mut b, 0));

    a.circle(0, rect(1, 2, 30, 40), 12345, colour());
    assert_eq!(drawn(&mut a, 0)[0].shape_param, 12345);
}

#[test]
fn line_is_a_capsule_of_ten_triangles() {
    let mut pipe = FlatRound::new(Size(640, 480));
    // a segment of length five; the radius is five as well
    pipe.line(0, Coord(0, 0), Coord(3, 4), 5 * 65536, colour());
    assert_eq!(pipe.count(0), 30);
    let p = ((8192, 8192), (5 * U, 5 * U));
    // along the segment: (3, 4); across: (-4, 3)
    let c1 = vertex((0, 0), 0, (0, 0), p.0, p.1);
    let c2 = vertex((3 * U, 4 * U), 0, (0, 0), p.0, p.1);
    let ma1 = vertex((4 * U, -3 * U), 0, (0, -U), p.0, p.1);
    let mb1 = vertex((-4 * U, 3 * U), 0, (0, U), p.0, p.1);
    let aa1 = vertex((U, -7 * U), 0, (U, -U), p.0, p.1);
    let ab1 = vertex((-7 * U, -U), 0, (U, U), p.0, p.1);
    let ma2 = vertex((7 * U, U), 0, (0, -U), p.0, p.1);
    let mb2 = vertex((-U, 7 * U), 0, (0, U), p.0, p.1);
    let ba2 = vertex((10 * U, 5 * U), 0, (-U, -U), p.0, p.1);
    let bb2 = vertex((2 * U, 11 * U), 0, (-U, U), p.0, p.1);
    assert_eq!(
        drawn(&mut pipe, 0),
        vec![
            ab1, c1, mb1, aa1, c1, ab1, ma1, c1, aa1, mb1, c1, mb2, mb2, c1, c2, mb2, c2, bb2,
            bb2, c2, ba2, ba2, c2, ma2, ma2, c2, c1, c1, ma1, ma2,
        ]
    );
}

#[test]
fn line_axis_is_rounded_toward_zero() {
    let mut pipe = FlatRound::new(Size(640, 480));
    // the diagonal of the unit square has the length 92681 / 65536
    pipe.line(0, Coord(0, 0), Coord(1, 1), 65536, colour());
    let v = drawn(&mut pipe, 0);
    // 65536 * 65536 / 92681 = 46341.1...
    let k = 46341;
    // c1, then mb1 = c1 + across, where across = (-k, k)
    assert_eq!(v[1].position, Vec2(0, 0));
    assert_eq!(v[2].position, Vec2(-k, k));
    // ab1 = mb1 - along
    assert_eq!(v[0].position, Vec2(-2 * k, 0));

    // the same line backwards: along = (-k, -k)
    pipe.line(0, Coord(1, 1), Coord(0, 0), 65536, colour());
    let v = drawn(&mut pipe, 0);
    assert_eq!(v[1].position, Vec2(U, U));
    assert_eq!(v[2].position, Vec2(U + k, U - k));
}

#[test]
fn line_has_thirty_vertices_whatever_length_and_radius() {
    let mut pipe = FlatRound::new(Size(640, 480));
    pipe.line(0, Coord(0, 0), Coord(1, 0), 1, colour());
    pipe.line(1, Coord(i32::MIN, i32::MIN), Coord(i32::MAX, i32::MAX), i32::MAX, colour());
    pipe.line(2, Coord(i32::MAX, i32::MIN), Coord(i32::MIN, i32::MAX), i32::MIN, colour());
    pipe.line(3, Coord(-7, 9), Coord(-7, 10), 0, colour());
    pipe.line(4, Coord(5, 5), Coord(4, 5), -65536, colour());
    for pass in 0..5 {
        assert_eq!(pipe.count(pass), 30);
    }
    // a radius of zero leaves no finite width for the soft edge
    let v = drawn(&mut pipe, 3);
    assert_eq!(v[0].aa_offset, Ratio2 { num: Vec2(8192, 8192), den: Vec2(0, 0) });
}

#[test]
fn line_without_length_is_a_circle() {
    let mut a = FlatRound::new(Size(640, 480));
    let mut b = FlatRound::new(Size(640, 480));
    // radius two and a half
    let radius = 2 * 65536 + 32768;
    a.line(0, Coord(10, 20), Coord(10, 20), radius, colour());
    b.circle(0, rect(8, 18, 5, 5), radius as i64, colour());
    let va = drawn(&mut a, 0);
    assert_eq!(va.len(), 12);
    assert_eq!(va[1].position, Vec2(10 * U + 32768, 20 * U + 32768));
    assert_eq!(va[1].shape_param, U);
    assert_eq!(va, drawn(&mut b, 0));
}

#[test]
fn line_without_length_and_small_radius_queues_nothing() {
    let mut pipe = FlatRound::new(Size(640, 480));
    pipe.line(0, Coord(10, 20), Coord(10, 20), 32767, colour());
    pipe.line(0, Coord(10, 20), Coord(10, 20), 0, colour());
    pipe.line(0, Coord(10, 20), Coord(10, 20), -3 * 65536, colour());
    assert_eq!(pipe.render(0), None);
    pipe.line(0, Coord(10, 20), Coord(10, 20), 32768, colour());
    assert_eq!(pipe.count(0), 12);
}

#[test]
fn line_without_length_at_the_edge_of_the_coordinates() {
    let mut pipe = FlatRound::new(Size(640, 480));
    pipe.line(0, Coord(i32::MIN, i32::MAX), Coord(i32::MIN, i32::MAX), i32::MAX, colour());
    let v = drawn(&mut pipe, 0);
    assert_eq!(v.len(), 12);
    // the square reaches from 32767 pixels before the point to 32768 past it
    let x0 = (i32::MIN as i64 - 32767) * U;
    let y0 = (i32::MAX as i64 - 32767) * U;
    assert_eq!(v[2].position, Vec2(x0, y0));
    assert_eq!(v[3].position, Vec2(x0 + 65535 * U, y0 + 65535 * U));
}

#[test]
fn rounded_frame_has_sixteen_triangles() {
    let mut pipe = FlatRound::new(Size(640, 480));
    pipe.rounded_frame(0, rect(0, 0, 100, 50), rect(10, 5, 80, 40), 32768, colour());
    let v = drawn(&mut pipe, 0);
    assert_eq!(v.len(), 48);
    let s = 32768;
    let paa = ((-8192, -8192), (-10 * U, -5 * U));
    let pab = ((-8192, 8192), (-10 * U, 5 * U));
    let pba = ((8192, -8192), (10 * U, -5 * U));
    let pbb = ((8192, 8192), (10 * U, 5 * U));
    let aa = vertex((0, 0), s, (-U, -U), paa.0, paa.1);
    let ab = vertex((0, 50 * U), s, (-U, U), pab.0, pab.1);
    let ba = vertex((100 * U, 0), s, (U, -U), pba.0, pba.1);
    let bb = vertex((100 * U, 50 * U), s, (U, U), pbb.0, pbb.1);
    let cc = vertex((10 * U, 5 * U), s, (0, 0), paa.0, paa.1);
    let cd = vertex((10 * U, 45 * U), s, (0, 0), pab.0, pab.1);
    let dc = vertex((90 * U, 5 * U), s, (0, 0), pba.0, pba.1);
    let dd = vertex((90 * U, 45 * U), s, (0, 0), pbb.0, pbb.1);
    let ac = vertex((0, 5 * U), s, (-U, 0), paa.0, paa.1);
    let ad = vertex((0, 45 * U), s, (-U, 0), pab.0, pab.1);
    let bc = vertex((100 * U, 5 * U), s, (U, 0), pba.0, pba.1);
    let bd = vertex((100 * U, 45 * U), s, (U, 0), pbb.0, pbb.1);
    let ca = vertex((10 * U, 0), s, (0, -U), paa.0, paa.1);
    let cb = vertex((10 * U, 50 * U), s, (0, U), pab.0, pab.1);
    let da = vertex((90 * U, 0), s, (0, -U), pba.0, pba.1);
    let db = vertex((90 * U, 50 * U), s, (0, U), pbb.0, pbb.1);
    assert_eq!(
        v,
        vec![
            ba, dc, da, da, dc, ca, dc, cc, ca, ca, cc, aa, // top
            aa, cc, ac, ac, cc, cd, ac, cd, ad, ad, cd, ab, // left
            ab, cd, cb, cb, cd, dd, cb, dd, db, db, dd, bb, // bottom
            bb, dd, bd, bd, dd, dc, bd, dc, bc, bc, dc, ba, // right
        ]
    );
}

#[test]
fn rounded_frame_clamps_inner_radius() {
    let mut a = FlatRound::new(Size(640, 480));
    let mut b = FlatRound::new(Size(640, 480));
    a.rounded_frame(0, rect(0, 0, 100, 50), rect(10, 5, 80, 40), i64::MAX, colour());
    b.rounded_frame(0, rect(0, 0, 100, 50), rect(10, 5, 80, 40), U, colour());
    assert_eq!(drawn(&mut a, 0), drawn(&mut b, 0));
    a.rounded_frame(0, rect(0, 0, 100, 50), rect(10, 5, 80, 40), i64::MIN, colour());
    b.rounded_frame(0, rect(0, 0, 100, 50), rect(10, 5, 80, 40), 0, colour());
    assert_eq!(drawn(&mut a, 0), drawn(&mut b, 0));
}

#[test]
fn rounded_frame_with_inner_outside_collapses_to_the_corner() {
    let mut pipe = FlatRound::new(Size(640, 480));
    pipe.rounded_frame(0, rect(10, 20, 100, 50), rect(200, 200, 10, 10), 0, colour());
    let v = drawn(&mut pipe, 0);
    assert_eq!(v.len(), 48);
    // dc, cc, ca are the corners of the third triangle: all inner corners
    // lie at the outer rectangle's top-left corner
    assert_eq!(v[6].position, Vec2(10 * U, 20 * U));
    assert_eq!(v[7].position, Vec2(10 * U, 20 * U));
    // cd and dd
    assert_eq!(v[17].position, Vec2(10 * U, 20 * U));
    assert_eq!(v[29].position, Vec2(10 * U, 20 * U));
    // the inner corner is no distance from the outer one
    assert_eq!(v[7].aa_offset, Ratio2 { num: Vec2(-8192, -8192), den: Vec2(0, 0) });
}

#[test]
fn rounded_frame_collapses_in_the_offending_dimension_only() {
    let mut pipe = FlatRound::new(Size(640, 480));
    // to the right of the outer rectangle, but within its height
    pipe.rounded_frame(0, rect(0, 0, 100, 50), rect(200, 5, 10, 40), 0, colour());
    let v = drawn(&mut pipe, 0);
    assert_eq!(v.len(), 48);
    assert_eq!(v[7].position, Vec2(0, 5 * U)); // cc
    assert_eq!(v[29].position, Vec2(0, 45 * U)); // dd
    // overlapping the left edge
    pipe.rounded_frame(0, rect(0, 0, 100, 50), rect(-1, 5, 10, 40), 0, colour());
    let v = drawn(&mut pipe, 0);
    assert_eq!(v[7].position, Vec2(0, 5 * U));
    assert_eq!(v[29].position, Vec2(0, 45 * U));
    // reaching past the bottom edge
    pipe.rounded_frame(0, rect(0, 0, 100, 50), rect(10, 5, 80, 46), 0, colour());
    let v = drawn(&mut pipe, 0);
    assert_eq!(v[7].position, Vec2(10 * U, 0));
    assert_eq!(v[29].position, Vec2(90 * U, 0));
    // touching the outer rectangle from within is no offence
    pipe.rounded_frame(0, rect(0, 0, 100, 50), rect(0, 0, 100, 50), 0, colour());
    let v = drawn(&mut pipe, 0);
    assert_eq!(v[7].position, Vec2(0, 0));
    assert_eq!(v[29].position, Vec2(100 * U, 50 * U));
}

#[test]
fn rounded_frame_without_outer_interior_queues_nothing() {
    let mut pipe = FlatRound::new(Size(640, 480));
    pipe.rounded_frame(0, rect(0, 0, 0, 50), rect(0, 5, 0, 40), 0, colour());
    pipe.rounded_frame(0, rect(0, 0, 100, 0), rect(10, 0, 80, 0), 0, colour());
    assert_eq!(pipe.render(0), None);
}

#[test]
fn render_hands_over_the_queue_and_empties_it() {
    let mut pipe = FlatRound::new(Size(640, 480));
    pipe.circle(1, rect(0, 0, 10, 10), 0, colour());
    pipe.line(1, Coord(0, 0), Coord(5, 0), 65536, colour());
    assert_eq!(pipe.count(1), 42);
    let batch = pipe.render(1).unwrap();
    assert_eq!(batch.vertices.len(), 42);
    assert_eq!(batch.scale, Ratio2 { num: Vec2(2 * U, 2 * U), den: Vec2(640 * U, 480 * U) });
    assert_eq!(pipe.count(1), 0);
    // the queue is still there, and empty
    assert_eq!(pipe.render(1), Some(Batch { scale: batch.scale, vertices: vec![] }));
    // pass 0 got a queue when the list grew; pass 9 has none
    assert_eq!(pipe.render(0).map(|b| b.vertices.len()), Some(0));
    assert_eq!(pipe.render(8).map(|b| b.vertices.len()), Some(0));
    assert_eq!(pipe.render(9), None);
}

#[test]
fn resize_changes_the_scale_of_later_batches() {
    let mut pipe = FlatRound::new(Size(640, 480));
    pipe.circle(0, rect(0, 0, 10, 10), 0, colour());
    let scale = pipe.resize(Size(800, 600));
    assert_eq!(scale, Ratio2 { num: Vec2(2 * U, 2 * U), den: Vec2(800 * U, 600 * U) });
    let scale = pipe.resize(Size(1024, 768));
    assert_eq!(scale, Ratio2 { num: Vec2(2 * U, 2 * U), den: Vec2(1024 * U, 768 * U) });
    let batch = pipe.render(0).unwrap();
    assert_eq!(batch.scale, scale);
    assert_eq!(batch.vertices.len(), 12);
}
