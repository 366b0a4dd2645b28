use kas_wgpu::colour::Colour;
use kas_wgpu::draw::draw_pipe::{Draw, Frame, Pass};
use kas_wgpu::draw::shaded_square::Light;
use kas_wgpu::draw::{CustomPipe, CustomPipeBuilder, DrawCustom, DrawPipe, LoadOp, Region};
use kas_wgpu::geom::{Coord, Rect, Size};
use kas_wgpu::vertex::{Ratio2, Vec2};

const U: i64 = 65536;

fn colour() -> Colour {
    Colour { r: 1, g: 2, b: 3, a: 4 }
}

fn rect(x: i32, y: i32, w: u32, h: u32) -> Rect {
    Rect { pos: Coord(x, y), size: Size(w, h) }
}

fn pipe(w: u32, h: u32) -> DrawPipe<()> {
    DrawPipe::new(&mut (), Size(w, h), Light(0, 0, U))
}

/// The numbers of vertices that the three pipelines draw in a pass.
fn counts<B>(pass: &Pass<B>) -> (Option<usize>, Option<usize>, Option<usize>) {
    assert_eq!(pass.draws.len(), 4);
    let square = match &pass.draws[0] {
        Draw::ShadedSquare(b) => b.as_ref().map(|b| b.vertices.len()),
        _ => panic!("the square pipeline draws first"),
    };
    let round = match &pass.draws[1] {
        Draw::ShadedRound(b) => b.as_ref().map(|b| b.vertices.len()),
        _ => panic!("the round pipeline draws second"),
    };
    assert!(matches!(&pass.draws[2], Draw::Custom(_)), "the custom pipe draws third");
    let flat = match &pass.draws[3] {
        Draw::FlatRound(b) => b.as_ref().map(|b| b.vertices.len()),
        _ => panic!("the rounded flat pipeline draws last"),
    };
    (square, round, flat)
}

#[test]
fn end_to_end_two_regions() {
    let mut dp = pipe(640, 480);
    let region = dp.add_clip_region(rect(0, 0, 100, 100));
    assert_eq!(region, Region(1));
    dp.rect(Region(0), rect(5, 5, 10, 10), colour());
    dp.circle(region, rect(0, 0, 100, 100), 0, colour());

    let clear = Colour { r: 9, g: 8, b: 7, a: 6 };
    let frame: Frame<()> = dp.render(clear);
    assert_eq!(frame.clear_colour, clear);
    assert_eq!(frame.passes.len(), 2);
    assert_eq!(frame.passes[0].scissor, rect(0, 0, 640, 480));
    assert_eq!(frame.passes[0].load_op, LoadOp::Clear);
    assert_eq!(frame.passes[1].scissor, rect(0, 0, 100, 100));
    assert_eq!(frame.passes[1].load_op, LoadOp::Load);
    // one text pass, over the whole surface
    assert_eq!(frame.text, Size(640, 480));
    assert_eq!(counts(&frame.passes[0]), (Some(6), None, Some(0)));
    assert_eq!(counts(&frame.passes[1]), (Some(0), None, Some(12)));

    // the next frame starts clean
    let frame = dp.render(clear);
    assert_eq!(frame.passes.len(), 1);
    assert_eq!(frame.passes[0].scissor, rect(0, 0, 640, 480));
    assert_eq!(frame.passes[0].load_op, LoadOp::Clear);
    assert_eq!(counts(&frame.passes[0]), (Some(0), None, Some(0)));
}

#[test]
fn new_pipe_renders_one_empty_pass() {
    let mut dp = pipe(1, 2);
    let frame = dp.render(colour());
    assert_eq!(frame.passes.len(), 1);
    assert_eq!(frame.passes[0].scissor, rect(0, 0, 1, 2));
    assert_eq!(frame.passes[0].load_op, LoadOp::Clear);
    assert_eq!(counts(&frame.passes[0]), (None, None, None));
    assert_eq!(frame.text, Size(1, 2));
}

#[test]
fn region_handles_count_up_and_start_over() {
    let mut dp = pipe(640, 480);
    assert_eq!(dp.add_clip_region(rect(1, 1, 1, 1)), Region(1));
    assert_eq!(dp.add_clip_region(rect(2, 2, 2, 2)), Region(2));
    // a region is not held to lie within the surface
    assert_eq!(dp.add_clip_region(rect(-5, 1000, 7, 0)), Region(3));
    let frame = dp.render(colour());
    assert_eq!(frame.passes.len(), 4);
    let scissors: Vec<Rect> = frame.passes.iter().map(|p| p.scissor).collect();
    assert_eq!(
        scissors,
        vec![rect(0, 0, 640, 480), rect(1, 1, 1, 1), rect(2, 2, 2, 2), rect(-5, 1000, 7, 0)]
    );
    let ops: Vec<LoadOp> = frame.passes.iter().map(|p| p.load_op).collect();
    assert_eq!(ops, vec![LoadOp::Clear, LoadOp::Load, LoadOp::Load, LoadOp::Load]);
    // after the frame only the whole surface is left
    assert_eq!(dp.add_clip_region(rect(3, 3, 3, 3)), Region(1));
    assert_eq!(dp.render(colour()).passes.len(), 2);
    assert_eq!(dp.render(colour()).passes.len(), 1);
}

#[test]
fn each_call_reaches_its_pipeline() {
    let mut dp = pipe(640, 480);
    let r = Region(0);
    let outer = rect(0, 0, 100, 50);
    let inner = rect(10, 5, 80, 40);
    dp.rect(r, outer, colour());
    assert_eq!(counts(&dp.render(colour()).passes[0]), (Some(6), None, None));
    dp.frame(r, outer, inner, colour());
    assert_eq!(counts(&dp.render(colour()).passes[0]), (Some(24), None, None));
    dp.shaded_square(r, outer, (U, 0), colour());
    assert_eq!(counts(&dp.render(colour()).passes[0]), (Some(12), None, None));
    dp.shaded_square_frame(r, outer, inner, (U, 0), colour());
    assert_eq!(counts(&dp.render(colour()).passes[0]), (Some(24), None, None));
    dp.shaded_circle(r, outer, (U, 0), colour());
    assert_eq!(counts(&dp.render(colour()).passes[0]), (Some(0), Some(12), None));
    dp.shaded_round_frame(r, outer, inner, (U, 0), colour());
    assert_eq!(counts(&dp.render(colour()).passes[0]), (Some(0), Some(48), None));
    dp.rounded_line(r, Coord(0, 0), Coord(10, 0), U as i32, colour());
    assert_eq!(counts(&dp.render(colour()).passes[0]), (Some(0), Some(0), Some(30)));
    dp.circle(r, outer, 0, colour());
    assert_eq!(counts(&dp.render(colour()).passes[0]), (Some(0), Some(0), Some(12)));
    dp.rounded_frame(r, outer, inner, 0, colour());
    assert_eq!(counts(&dp.render(colour()).passes[0]), (Some(0), Some(0), Some(48)));
}

#[test]
fn shaded_calls_hand_on_the_tilt() {
    let mut dp = pipe(640, 480);
    dp.shaded_square(Region(0), rect(0, 0, 10, 10), (300, 200), colour());
    dp.shaded_circle(Region(0), rect(0, 0, 10, 10), (-300, -200), colour());
    let frame = dp.render(colour());
    match &frame.passes[0].draws[0] {
        Draw::ShadedSquare(Some(b)) => {
            assert_eq!(b.vertices[0].normal, Vec2(0, -300));
            assert_eq!(b.vertices[1].normal, Vec2(0, -200));
        }
        _ => panic!("no batch"),
    }
    match &frame.passes[0].draws[1] {
        Draw::ShadedRound(Some(b)) => assert_eq!(b.vertices[0].tilt, Vec2(-300, -200)),
        _ => panic!("no batch"),
    }
}

#[test]
fn geometry_of_a_region_without_pass_waits_for_one() {
    let mut dp = pipe(640, 480);
    // drawn into pass 2, but the frame has only one region
    dp.circle(Region(2), rect(0, 0, 10, 10), 0, colour());
    let frame = dp.render(colour());
    assert_eq!(frame.passes.len(), 1);
    assert_eq!(counts(&frame.passes[0]), (None, None, Some(0)));
    dp.add_clip_region(rect(0, 0, 1, 1));
    dp.add_clip_region(rect(0, 0, 2, 2));
    let frame = dp.render(colour());
    assert_eq!(counts(&frame.passes[2]), (None, None, Some(12)));
}

#[test]
fn resize_sets_surface_and_scale() {
    let mut dp = pipe(640, 480);
    dp.add_clip_region(rect(0, 0, 1, 1));
    dp.rect(Region(0), rect(0, 0, 10, 10), colour());
    dp.shaded_circle(Region(0), rect(0, 0, 10, 10), (0, 0), colour());
    dp.circle(Region(1), rect(0, 0, 10, 10), 0, colour());
    dp.resize(Size(100, 200));
    let scale = dp.resize(Size(800, 600));
    let expected = Ratio2 { num: Vec2(2 * U, 2 * U), den: Vec2(800 * U, 600 * U) };
    assert_eq!(scale, expected);
    let frame = dp.render(colour());
    assert_eq!(frame.passes.len(), 2);
    assert_eq!(frame.passes[0].scissor, rect(0, 0, 800, 600));
    assert_eq!(frame.passes[1].scissor, rect(0, 0, 1, 1));
    assert_eq!(frame.text, Size(800, 600));
    for pass in &frame.passes {
        for draw in &pass.draws {
            match draw {
                Draw::ShadedSquare(Some(b)) => assert_eq!(b.scale, expected),
                Draw::ShadedRound(Some(b)) => assert_eq!(b.scale, expected),
                Draw::FlatRound(Some(b)) => assert_eq!(b.scale, expected),
                Draw::Custom(()) => {}
                _ => panic!("every pipeline has a queue for both passes"),
            }
        }
    }
}

/// A custom pipe that keeps a record of the calls it gets.
struct Recorder {
    log: Vec<String>,
    queued: Vec<(usize, Rect, u32)>,
}

struct RecorderBuilder {
    built: u32,
}

impl CustomPipeBuilder for RecorderBuilder {
    type Pipe = Recorder;

    fn build(&mut self, size: Size) -> Recorder {
        self.built += 1;
        Recorder { log: vec![format!("build {}x{}", size.0, size.1)], queued: vec![] }
    }
}

impl CustomPipe for Recorder {
    type Param = u32;
    type Batch = Vec<(Rect, u32)>;

    fn resize(&mut self, size: Size) {
        self.log.push(format!("resize {}x{}", size.0, size.1));
    }

    fn invoke(&mut self, pass: usize, rect: Rect, param: u32) {
        self.queued.push((pass, rect, param));
    }

    fn render(&mut self, pass: usize) -> Vec<(Rect, u32)> {
        self.log.push(format!("render {}", pass));
        let batch = self.queued.iter().filter(|q| q.0 == pass).map(|q| (q.1, q.2)).collect();
        self.queued.retain(|q| q.0 != pass);
        batch
    }
}

#[test]
fn custom_pipe_is_built_invoked_resized_and_rendered() {
    let mut builder = RecorderBuilder { built: 0 };
    let mut dp: DrawPipe<Recorder> = DrawPipe::new(&mut builder, Size(640, 480), Light(0, 0, U));
    assert_eq!(builder.built, 1);
    let region = dp.add_clip_region(rect(0, 0, 50, 50));
    dp.custom(region, rect(1, 1, 1, 1), 11);
    dp.custom(Region(0), rect(2, 2, 2, 2), 22);
    dp.custom(region, rect(3, 3, 3, 3), 33);
    dp.rect(Region(0), rect(0, 0, 10, 10), colour());
    dp.resize(Size(800, 600));
    let frame = dp.render(colour());
    assert_eq!(frame.passes.len(), 2);
    assert_eq!(counts(&frame.passes[0]), (Some(6), None, None));
    match &frame.passes[0].draws[2] {
        Draw::Custom(batch) => assert_eq!(batch, &vec![(rect(2, 2, 2, 2), 22)]),
        _ => panic!("the custom pipe draws third"),
    }
    match &frame.passes[1].draws[2] {
        Draw::Custom(batch) => {
            assert_eq!(batch, &vec![(rect(1, 1, 1, 1), 11), (rect(3, 3, 3, 3), 33)])
        }
        _ => panic!("the custom pipe draws third"),
    }
    // rendered once more: the pipe was asked once per pass, in order
    let frame = dp.render(colour());
    match &frame.passes[0].draws[2] {
        Draw::Custom(batch) => assert!(batch.is_empty()),
        _ => panic!("the custom pipe draws third"),
    }
}

#[test]
fn pipe_without_custom_pipe_does_nothing_there() {
    let mut unit = ();
    let built: () = CustomPipeBuilder::build(&mut unit, Size(1, 1));
    assert_eq!(built, ());
    CustomPipe::resize(&mut unit, Size(2, 2));
    assert_eq!(CustomPipe::render(&mut unit, 0), ());
}
