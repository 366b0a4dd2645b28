//! The draw pipe: clip regions and the order of render passes

use vstd::prelude::*;
use super::custom::{CustomPipe, CustomPipeBuilder, DrawCustom};
use super::flat_round::{FlatRound, FlatRoundView};
use super::passes::GROWTH;
use super::shaded_round::{ShadedRound, ShadedRoundView};
use super::shaded_square::{Light, ShadedSquare, ShadedSquareView};
use super::{
    batch_view, flat_round, lemma_cleared_upto_step, load_op_of, scale_of, shaded_round,
    shaded_square, Batch, LoadOp, Region,
};
use crate::colour::Colour;
use crate::geom::{Coord, Rect, Size};
use crate::vertex::{Ratio2, Vec2};

verus! {

/// One draw call of a render pass. A pipeline that holds no queue for the
/// pass has no batch and draws nothing.
pub enum Draw<B> {
    ShadedSquare(Option<Batch<shaded_square::Vertex>>),
    ShadedRound(Option<Batch<shaded_round::Vertex>>),
    Custom(B),
    FlatRound(Option<Batch<flat_round::Vertex>>),
}

/// One render pass: the clip region it is confined to, whether it clears
/// the target first, and its draw calls in the order in which they are issued.
pub struct Pass<B> {
    pub scissor: Rect,
    pub load_op: LoadOp,
    pub draws: Vec<Draw<B>>,
}

/// What is to be recorded for one frame: the render passes, one per clip
/// region and in their order, and after them the text, drawn over the whole
/// surface.
pub struct Frame<B> {
    pub clear_colour: Colour,
    pub passes: Vec<Pass<B>>,
    pub text: Size,
}

/// What a draw pipe holds: the clip regions, the first of which is the whole
/// surface, and its pipelines.
pub struct DrawPipeView<C> {
    pub regions: Seq<Rect>,
    pub shaded_square: ShadedSquareView,
    pub shaded_round: ShadedRoundView,
    pub custom: C,
    pub flat_round: FlatRoundView,
}

impl<C> DrawPipeView<C> {
    /// The first clip region is always there: it is the whole surface.
    pub open spec fn wf(self) -> bool {
        self.regions.len() >= 1
    }

    /// The size of the surface.
    pub open spec fn size(self) -> Size {
        self.regions[0].size
    }

    /// The draw pipe with `custom` as its custom pipe.
    pub open spec fn with_custom(self, custom: C) -> DrawPipeView<C> {
        DrawPipeView { custom, ..self }
    }

    /// The draw pipe after `rect` was added as a clip region.
    pub open spec fn add_clip_region(self, rect: Rect) -> DrawPipeView<C> {
        DrawPipeView { regions: self.regions.push(rect), ..self }
    }

    /// The draw pipe after the surface took the given size, but for its
    /// custom pipe.
    pub open spec fn resize(self, size: Size) -> DrawPipeView<C> {
        DrawPipeView {
            regions: self.regions.update(0, Rect { pos: self.regions[0].pos, size }),
            shaded_square: self.shaded_square.resize(size),
            shaded_round: self.shaded_round.resize(size),
            custom: self.custom,
            flat_round: self.flat_round.resize(size),
        }
    }

    /// The draw pipe after a frame was rendered, but for its custom pipe:
    /// only the first clip region is left, and the queue of every pass that
    /// had a clip region is empty.
    pub open spec fn render(self) -> DrawPipeView<C> {
        DrawPipeView {
            regions: self.regions.subrange(0, 1),
            shaded_square: self.shaded_square.render_upto(self.regions.len() as int),
            shaded_round: self.shaded_round.render_upto(self.regions.len() as int),
            custom: self.custom,
            flat_round: self.flat_round.render_upto(self.regions.len() as int),
        }
    }
}

/// The render pass `p` is the one that a draw pipe in the state `pipe`
/// records for its clip region number `pass`: confined to that region,
/// clearing the target only as the first pass, and drawing the square
/// pipeline, the round pipeline, the custom pipe and the rounded flat
/// pipeline, in this order, each with what it has queued for the pass.
pub open spec fn is_pass_of<C: CustomPipe>(pipe: DrawPipeView<C>, pass: int, p: Pass<C::Batch>)
    -> bool {
    &&& p.scissor == pipe.regions[pass]
    &&& p.load_op == load_op_of(pass)
    &&& p.draws@.len() == 4
    &&& p.draws@[0] matches Draw::ShadedSquare(b) && batch_view(b) == pipe.shaded_square.batch(pass)
    &&& p.draws@[1] matches Draw::ShadedRound(b) && batch_view(b) == pipe.shaded_round.batch(pass)
    &&& p.draws@[2] is Custom
    &&& p.draws@[3] matches Draw::FlatRound(b) && batch_view(b) == pipe.flat_round.batch(pass)
}

/// What the custom pipe handed over in the pass `p`.
pub open spec fn custom_batch<B>(p: Pass<B>) -> B {
    p.draws@[2]->Custom_0
}

/// The custom pipe goes through `states` while `passes` are rendered one
/// after the other: from each state, rendering the next pass hands over the
/// custom batch of that pass and leads to the next state.
pub open spec fn custom_trace<C: CustomPipe>(passes: Seq<Pass<C::Batch>>, states: Seq<C>) -> bool {
    &&& states.len() == passes.len() + 1
    &&& forall|i: int|
        0 <= i < passes.len() ==> C::rendered(
            &states[i],
            i as usize,
            custom_batch(#[trigger] passes[i]),
            &states[i + 1],
        )
}

/// The custom pipe `post` is what becomes of `pre` when `passes` are
/// rendered one after the other, each handing over the custom batch of its
/// pass.
pub open spec fn custom_rendered<C: CustomPipe>(pre: C, passes: Seq<Pass<C::Batch>>, post: C)
    -> bool {
    exists|states: Seq<C>|
        #[trigger] custom_trace(passes, states) && states[0] == pre && states.last() == post
}

/// The draw pipe of one window: it owns the clip regions and the pipelines,
/// hands each drawing call to the pipeline it belongs to, and lays out the
/// render passes of a frame.
pub struct DrawPipe<C> {
    clip_regions: Vec<Rect>,
    shaded_round: ShadedRound,
    shaded_square: ShadedSquare,
    custom: C,
    flat_round: FlatRound,
}

impl<C> View for DrawPipe<C> {
    type V = DrawPipeView<C>;

    closed spec fn view(&self) -> DrawPipeView<C> {
        DrawPipeView {
            regions: self.clip_regions@,
            shaded_square: self.shaded_square@,
            shaded_round: self.shaded_round@,
            custom: self.custom,
            flat_round: self.flat_round@,
        }
    }
}

impl<C: CustomPipe> DrawPipe<C> {
    /// Construct, for a surface of the given size and light from the given
    /// direction. The custom pipe is built by `builder`.
    pub fn new<CB: CustomPipeBuilder<Pipe = C>>(builder: &mut CB, size: Size, light: Light) -> (pipe:
        Self)
        ensures
            pipe@.wf(),
            CB::built(old(builder), size, pipe@.custom, final(builder)),
            pipe@.regions == seq![Rect { pos: Coord(0, 0), size }],
            pipe@.shaded_square == (ShadedSquareView {
                scale: scale_of(size),
                light,
                passes: Seq::empty(),
            }),
            pipe@.shaded_round == (ShadedRoundView {
                scale: scale_of(size),
                light,
                passes: Seq::empty(),
            }),
            pipe@.flat_round == (FlatRoundView { scale: scale_of(size), passes: Seq::empty() }),
    {
        let custom = builder.build(size);

        let region = Rect { pos: Coord::zero(), size };
        let mut clip_regions: Vec<Rect> = Vec::new();
        clip_regions.push(region);

        DrawPipe {
            clip_regions,
            shaded_square: ShadedSquare::new(size, light),
            shaded_round: ShadedRound::new(size, light),
            custom,
            flat_round: FlatRound::new(size),
        }
    }

    /// Process window resize. The first clip region and every pipeline take
    /// the new size. Returns the scale factors that the vertex stage of
    /// every pipeline is to use from now on.
    pub fn resize(&mut self, size: Size) -> (scale: Ratio2)
        requires
            old(self)@.wf(),
        ensures
            final(self)@.wf(),
            exists|custom: C|
                #![trigger old(self)@.resize(size).with_custom(custom)]
                C::resized(&old(self)@.custom, size, &custom) && final(self)@ == old(
                    self,
                )@.resize(size).with_custom(custom),
            scale == scale_of(size),
    {
        let pos = self.clip_regions[0].pos;
        self.clip_regions[0] = Rect { pos, size };
        self.shaded_square.resize(size);
        self.shaded_round.resize(size);
        self.custom.resize(size);
        let scale = self.flat_round.resize(size);
        assert(self@ == old(self)@.resize(size).with_custom(self.custom));
        scale
    }

    /// Add a clip region. Returns the handle by which to draw into it: the
    /// number of its render pass.
    pub fn add_clip_region(&mut self, region: Rect) -> (handle: Region)
        requires
            old(self)@.wf(),
        ensures
            final(self)@.wf(),
            handle.0 == old(self)@.regions.len(),
            final(self)@ == old(self)@.add_clip_region(region),
    {
        let pass = self.clip_regions.len();
        self.clip_regions.push(region);
        Region(pass)
    }

    /// Draw a flat rectangle
    #[inline]
    pub fn rect(&mut self, pass: Region, rect: Rect, col: Colour)
        requires
            pass.0 + GROWTH <= usize::MAX,
        ensures
            final(self)@ == (DrawPipeView {
                shaded_square: old(self)@.shaded_square.rect(pass.0 as int, rect, col),
                ..old(self)@
            }),
    {
        self.shaded_square.rect(pass.0, rect, col);
    }

    /// Draw a flat frame between `outer` and `inner`
    #[inline]
    pub fn frame(&mut self, pass: Region, outer: Rect, inner: Rect, col: Colour)
        requires
            pass.0 + GROWTH <= usize::MAX,
        ensures
            final(self)@ == (DrawPipeView {
                shaded_square: old(self)@.shaded_square.frame(pass.0 as int, outer, inner, col),
                ..old(self)@
            }),
    {
        self.shaded_square.frame(pass.0, outer, inner, col);
    }

    /// Draw a line with round caps
    #[inline]
    pub fn rounded_line(&mut self, pass: Region, p1: Coord, p2: Coord, radius: i32, col: Colour)
        requires
            pass.0 + GROWTH <= usize::MAX,
        ensures
            final(self)@ == (DrawPipeView {
                flat_round: old(self)@.flat_round.line(pass.0 as int, p1, p2, radius, col),
                ..old(self)@
            }),
    {
        self.flat_round.line(pass.0, p1, p2, radius, col);
    }

    /// Draw a disc or ring
    #[inline]
    pub fn circle(&mut self, pass: Region, rect: Rect, inner_radius: i64, col: Colour)
        requires
            pass.0 + GROWTH <= usize::MAX,
        ensures
            final(self)@ == (DrawPipeView {
                flat_round: old(self)@.flat_round.circle(pass.0 as int, rect, inner_radius, col),
                ..old(self)@
            }),
    {
        self.flat_round.circle(pass.0, rect, inner_radius, col);
    }

    /// Draw a frame with rounded corners
    #[inline]
    pub fn rounded_frame(
        &mut self,
        pass: Region,
        outer: Rect,
        inner: Rect,
        inner_radius: i64,
        col: Colour,
    )
        requires
            pass.0 + GROWTH <= usize::MAX,
        ensures
            final(self)@ == (DrawPipeView {
                flat_round: old(self)@.flat_round.rounded_frame(
                    pass.0 as int,
                    outer,
                    inner,
                    inner_radius,
                    col,
                ),
                ..old(self)@
            }),
    {
        self.flat_round.rounded_frame(pass.0, outer, inner, inner_radius, col);
    }

    /// Draw a shaded rectangle
    #[inline]
    pub fn shaded_square(&mut self, pass: Region, rect: Rect, norm: (i64, i64), col: Colour)
        requires
            pass.0 + GROWTH <= usize::MAX,
        ensures
            final(self)@ == (DrawPipeView {
                shaded_square: old(self)@.shaded_square.shaded_rect(
                    pass.0 as int,
                    rect,
                    Vec2(norm.0, norm.1),
                    col,
                ),
                ..old(self)@
            }),
    {
        self.shaded_square.shaded_rect(pass.0, rect, Vec2::from(norm), col);
    }

    /// Draw a shaded disc
    #[inline]
    pub fn shaded_circle(&mut self, pass: Region, rect: Rect, norm: (i64, i64), col: Colour)
        requires
            pass.0 + GROWTH <= usize::MAX,
        ensures
            final(self)@ == (DrawPipeView {
                shaded_round: old(self)@.shaded_round.circle(
                    pass.0 as int,
                    rect,
                    Vec2(norm.0, norm.1),
                    col,
                ),
                ..old(self)@
            }),
    {
        self.shaded_round.circle(pass.0, rect, Vec2::from(norm), col);
    }

    /// Draw a shaded frame with square corners
    #[inline]
    pub fn shaded_square_frame(
        &mut self,
        pass: Region,
        outer: Rect,
        inner: Rect,
        norm: (i64, i64),
        col: Colour,
    )
        requires
            pass.0 + GROWTH <= usize::MAX,
        ensures
            final(self)@ == (DrawPipeView {
                shaded_square: old(self)@.shaded_square.shaded_frame(
                    pass.0 as int,
                    outer,
                    inner,
                    Vec2(norm.0, norm.1),
                    col,
                ),
                ..old(self)@
            }),
    {
        self.shaded_square.shaded_frame(pass.0, outer, inner, Vec2::from(norm), col);
    }

    /// Draw a shaded frame with rounded corners
    #[inline]
    pub fn shaded_round_frame(
        &mut self,
        pass: Region,
        outer: Rect,
        inner: Rect,
        norm: (i64, i64),
        col: Colour,
    )
        requires
            pass.0 + GROWTH <= usize::MAX,
        ensures
            final(self)@ == (DrawPipeView {
                shaded_round: old(self)@.shaded_round.shaded_frame(
                    pass.0 as int,
                    outer,
                    inner,
                    Vec2(norm.0, norm.1),
                    col,
                ),
                ..old(self)@
            }),
    {
        self.shaded_round.shaded_frame(pass.0, outer, inner, Vec2::from(norm), col);
    }
    /// Lay out the render passes of a frame and empty the queues.
    ///
    /// There is one pass for each clip region, in the order of the regions
    /// and confined to its region. Only the first pass clears the target, to
    /// `clear_colour`; the later ones draw over what is there. A pass draws
    /// the square pipeline, the round pipeline, the custom pipe and the
    /// rounded flat pipeline, in this order. After the passes the text is
    /// drawn over the whole surface. Of the clip regions only the first is
    /// kept.
    pub fn render(&mut self, clear_colour: Colour) -> (frame: Frame<C::Batch>)
        requires
            old(self)@.wf(),
        ensures
            final(self)@.wf(),
            frame.clear_colour == clear_colour,
            frame.passes@.len() == old(self)@.regions.len(),
            forall|i: int|
                0 <= i < frame.passes@.len() ==> is_pass_of(
                    old(self)@,
                    i,
                    #[trigger] frame.passes@[i],
                ),
            frame.text == old(self)@.size(),
            custom_rendered(old(self)@.custom, frame.passes@, final(self)@.custom),
            final(self)@ == old(self)@.render().with_custom(final(self)@.custom),
            final(self)@.regions.len() == 1,
    {
        let n: usize = self.clip_regions.len();
        let mut passes: Vec<Pass<C::Batch>> = Vec::with_capacity(n);
        let mut pass: usize = 0;
        let ghost mut states: Seq<C> = seq![self.custom];
        proof {
            lemma_cleared_upto_step(old(self)@.shaded_square.scale, old(self)@.shaded_square.passes, 0);
            lemma_cleared_upto_step(old(self)@.shaded_round.scale, old(self)@.shaded_round.passes, 0);
            lemma_cleared_upto_step(old(self)@.flat_round.scale, old(self)@.flat_round.passes, 0);
        }

        // We use a separate render pass for each clipped region.
        while pass < n
            invariant
                n == self.clip_regions@.len(),
                self.clip_regions == old(self).clip_regions,
                pass <= n,
                passes@.len() == pass,
                self.shaded_square@ == old(self)@.shaded_square.render_upto(pass as int),
                self.shaded_round@ == old(self)@.shaded_round.render_upto(pass as int),
                self.flat_round@ == old(self)@.flat_round.render_upto(pass as int),
                forall|i: int| 0 <= i < pass ==> is_pass_of(old(self)@, i, #[trigger] passes@[i]),
                custom_trace(passes@, states),
                states[0] == old(self)@.custom,
                states.last() == self.custom,
            decreases n - pass,
        {
            proof {
                lemma_cleared_upto_step(
                    old(self)@.shaded_square.scale,
                    old(self)@.shaded_square.passes,
                    pass as int,
                );
                lemma_cleared_upto_step(
                    old(self)@.shaded_round.scale,
                    old(self)@.shaded_round.passes,
                    pass as int,
                );
                lemma_cleared_upto_step(
                    old(self)@.flat_round.scale,
                    old(self)@.flat_round.passes,
                    pass as int,
                );
            }
            let load_op = if pass == 0 {
                LoadOp::Clear
            } else {
                LoadOp::Load
            };
            let mut draws: Vec<Draw<C::Batch>> = Vec::with_capacity(4);
            draws.push(Draw::ShadedSquare(self.shaded_square.render(pass)));
            draws.push(Draw::ShadedRound(self.shaded_round.render(pass)));
            draws.push(Draw::Custom(self.custom.render(pass)));
            draws.push(Draw::FlatRound(self.flat_round.render(pass)));
            passes.push(Pass { scissor: self.clip_regions[pass], load_op, draws });
            proof {
                states = states.push(self.custom);
            }
            pass = pass + 1;
        }

        // The text has its own render pass(es).
        let text = self.clip_regions[0].size;

        // Keep only first clip region (which is the entire window)
        self.clip_regions.truncate(1);

        Frame { clear_colour, passes, text }
    }
}

impl<C: CustomPipe> DrawCustom<C> for DrawPipe<C> {
    fn custom(&mut self, region: Region, rect: Rect, param: C::Param)
        ensures
            C::invoked(&old(self)@.custom, region.0, rect, param, &final(self)@.custom),
            final(self)@ == old(self)@.with_custom(final(self)@.custom),
    {
        self.custom.invoke(region.0, rect, param);
    }
}

/// After a frame is rendered exactly one clip region is left, the whole
/// surface, however many regions were added before.
pub proof fn lemma_render_keeps_first_region<C>(pipe: DrawPipeView<C>, added: Seq<Rect>)
    requires
        pipe.wf(),
    ensures
        pipe.render().regions == seq![pipe.regions[0]],
        pipe.render().regions.len() == 1,
        (DrawPipeView { regions: pipe.regions + added, ..pipe }).render().regions
            == pipe.render().regions,
        pipe.render().wf(),
{
    assert(pipe.regions.subrange(0, 1) =~= seq![pipe.regions[0]]);
    assert((pipe.regions + added).subrange(0, 1) =~= seq![pipe.regions[0]]);
}

/// After a frame is rendered nothing is queued, in any pipeline, for a pass
/// that had a clip region.
pub proof fn lemma_render_empties_queues<C>(pipe: DrawPipeView<C>, pass: int)
    requires
        0 <= pass < pipe.regions.len(),
    ensures
        pipe.render().shaded_square.queued(pass).len() == 0,
        pipe.render().shaded_round.queued(pass).len() == 0,
        pipe.render().flat_round.queued(pass).len() == 0,
{
}

/// A resize sets the scale factors of every pipeline and the size of the
/// surface to those of the new size, wherever they stood before: an earlier
/// size leaves no trace.
pub proof fn lemma_resize_sets_scale<C>(pipe: DrawPipeView<C>, earlier: Size, size: Size)
    requires
        pipe.wf(),
    ensures
        pipe.resize(size).wf(),
        pipe.resize(size).size() == size,
        pipe.resize(size).shaded_square.scale == scale_of(size),
        pipe.resize(size).shaded_round.scale == scale_of(size),
        pipe.resize(size).flat_round.scale == scale_of(size),
        pipe.resize(earlier).resize(size).regions == pipe.resize(size).regions,
        pipe.resize(earlier).resize(size).shaded_square == pipe.resize(size).shaded_square,
        pipe.resize(earlier).resize(size).shaded_round == pipe.resize(size).shaded_round,
        pipe.resize(earlier).resize(size).flat_round == pipe.resize(size).flat_round,
{
    assert(pipe.resize(earlier).resize(size).regions =~= pipe.resize(size).regions);
}

/// Queueing vertices and rendering leave the scale factors of a pipeline as
/// they are, and every batch that a pipeline hands over carries them. So a
/// frame rendered after a resize is drawn with the scale factors of the new
/// size, whatever was drawn in between.
pub proof fn lemma_batches_carry_scale<C>(
    pipe: DrawPipeView<C>,
    pass: int,
    square: Seq<shaded_square::Vertex>,
    round: Seq<shaded_round::Vertex>,
    flat: Seq<flat_round::Vertex>,
)
    ensures
        pipe.shaded_square.with(pass, square).scale == pipe.shaded_square.scale,
        pipe.shaded_round.with(pass, round).scale == pipe.shaded_round.scale,
        pipe.flat_round.with(pass, flat).scale == pipe.flat_round.scale,
        pipe.shaded_square.render(pass).scale == pipe.shaded_square.scale,
        pipe.shaded_round.render(pass).scale == pipe.shaded_round.scale,
        pipe.flat_round.render(pass).scale == pipe.flat_round.scale,
        pipe.render().shaded_square.scale == pipe.shaded_square.scale,
        pipe.render().shaded_round.scale == pipe.shaded_round.scale,
        pipe.render().flat_round.scale == pipe.flat_round.scale,
        pipe.shaded_square.batch(pass) matches Some(b) ==> b.scale == pipe.shaded_square.scale,
        pipe.shaded_round.batch(pass) matches Some(b) ==> b.scale == pipe.shaded_round.scale,
        pipe.flat_round.batch(pass) matches Some(b) ==> b.scale == pipe.flat_round.scale,
{
}

} // verus!
