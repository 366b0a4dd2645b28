//! Custom draw pipes

use vstd::prelude::*;
use super::Region;
use crate::geom::{Rect, Size};

verus! {

/// Allows use of a custom draw pipe
///
/// To use this, write an implementation of [`CustomPipe`], then hand the
/// corresponding [`CustomPipeBuilder`] to the draw pipe when it is made.
pub trait DrawCustom<C: CustomPipe> {
    /// Call a custom draw pipe
    fn custom(&mut self, region: Region, rect: Rect, param: C::Param);
}

/// Builder for a [`CustomPipe`]
pub trait CustomPipeBuilder {
    type Pipe: CustomPipe;

    /// What building says of the pipe built. Unless an implementation says
    /// more, nothing is promised.
    open spec fn built(pre: &Self, size: Size, pipe: Self::Pipe, post: &Self) -> bool {
        true
    }

    /// Build a pipe for a surface of the given size
    fn build(&mut self, size: Size) -> (pipe: Self::Pipe)
        ensures
            Self::built(old(self), size, pipe, final(self)),
    ;
}

/// A custom draw pipe
///
/// A "draw pipe" consists of draw primitives (usually triangles), resources
/// (textures), shaders, and pipe configuration (e.g. blending mode).
///
/// Only a single custom pipe is accepted. To use more than one,
/// implement a multiplexer (presumably using an enum for the `Param` type).
pub trait CustomPipe {
    /// User parameter type
    type Param;

    /// What the pipe hands over for drawing in one render pass
    type Batch;

    /// How a resize changes the pipe. Unless an implementation says more,
    /// nothing is promised.
    open spec fn resized(pre: &Self, size: Size, post: &Self) -> bool {
        true
    }

    /// How an invocation changes the pipe. Unless an implementation says
    /// more, nothing is promised.
    open spec fn invoked(pre: &Self, pass: usize, rect: Rect, param: Self::Param, post: &Self)
        -> bool {
        true
    }

    /// How rendering a pass changes the pipe, and what it hands over. Unless
    /// an implementation says more, nothing is promised.
    open spec fn rendered(pre: &Self, pass: usize, batch: Self::Batch, post: &Self) -> bool {
        true
    }

    /// Called whenever the window is resized
    fn resize(&mut self, size: Size)
        ensures
            Self::resized(old(self), size, final(self)),
    ;

    /// Invoke user-defined custom routine
    ///
    /// Custom add-primitives / update function called from user code by
    /// [`DrawCustom::custom`].
    fn invoke(&mut self, pass: usize, rect: Rect, param: Self::Param)
        ensures
            Self::invoked(old(self), pass, rect, param, final(self)),
    ;

    /// Do a render pass.
    ///
    /// Rendering uses one pass per region, where each region has its own
    /// scissor rect. This method may be called multiple times per frame.
    /// Each widget invoking this pipe will give the correct `pass` number for
    /// the widget in [`CustomPipe::invoke`]; multiple widgets may use the same
    /// `pass`.
    fn render(&mut self, pass: usize) -> (batch: Self::Batch)
        ensures
            Self::rendered(old(self), pass, batch, final(self)),
    ;
}

/// A dummy implementation (does nothing)
impl CustomPipeBuilder for () {
    type Pipe = ();

    fn build(&mut self, size: Size) -> () {
        ()
    }
}

/// The parameter of the pipe that does nothing: a type without a value.
pub enum Void {
    Never(core::convert::Infallible),
}

/// A dummy implementation (does nothing)
impl CustomPipe for () {
    type Param = Void;

    type Batch = ();

    fn resize(&mut self, size: Size) {
    }

    fn invoke(&mut self, pass: usize, rect: Rect, param: Void) {
    }

    fn render(&mut self, pass: usize) -> () {
    }
}

} // verus!
