//! Colours as the theme and the widgets give them.

use vstd::prelude::*;

verus! {

/// A colour with alpha. Each channel is a fixed-point scalar from zero to
/// one; the drawing pipeline hands the channels on as they are.
#[derive(Clone, Copy, Debug, PartialEq, Eq, Structural)]
pub struct Colour {
    pub r: i32,
    pub g: i32,
    pub b: i32,
    pub a: i32,
}

} // verus!
