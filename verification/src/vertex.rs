//! Vertex data types

use vstd::prelude::*;
use vstd::std_specs::convert::FromSpecImpl;
use vstd::std_specs::ops::{AddSpecImpl, NegSpecImpl, SubSpecImpl};
use core::ops::{Add, Neg, Sub};
use crate::colour::Colour;
use crate::fixed::{px, sign, sign_spec, UNIT};
use crate::geom::{Coord, Size};

verus! {

/// 2D positional data: a pair of fixed-point scalars
#[derive(Clone, Copy, Debug, PartialEq, Eq, Structural)]
pub struct Vec2(pub i64, pub i64);

impl Vec2 {
    /// The vector with the given components.
    pub open spec fn of(x: int, y: int) -> Vec2 {
        Vec2(x as i64, y as i64)
    }

    /// The position of a pixel coordinate.
    pub open spec fn of_coord(c: Coord) -> Vec2 {
        Vec2::of(px(c.0 as int), px(c.1 as int))
    }

    /// The extent of a pixel size.
    pub open spec fn of_size(s: Size) -> Vec2 {
        Vec2::of(px(s.0 as int), px(s.1 as int))
    }

    /// Both components are strictly less than those of `rhs`.
    pub open spec fn lt_spec(self, rhs: Vec2) -> bool {
        self.0 < rhs.0 && self.1 < rhs.1
    }

    /// Both components are at most those of `rhs`.
    pub open spec fn le_spec(self, rhs: Vec2) -> bool {
        self.0 <= rhs.0 && self.1 <= rhs.1
    }

    /// The signs of the components.
    pub open spec fn sign_spec(self) -> Vec2 {
        Vec2::of(sign_spec(self.0 as int), sign_spec(self.1 as int))
    }

    /// The point halfway between `self` and `rhs`.
    pub open spec fn midpoint_spec(self, rhs: Vec2) -> Vec2 {
        Vec2::of((self.0 + rhs.0) / 2, (self.1 + rhs.1) / 2)
    }

    /// A vector with both components equal to `value`.
    pub fn splat(value: i64) -> (v: Vec2)
        ensures
            v == Vec2(value, value),
    {
        Vec2(value, value)
    }

    /// True when both components are strictly less than those of `rhs`.
    pub fn lt(self, rhs: Vec2) -> (b: bool)
        ensures
            b == self.lt_spec(rhs),
    {
        self.0 < rhs.0 && self.1 < rhs.1
    }

    /// True when both components are at most those of `rhs`.
    pub fn le(self, rhs: Vec2) -> (b: bool)
        ensures
            b == self.le_spec(rhs),
    {
        self.0 <= rhs.0 && self.1 <= rhs.1
    }

    /// The signs of the components: one for zero and above, minus one below.
    pub fn sign(self) -> (v: Vec2)
        ensures
            v == self.sign_spec(),
    {
        Vec2(sign(self.0), sign(self.1))
    }

    /// The point halfway between `self` and `rhs`, each component rounded
    /// down.
    pub fn midpoint(self, rhs: Vec2) -> (v: Vec2)
        requires
            self.le_spec(rhs),
            i64::MIN <= rhs.0 - self.0 <= i64::MAX,
            i64::MIN <= rhs.1 - self.1 <= i64::MAX,
        ensures
            v == self.midpoint_spec(rhs),
    {
        Vec2(self.0 + (rhs.0 - self.0) / 2, self.1 + (rhs.1 - self.1) / 2)
    }
}

impl Add<Vec2> for Vec2 {
    type Output = Vec2;

    fn add(self, rhs: Vec2) -> (v: Vec2) {
        Vec2(self.0 + rhs.0, self.1 + rhs.1)
    }
}

impl AddSpecImpl<Vec2> for Vec2 {
    open spec fn obeys_add_spec() -> bool {
        true
    }

    open spec fn add_req(self, rhs: Vec2) -> bool {
        &&& i64::MIN <= self.0 + rhs.0 <= i64::MAX
        &&& i64::MIN <= self.1 + rhs.1 <= i64::MAX
    }

    open spec fn add_spec(self, rhs: Vec2) -> Vec2 {
        Vec2::of(self.0 + rhs.0, self.1 + rhs.1)
    }
}

impl Add<i64> for Vec2 {
    type Output = Vec2;

    fn add(self, rhs: i64) -> (v: Vec2) {
        Vec2(self.0 + rhs, self.1 + rhs)
    }
}

impl AddSpecImpl<i64> for Vec2 {
    open spec fn obeys_add_spec() -> bool {
        true
    }

    open spec fn add_req(self, rhs: i64) -> bool {
        &&& i64::MIN <= self.0 + rhs <= i64::MAX
        &&& i64::MIN <= self.1 + rhs <= i64::MAX
    }

    open spec fn add_spec(self, rhs: i64) -> Vec2 {
        Vec2::of(self.0 + rhs, self.1 + rhs)
    }
}

impl Sub<Vec2> for Vec2 {
    type Output = Vec2;

    fn sub(self, rhs: Vec2) -> (v: Vec2) {
        Vec2(self.0 - rhs.0, self.1 - rhs.1)
    }
}

impl SubSpecImpl<Vec2> for Vec2 {
    open spec fn obeys_sub_spec() -> bool {
        true
    }

    open spec fn sub_req(self, rhs: Vec2) -> bool {
        &&& i64::MIN <= self.0 - rhs.0 <= i64::MAX
        &&& i64::MIN <= self.1 - rhs.1 <= i64::MAX
    }

    open spec fn sub_spec(self, rhs: Vec2) -> Vec2 {
        Vec2::of(self.0 - rhs.0, self.1 - rhs.1)
    }
}

impl Sub<i64> for Vec2 {
    type Output = Vec2;

    fn sub(self, rhs: i64) -> (v: Vec2) {
        Vec2(self.0 - rhs, self.1 - rhs)
    }
}

impl SubSpecImpl<i64> for Vec2 {
    open spec fn obeys_sub_spec() -> bool {
        true
    }

    open spec fn sub_req(self, rhs: i64) -> bool {
        &&& i64::MIN <= self.0 - rhs <= i64::MAX
        &&& i64::MIN <= self.1 - rhs <= i64::MAX
    }

    open spec fn sub_spec(self, rhs: i64) -> Vec2 {
        Vec2::of(self.0 - rhs, self.1 - rhs)
    }
}

impl Neg for Vec2 {
    type Output = Vec2;

    fn neg(self) -> (v: Vec2) {
        Vec2(-self.0, -self.1)
    }
}

impl NegSpecImpl for Vec2 {
    open spec fn obeys_neg_spec() -> bool {
        true
    }

    open spec fn neg_req(self) -> bool {
        self.0 > i64::MIN && self.1 > i64::MIN
    }

    open spec fn neg_spec(self) -> Vec2 {
        Vec2::of(-self.0, -self.1)
    }
}

impl From<(i64, i64)> for Vec2 {
    fn from(arg: (i64, i64)) -> (v: Vec2) {
        Vec2(arg.0, arg.1)
    }
}

impl FromSpecImpl<(i64, i64)> for Vec2 {
    open spec fn obeys_from_spec() -> bool {
        true
    }

    open spec fn from_spec(arg: (i64, i64)) -> Vec2 {
        Vec2(arg.0, arg.1)
    }
}

impl From<Vec2> for (i64, i64) {
    fn from(v: Vec2) -> (r: (i64, i64)) {
        (v.0, v.1)
    }
}

impl FromSpecImpl<Vec2> for (i64, i64) {
    open spec fn obeys_from_spec() -> bool {
        true
    }

    open spec fn from_spec(v: Vec2) -> (i64, i64) {
        (v.0, v.1)
    }
}

impl From<Coord> for Vec2 {
    fn from(c: Coord) -> (v: Vec2) {
        Vec2(c.0 as i64 * UNIT, c.1 as i64 * UNIT)
    }
}

impl FromSpecImpl<Coord> for Vec2 {
    open spec fn obeys_from_spec() -> bool {
        true
    }

    open spec fn from_spec(c: Coord) -> Vec2 {
        Vec2::of_coord(c)
    }
}

impl From<Size> for Vec2 {
    fn from(s: Size) -> (v: Vec2) {
        Vec2(s.0 as i64 * UNIT, s.1 as i64 * UNIT)
    }
}

impl FromSpecImpl<Size> for Vec2 {
    open spec fn obeys_from_spec() -> bool {
        true
    }

    open spec fn from_spec(s: Size) -> Vec2 {
        Vec2::of_size(s)
    }
}

/// 3-part colour data
#[derive(Clone, Copy, Debug, PartialEq, Eq, Structural)]
pub struct Rgb {
    pub r: i32,
    pub g: i32,
    pub b: i32,
}

impl Rgb {
    /// The three colour channels of `c`, without its alpha.
    pub open spec fn of(c: Colour) -> Rgb {
        Rgb { r: c.r, g: c.g, b: c.b }
    }
}

impl From<Colour> for Rgb {
    fn from(c: Colour) -> (rgb: Rgb) {
        Rgb { r: c.r, g: c.g, b: c.b }
    }
}

impl FromSpecImpl<Colour> for Rgb {
    open spec fn obeys_from_spec() -> bool {
        true
    }

    open spec fn from_spec(c: Colour) -> Rgb {
        Rgb::of(c)
    }
}

/// The quotient of two vectors, component by component. A component whose
/// divisor is zero has no finite value.
#[derive(Clone, Copy, Debug, PartialEq, Eq, Structural)]
pub struct Ratio2 {
    pub num: Vec2,
    pub den: Vec2,
}

} // verus!
