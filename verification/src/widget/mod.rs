//! Widgets: the data every widget carries, and the text widgets.

use vstd::prelude::*;
use crate::geom::{Coord, Rect, Size};

pub mod dialog;
pub mod text;

pub use dialog::MessageBox;
pub use text::{Entry, Label};

verus! {

/// The kind of a widget, by which a theme chooses how to draw it.
#[derive(Clone, Copy, Debug, PartialEq, Eq, Structural)]
pub enum Class {
    Button,
    Label,
    Entry,
}

/// Data common to all widgets: the number by which the toolkit addresses the
/// widget, and the rectangle the layout gave it.
#[derive(Clone, Copy, Debug, PartialEq, Eq, Structural)]
pub struct CoreData {
    pub number: u32,
    pub rect: Rect,
}

impl CoreData {
    /// The data of a widget that the toolkit has not configured yet.
    pub open spec fn initial() -> CoreData {
        CoreData { number: 0, rect: Rect { pos: Coord(0, 0), size: Size(0, 0) } }
    }
}

impl Default for CoreData {
    fn default() -> (c: CoreData)
        ensures
            c == CoreData::initial(),
    {
        CoreData { number: 0, rect: Rect { pos: Coord(0, 0), size: Size(0, 0) } }
    }
}

/// What a widget asks of the toolkit after a change, ordered by how much
/// work it causes: a later variant includes the earlier ones.
#[derive(Clone, Copy, Debug, PartialEq, Eq, Structural)]
pub enum TkAction {
    /// Nothing to do
    Nothing,
    /// The window needs to be drawn again
    Redraw,
    /// The layout needs to be solved again, then the window drawn
    Reconfigure,
    /// The window should close
    Close,
    /// All windows should close
    CloseAll,
}

impl TkAction {
    /// Rank of the action: 0 for `Nothing`, rising with the work it causes.
    pub open spec fn rank(self) -> int {
        match self {
            TkAction::Nothing => 0,
            TkAction::Redraw => 1,
            TkAction::Reconfigure => 2,
            TkAction::Close => 3,
            TkAction::CloseAll => 4,
        }
    }

    fn level(self) -> (n: u8)
        ensures
            n == self.rank(),
    {
        match self {
            TkAction::Nothing => 0,
            TkAction::Redraw => 1,
            TkAction::Reconfigure => 2,
            TkAction::Close => 3,
            TkAction::CloseAll => 4,
        }
    }

    /// The weightier of two actions.
    pub fn max(self, other: TkAction) -> (m: TkAction)
        ensures
            m == if self.rank() >= other.rank() { self } else { other },
    {
        if self.level() >= other.level() {
            self
        } else {
            other
        }
    }
}

} // verus!
