//! Anchoring positions for pop-ups and drawers.

use vstd::prelude::*;

verus! {

/// The axis along which a widget lays out its children.
#[derive(Clone, Copy, Debug, PartialEq, Eq, Structural)]
pub enum Direction {
    Horizontal,
    Vertical,
}

/// One of the four sides of a rectangle.
#[derive(Clone, Copy, Debug, PartialEq, Eq, Structural)]
pub enum Position4 {
    Left,
    Right,
    Top,
    Bottom,
}

/// A side of a rectangle together with an alignment along that side.
#[derive(Clone, Copy, Debug, PartialEq, Eq, Structural)]
pub enum Position {
    Left,
    LeftTop,
    LeftBottom,
    Right,
    RightTop,
    RightBottom,
    Top,
    TopLeft,
    TopRight,
    Bottom,
    BottomLeft,
    BottomRight,
}

impl Position {
    /// The side of the rectangle that this position lies on.
    pub open spec fn side(self) -> Position4 {
        match self {
            Position::Left | Position::LeftTop | Position::LeftBottom => Position4::Left,
            Position::Right | Position::RightTop | Position::RightBottom => Position4::Right,
            Position::Top | Position::TopLeft | Position::TopRight => Position4::Top,
            Position::Bottom | Position::BottomLeft | Position::BottomRight => Position4::Bottom,
        }
    }

    /// The centred position on a given side.
    pub open spec fn centred(side: Position4) -> Position {
        match side {
            Position4::Left => Position::Left,
            Position4::Right => Position::Right,
            Position4::Top => Position::Top,
            Position4::Bottom => Position::Bottom,
        }
    }

    /// A drawer has no alignment: it is attached to a whole side. This maps a
    /// position to the centred position on the same side.
    pub fn to_drawer(&self) -> (drawer: Position)
        ensures
            drawer == Position::centred(self.side()),
    {
        match self {
            Position::Left | Position::LeftTop | Position::LeftBottom => Position::Left,
            Position::Right | Position::RightTop | Position::RightBottom => Position::Right,
            Position::Top | Position::TopLeft | Position::TopRight => Position::Top,
            Position::Bottom | Position::BottomLeft | Position::BottomRight => Position::Bottom,
        }
    }
}

/// Mapping a position to its drawer position twice gives the same result as
/// mapping it once, and the result lies on the same side as the input.
pub proof fn lemma_to_drawer_idempotent(p: Position)
    ensures
        Position::centred(Position::centred(p.side()).side()) == Position::centred(p.side()),
        Position::centred(p.side()).side() == p.side(),
{
}

} // verus!
