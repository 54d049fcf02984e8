//! A panel with a header that folds its body away.

use crate::shared::position::{Direction, Position4};
use vstd::prelude::*;

verus! {

/// What a panel tells the widget that owns it.
#[derive(Clone, Copy, Debug, PartialEq, Eq, Structural)]
pub enum GCollapseEvent {
    /// The pointer has come over the header.
    Hover,
    /// The panel has been opened.
    Opened,
    /// The panel has been closed.
    Closed,
    /// Nothing has happened.
    Nothing,
}

/// A part of the panel as a step of drawing it.
#[derive(Clone, Copy, Debug, PartialEq, Eq, Structural)]
pub enum DrawCollapseState {
    DrawHeader,
    DrawBody,
}

/// The state of a panel.
#[derive(Clone, Copy, Debug, PartialEq, Eq, Structural)]
pub struct GCollapse {
    /// Whether the body is shown.
    pub opened: bool,
    pub visible: bool,
    /// Whether a press on the header takes the key focus.
    pub grab_key_focus: bool,
    /// Whether an animation of the panel is to be shown.
    pub animation_counter: bool,
    /// The side of the panel on which the body lies.
    pub position: Position4,
}

impl GCollapse {
    /// A visible panel with its body at the bottom.
    pub fn new(opened: bool) -> (panel: Self)
        ensures
            panel == (GCollapse {
                opened,
                visible: true,
                grab_key_focus: true,
                animation_counter: true,
                position: Position4::Bottom,
            }),
    {
        GCollapse {
            opened,
            visible: true,
            grab_key_focus: true,
            animation_counter: true,
            position: Position4::Bottom,
        }
    }

    /// The direction in which the two parts of a panel are laid out, and
    /// the order in which they are drawn: the body comes first where it
    /// lies to the left or at the top.
    pub open spec fn spec_draw_steps(position: Position4) -> (
        Direction,
        DrawCollapseState,
        DrawCollapseState,
    ) {
        match position {
            Position4::Left => (
                Direction::Horizontal,
                DrawCollapseState::DrawBody,
                DrawCollapseState::DrawHeader,
            ),
            Position4::Right => (
                Direction::Horizontal,
                DrawCollapseState::DrawHeader,
                DrawCollapseState::DrawBody,
            ),
            Position4::Top => (
                Direction::Vertical,
                DrawCollapseState::DrawBody,
                DrawCollapseState::DrawHeader,
            ),
            Position4::Bottom => (
                Direction::Vertical,
                DrawCollapseState::DrawHeader,
                DrawCollapseState::DrawBody,
            ),
        }
    }

    /// The direction of the layout and the two steps of drawing the panel.
    pub fn draw_steps(&self) -> (steps: (Direction, DrawCollapseState, DrawCollapseState))
        ensures
            steps == Self::spec_draw_steps(self.position),
    {
        match self.position {
            Position4::Left => (
                Direction::Horizontal,
                DrawCollapseState::DrawBody,
                DrawCollapseState::DrawHeader,
            ),
            Position4::Right => (
                Direction::Horizontal,
                DrawCollapseState::DrawHeader,
                DrawCollapseState::DrawBody,
            ),
            Position4::Top => (
                Direction::Vertical,
                DrawCollapseState::DrawBody,
                DrawCollapseState::DrawHeader,
            ),
            Position4::Bottom => (
                Direction::Vertical,
                DrawCollapseState::DrawHeader,
                DrawCollapseState::DrawBody,
            ),
        }
    }

    /// The pointer has been released over the header: the panel opens
    /// where it was closed and closes where it was open, and an animation
    /// is to be shown.
    pub fn handle_event(&mut self) -> (event: GCollapseEvent)
        ensures
            *final(self) == (GCollapse {
                opened: !old(self).opened,
                animation_counter: true,
                ..*old(self)
            }),
            event == if old(self).opened {
                GCollapseEvent::Closed
            } else {
                GCollapseEvent::Opened
            },
    {
        self.opened = !self.opened;
        self.animation_counter = true;
        if self.opened {
            GCollapseEvent::Opened
        } else {
            GCollapseEvent::Closed
        }
    }

    /// Opens the panel.
    pub fn animate_open_on(&mut self)
        ensures
            *final(self) == (GCollapse { opened: true, animation_counter: true, ..*old(self) }),
    {
        self.opened = true;
        self.animation_counter = true;
    }

    /// Closes the panel.
    pub fn animate_open_off(&mut self)
        ensures
            *final(self) == (GCollapse { opened: false, animation_counter: true, ..*old(self) }),
    {
        self.opened = false;
        self.animation_counter = true;
    }
}

} // verus!
