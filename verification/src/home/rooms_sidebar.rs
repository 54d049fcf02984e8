//! The list of rooms at the side, under a header that folds it away.

use crate::shared::collapse_view::GCollapse;
use crate::shared::text::{decimal, decimal_string};
use vstd::prelude::*;
use vstd::string::*;

verus! {

/// The state of the list's header.
#[derive(Clone, Copy, Debug, PartialEq, Eq, Structural)]
pub struct RoomsView {
    pub rooms_collapsed: bool,
    pub room_count: usize,
}

impl RoomsView {
    /// The header of an open list without rooms.
    pub fn new() -> (view: Self)
        ensures
            view == (RoomsView { rooms_collapsed: false, room_count: 0 }),
    {
        RoomsView { rooms_collapsed: false, room_count: 0 }
    }

    /// The title of the header.
    pub open spec fn spec_title(self) -> Seq<char> {
        "Rooms ("@ + decimal(self.room_count as nat) + " rooms)"@
    }

    /// The angle by which the icon of the header is turned, in degrees: a
    /// quarter turn to the left while the list is folded away.
    pub open spec fn spec_rotation(self) -> int {
        if self.rooms_collapsed {
            -90
        } else {
            0
        }
    }

    /// Reads the state of the panel that holds the list, and the number of
    /// rooms in the list; either may be missing.
    pub fn sync(&mut self, panel: Option<&GCollapse>, rooms: Option<usize>)
        ensures
            *final(self) == match panel {
                Some(panel) => RoomsView {
                    rooms_collapsed: !panel.opened,
                    room_count: match rooms {
                        Some(count) => count,
                        None => 0,
                    },
                },
                None => RoomsView { room_count: 0, ..*old(self) },
            },
    {
        self.room_count = 0;
        if let Some(panel) = panel {
            self.rooms_collapsed = !panel.opened;
            if let Some(count) = rooms {
                self.room_count = count;
            }
        }
    }

    /// The icon of the header has been pressed: the list is folded away
    /// where it was shown and shown where it was folded away, and the panel
    /// follows.
    pub fn handle_event(&mut self, panel: &mut GCollapse)
        ensures
            *final(self) == (RoomsView { rooms_collapsed: !old(self).rooms_collapsed, ..*old(self) }),
            *final(panel) == (GCollapse {
                opened: old(self).rooms_collapsed,
                animation_counter: true,
                ..*old(panel)
            }),
    {
        if self.rooms_collapsed {
            panel.animate_open_off();
        } else {
            panel.animate_open_on();
        }
        self.rooms_collapsed = !self.rooms_collapsed;
        panel.opened = !self.rooms_collapsed;
    }

    /// The title of the header.
    pub fn title(&self) -> (title: String)
        ensures
            title@ == self.spec_title(),
    {
        String::from_str("Rooms (").concat(decimal_string(self.room_count).as_str()).concat(
            " rooms)",
        )
    }

    /// The angle by which the icon of the header is turned, in degrees.
    pub fn rotation(&self) -> (degrees: i32)
        ensures
            degrees == self.spec_rotation(),
    {
        if self.rooms_collapsed {
            -90
        } else {
            0
        }
    }
}

} // verus!
