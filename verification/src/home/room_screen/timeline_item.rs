//! What the layout of a timeline needs to know of its items.

use vstd::prelude::*;

verus! {

/// What an event in the timeline holds.
#[derive(Clone, Copy, Debug, PartialEq, Eq, Structural)]
pub enum TimelineItemContent {
    /// A message.
    Message,
    /// A message that has been redacted.
    RedactedMessage,
    /// Somebody joined, left, was invited and the like.
    MembershipChange,
    /// Somebody changed their name or avatar.
    ProfileChange,
    /// Another change of the room's state.
    OtherState,
    /// Anything else.
    Other,
}

/// An item that the client puts into the timeline itself.
#[derive(Clone, Copy, Debug, PartialEq, Eq, Structural)]
pub enum VirtualTimelineItem {
    /// The line between two days; the number is the day's time stamp in
    /// milliseconds.
    DayDivider(u64),
    /// The line below the last message that was read.
    ReadMarker,
}

/// The kind of a timeline item.
#[derive(Clone, Copy, Debug, PartialEq, Eq, Structural)]
pub enum TimelineItemKind {
    Event(TimelineItemContent),
    Virtual(VirtualTimelineItem),
}

/// An item of a room's timeline: the number under which the item is found
/// again, and its kind.
#[derive(Clone, Copy, Debug, PartialEq, Eq, Structural)]
pub struct TimelineItem {
    pub id: u64,
    pub kind: TimelineItemKind,
}

impl TimelineItem {
    /// The item's kind.
    pub fn kind(&self) -> (kind: TimelineItemKind)
        ensures
            kind == self.kind,
    {
        self.kind
    }

    /// A small event is a change of state that takes one line in the
    /// timeline: of membership, of a profile, or of the room.
    pub open spec fn is_small_state_event(self) -> bool {
        match self.kind {
            TimelineItemKind::Event(TimelineItemContent::MembershipChange) => true,
            TimelineItemKind::Event(TimelineItemContent::ProfileChange) => true,
            TimelineItemKind::Event(TimelineItemContent::OtherState) => true,
            _ => false,
        }
    }

    /// The category under which a summary counts the item: 0 for a change
    /// of membership, 1 for a change of profile, 2 for another change of
    /// state, 3 for everything else.
    pub open spec fn category(self) -> nat {
        match self.kind {
            TimelineItemKind::Event(TimelineItemContent::MembershipChange) => 0,
            TimelineItemKind::Event(TimelineItemContent::ProfileChange) => 1,
            TimelineItemKind::Event(TimelineItemContent::OtherState) => 2,
            _ => 3,
        }
    }
}

/// The template with which an item of the timeline is drawn.
#[derive(Clone, Copy, Debug, PartialEq, Eq, Structural)]
pub enum ItemTemplate {
    Message,
    SmallStateEvent,
    DayDivider,
    ReadMarker,
    CollapsibleEventGroup,
    Empty,
}

} // verus!
