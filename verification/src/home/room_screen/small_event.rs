//! Collapsing runs of small state events in a timeline.
//!
//! A room's timeline is full of events that say little: somebody joined,
//! somebody changed their avatar. Two or more of them in a row are drawn as
//! one group that can be unfolded, under a line that says what it holds.

use crate::home::room_screen::timeline_item::{
    ItemTemplate,
    TimelineItem,
    TimelineItemContent,
    TimelineItemKind,
    VirtualTimelineItem,
};
use crate::shared::text::{decimal, decimal_string, join, joined, texts_view};
use std::collections::VecDeque;
use vstd::prelude::*;
use vstd::string::*;

verus! {

/// A timeline item together with whether it may be collapsed.
#[derive(Clone, Copy, Debug, PartialEq, Eq, Structural)]
pub struct CollapsibleEvent {
    pub event: TimelineItem,
    pub is_collapsible: bool,
}

/// Events that are drawn together.
pub struct CollapsedEventsGroup {
    events: VecDeque<CollapsibleEvent>,
}

impl View for CollapsedEventsGroup {
    type V = Seq<CollapsibleEvent>;

    closed spec fn view(&self) -> Seq<CollapsibleEvent> {
        self.events@
    }
}

/// The name of a category of events in a summary.
pub open spec fn category_name(category: nat) -> Seq<char> {
    if category == 0 {
        "membership change"@
    } else if category == 1 {
        "profile change"@
    } else if category == 2 {
        "other state change"@
    } else {
        "other event"@
    }
}

/// How many of the events fall into a category.
pub open spec fn count_in_category(events: Seq<CollapsibleEvent>, category: nat) -> nat
    decreases events.len(),
{
    if events.len() == 0 {
        0
    } else {
        count_in_category(events.drop_last(), category) + if events.last().event.category()
            == category {
            1nat
        } else {
            0nat
        }
    }
}

/// The categories below `limit` that occur among the events, each with the
/// number of its events, in the order of the categories.
pub open spec fn summary_entries(events: Seq<CollapsibleEvent>, limit: nat) -> Seq<(nat, nat)>
    decreases limit,
{
    if limit == 0 {
        Seq::empty()
    } else {
        let category = (limit - 1) as nat;
        let before = summary_entries(events, category);
        let count = count_in_category(events, category);
        if count > 0 {
            before.push((count, category))
        } else {
            before
        }
    }
}

/// One entry of a summary: the number of events and the name of their
/// category.
pub open spec fn entry_text(entry: (nat, nat)) -> Seq<char> {
    decimal(entry.0) + " "@ + category_name(entry.1)
}

/// The parts of the summary of `total` events with the given entries. Up to
/// two entries are all written out. Of more, the first two are written out
/// and the events of the others are counted together.
pub open spec fn summary_parts(entries: Seq<(nat, nat)>, total: nat) -> Seq<Seq<char>> {
    if entries.len() > 2 {
        seq![
            entry_text(entries[0]),
            entry_text(entries[1]),
            decimal((total - entries[0].0 - entries[1].0) as nat) + " other events"@,
        ]
    } else {
        Seq::new(entries.len(), |i: int| entry_text(entries[i]))
    }
}

/// The line that stands for a group of events: how many there are, and of
/// which categories.
pub open spec fn summary_text(events: Seq<CollapsibleEvent>) -> Seq<char> {
    decimal(events.len()) + " events: "@ + joined(
        summary_parts(summary_entries(events, 4), events.len()),
        ", "@,
    )
}

/// All events of a group fall into one of the four categories.
pub proof fn lemma_categories_cover_events(events: Seq<CollapsibleEvent>)
    ensures
        count_in_category(events, 0) + count_in_category(events, 1) + count_in_category(events, 2)
            + count_in_category(events, 3) == events.len(),
    decreases events.len(),
{
    if events.len() > 0 {
        lemma_categories_cover_events(events.drop_last());
    }
}

impl CollapsedEventsGroup {
    /// A group without events.
    pub fn new() -> (group: Self)
        ensures
            group@ == Seq::<CollapsibleEvent>::empty(),
    {
        CollapsedEventsGroup { events: VecDeque::new() }
    }

    /// Adds an event at the end of the group.
    pub fn add_event(&mut self, event: CollapsibleEvent)
        ensures
            final(self)@ == old(self)@.push(event),
    {
        self.events.push_back(event);
    }

    /// The number of events in the group.
    pub fn len(&self) -> (len: usize)
        ensures
            len == self@.len(),
    {
        proof {
            vstd::std_specs::vecdeque::axiom_spec_len(&self.events);
        }
        self.events.len()
    }

    /// The event at `index`.
    pub fn event(&self, index: usize) -> (event: CollapsibleEvent)
        requires
            index < self@.len(),
        ensures
            event == self@[index as int],
    {
        proof {
            vstd::std_specs::vecdeque::axiom_spec_len(&self.events);
        }
        self.events[index]
    }

    /// What `is_collapsible` computes: a group is drawn collapsed where it
    /// holds at least two events and every one of them may be collapsed.
    pub open spec fn spec_is_collapsible(events: Seq<CollapsibleEvent>) -> bool {
        events.len() >= 2 && forall|i: int| 0 <= i < events.len() ==> events[i].is_collapsible
    }

    /// Whether the group is drawn collapsed.
    pub fn is_collapsible(&self) -> (collapsible: bool)
        ensures
            collapsible == Self::spec_is_collapsible(self@),
    {
        let len = self.len();
        if len < 2 {
            return false;
        }
        let mut i: usize = 0;
        while i < len
            invariant
                i <= len,
                len == self@.len(),
                forall|k: int| 0 <= k < i ==> self@[k].is_collapsible,
            decreases len - i,
        {
            if !self.event(i).is_collapsible {
                return false;
            }
            i = i + 1;
        }
        true
    }

    /// The events of each category counted.
    fn count_categories(&self) -> (counts: (usize, usize, usize, usize))
        ensures
            counts.0 == count_in_category(self@, 0),
            counts.1 == count_in_category(self@, 1),
            counts.2 == count_in_category(self@, 2),
            counts.3 == count_in_category(self@, 3),
    {
        let len = self.len();
        let mut membership: usize = 0;
        let mut profile: usize = 0;
        let mut state: usize = 0;
        let mut other: usize = 0;
        let mut i: usize = 0;
        while i < len
            invariant
                i <= len,
                len == self@.len(),
                membership == count_in_category(self@.take(i as int), 0),
                profile == count_in_category(self@.take(i as int), 1),
                state == count_in_category(self@.take(i as int), 2),
                other == count_in_category(self@.take(i as int), 3),
                membership + profile + state + other == i,
            decreases len - i,
        {
            assert(self@.take(i as int + 1).drop_last() =~= self@.take(i as int));
            let event = self.event(i);
            match event.event.kind() {
                TimelineItemKind::Event(TimelineItemContent::MembershipChange) => {
                    membership = membership + 1;
                },
                TimelineItemKind::Event(TimelineItemContent::ProfileChange) => {
                    profile = profile + 1;
                },
                TimelineItemKind::Event(TimelineItemContent::OtherState) => {
                    state = state + 1;
                },
                _ => {
                    other = other + 1;
                },
            }
            i = i + 1;
        }
        assert(self@.take(len as int) =~= self@);
        (membership, profile, state, other)
    }

    /// The text of one entry of a summary.
    fn entry_string(count: usize, category: usize) -> (text: String)
        ensures
            text@ == entry_text((count as nat, category as nat)),
    {
        let name = if category == 0 {
            "membership change"
        } else if category == 1 {
            "profile change"
        } else if category == 2 {
            "other state change"
        } else {
            "other event"
        };
        decimal_string(count).concat(" ").concat(name)
    }

    /// The line that stands for the group: the number of its events, then
    /// the categories that occur among them, each with the number of its
    /// events. The categories come in a fixed order: changes of membership,
    /// changes of profile, other changes of state, other events. Where more
    /// than two categories occur, only the first two are named and the
    /// events of the others are counted together as "other events".
    pub fn summarize(&self) -> (summary: String)
        ensures
            summary@ == summary_text(self@),
    {
        let total = self.len();
        let counts = self.count_categories();
        proof {
            lemma_categories_cover_events(self@);
            reveal_with_fuel(summary_entries, 5);
        }
        let mut entries: Vec<(usize, usize)> = Vec::new();
        if counts.0 > 0 {
            entries.push((counts.0, 0));
        }
        if counts.1 > 0 {
            entries.push((counts.1, 1));
        }
        if counts.2 > 0 {
            entries.push((counts.2, 2));
        }
        if counts.3 > 0 {
            entries.push((counts.3, 3));
        }
        let ghost listed = summary_entries(self@, 4);
        assert(listed.len() == entries.len() && forall|i: int|
            0 <= i < entries.len() ==> #[trigger] listed[i] == (
                entries[i].0 as nat,
                entries[i].1 as nat,
            ));
        let mut parts: Vec<String> = Vec::new();
        if entries.len() > 2 {
            parts.push(Self::entry_string(entries[0].0, entries[0].1));
            parts.push(Self::entry_string(entries[1].0, entries[1].1));
            let others = total - entries[0].0 - entries[1].0;
            parts.push(decimal_string(others).concat(" other events"));
        } else {
            let mut i: usize = 0;
            while i < entries.len()
                invariant
                    i <= entries.len(),
                    parts.len() == i,
                    listed.len() == entries.len(),
                    forall|k: int|
                        0 <= k < entries.len() ==> #[trigger] listed[k] == (
                            entries[k].0 as nat,
                            entries[k].1 as nat,
                        ),
                    forall|k: int| 0 <= k < i ==> (#[trigger] parts[k])@ == entry_text(listed[k]),
                decreases entries.len() - i,
            {
                parts.push(Self::entry_string(entries[i].0, entries[i].1));
                i = i + 1;
            }
        }
        assert(texts_view(parts@) =~= summary_parts(listed, total as nat));
        let list = join(&parts, ", ");
        decimal_string(total).concat(" events: ").concat(list.as_str())
    }
}

/// The values of a list of groups, in the same order.
pub open spec fn groups_view(groups: Seq<CollapsedEventsGroup>) -> Seq<Seq<CollapsibleEvent>> {
    Seq::new(groups.len(), |i: int| groups[i]@)
}

/// The items of a timeline, each marked as collapsible where it is a small
/// state event.
pub open spec fn collapsible_events(items: Seq<TimelineItem>) -> Seq<CollapsibleEvent> {
    Seq::new(
        items.len(),
        |i: int| CollapsibleEvent { event: items[i], is_collapsible: items[i].is_small_state_event() },
    )
}

/// The number of collapsible events with which `events` begins.
pub open spec fn leading_run(events: Seq<CollapsibleEvent>) -> nat
    decreases events.len(),
{
    if events.len() == 0 || !events[0].is_collapsible {
        0
    } else {
        1 + leading_run(events.drop_first())
    }
}

/// The groups in which events are drawn: every longest run of two or more
/// collapsible events is one group, and every other event is a group of
/// its own. The groups keep the order of the events.
pub open spec fn grouped(events: Seq<CollapsibleEvent>) -> Seq<Seq<CollapsibleEvent>>
    decreases events.len(),
{
    if events.len() == 0 {
        Seq::empty()
    } else {
        let run = leading_run(events);
        if run >= 2 && run <= events.len() {
            seq![events.take(run as int)] + grouped(events.skip(run as int))
        } else {
            seq![events.take(1)] + grouped(events.skip(1))
        }
    }
}

/// Each event as a group of its own.
pub open spec fn singletons(events: Seq<CollapsibleEvent>) -> Seq<Seq<CollapsibleEvent>> {
    Seq::new(events.len(), |i: int| seq![events[i]])
}

/// A run of collapsible events that is followed by the end or by an event
/// that is not collapsible is the whole leading run.
pub proof fn lemma_leading_run_of_closed_run(
    run: Seq<CollapsibleEvent>,
    rest: Seq<CollapsibleEvent>,
)
    requires
        forall|i: int| 0 <= i < run.len() ==> run[i].is_collapsible,
        rest.len() == 0 || !rest[0].is_collapsible,
    ensures
        leading_run(run + rest) == run.len(),
    decreases run.len(),
{
    if run.len() == 0 {
        assert(run + rest =~= rest);
    } else {
        assert((run + rest).drop_first() =~= run.drop_first() + rest);
        lemma_leading_run_of_closed_run(run.drop_first(), rest);
    }
}

/// The groups of a closed run followed by other events: the run is one
/// group where it has two events or more, one event alone where it has
/// one, and the groups of the other events follow.
pub proof fn lemma_groups_after_closed_run(run: Seq<CollapsibleEvent>, rest: Seq<CollapsibleEvent>)
    requires
        forall|i: int| 0 <= i < run.len() ==> run[i].is_collapsible,
        rest.len() == 0 || !rest[0].is_collapsible,
    ensures
        grouped(run + rest) == if run.len() == 0 {
            grouped(rest)
        } else {
            seq![run] + grouped(rest)
        },
{
    lemma_leading_run_of_closed_run(run, rest);
    let all = run + rest;
    if run.len() == 0 {
        assert(all =~= rest);
    } else {
        assert(all.take(run.len() as int) =~= run);
        assert(all.skip(run.len() as int) =~= rest);
    }
}

/// The timeline of a room as the screen holds it: the items, and the groups
/// in which they are drawn.
pub struct TimelineUiState {
    pub items: Vec<TimelineItem>,
    pub collapsed_groups: Vec<CollapsedEventsGroup>,
}

/// The screen of one room.
pub struct RoomScreen {
    /// The timeline, once the room has one.
    pub tl_state: Option<TimelineUiState>,
}

/// How a group of events is drawn.
pub enum GroupDrawing {
    /// As one item that can be unfolded: under a line with the summary, the
    /// events in order, each with its index in the group and its template.
    Collapsed { summary: String, events: Vec<(usize, ItemTemplate)> },
    /// As its first event, with that event's template.
    Single { template: ItemTemplate },
}

impl RoomScreen {
    /// The template of a single event: a message has its own, every other
    /// event is drawn as a small state event, and a virtual item takes no
    /// space.
    pub open spec fn template_of(event: TimelineItem) -> ItemTemplate {
        match event.kind {
            TimelineItemKind::Event(TimelineItemContent::Message) => ItemTemplate::Message,
            TimelineItemKind::Event(_) => ItemTemplate::SmallStateEvent,
            TimelineItemKind::Virtual(_) => ItemTemplate::Empty,
        }
    }

    /// Whether an item may be collapsed: it may where it is a small state
    /// event.
    pub fn is_event_collapsible(event: &TimelineItem) -> (collapsible: bool)
        ensures
            collapsible == event.is_small_state_event(),
    {
        match event.kind() {
            TimelineItemKind::Event(TimelineItemContent::MembershipChange) => true,
            TimelineItemKind::Event(TimelineItemContent::ProfileChange) => true,
            TimelineItemKind::Event(TimelineItemContent::OtherState) => true,
            _ => false,
        }
    }

    /// The template with which a single event is drawn.
    pub fn draw_single_event(event: &TimelineItem) -> (template: ItemTemplate)
        ensures
            template == Self::template_of(*event),
    {
        match event.kind() {
            TimelineItemKind::Event(content) => match content {
                TimelineItemContent::Message => ItemTemplate::Message,
                _ => ItemTemplate::SmallStateEvent,
            },
            TimelineItemKind::Virtual(_) => ItemTemplate::Empty,
        }
    }

    /// How a group is drawn: collapsed, with its summary and all its
    /// events, where it is collapsible, and as its first event otherwise.
    pub fn draw_event_group(group: &CollapsedEventsGroup) -> (drawing: GroupDrawing)
        requires
            group@.len() > 0,
        ensures
            match drawing {
                GroupDrawing::Collapsed { summary, events } => {
                    &&& CollapsedEventsGroup::spec_is_collapsible(group@)
                    &&& summary@ == summary_text(group@)
                    &&& events@.len() == group@.len()
                    &&& forall|i: int|
                        0 <= i < events@.len() ==> #[trigger] events@[i] == (
                            i as usize,
                            Self::template_of(group@[i].event),
                        )
                },
                GroupDrawing::Single { template } => {
                    &&& !CollapsedEventsGroup::spec_is_collapsible(group@)
                    &&& template == Self::template_of(group@[0].event)
                },
            },
    {
        if group.is_collapsible() {
            let summary = group.summarize();
            let mut events: Vec<(usize, ItemTemplate)> = Vec::new();
            let len = group.len();
            let mut index: usize = 0;
            while index < len
                invariant
                    index <= len,
                    len == group@.len(),
                    events@.len() == index,
                    forall|i: int|
                        0 <= i < index ==> #[trigger] events@[i] == (
                            i as usize,
                            Self::template_of(group@[i].event),
                        ),
                decreases len - index,
            {
                let event = group.event(index);
                events.push((index, Self::draw_single_event(&event.event)));
                index = index + 1;
            }
            GroupDrawing::Collapsed { summary, events }
        } else {
            let event = group.event(0);
            GroupDrawing::Single { template: Self::draw_single_event(&event.event) }
        }
    }

    /// The template with which the timeline draws the item at `item_id`.
    /// An index past the end is filled with an empty item.
    pub fn draw_timeline(items: &Vec<TimelineItem>, item_id: usize) -> (template: ItemTemplate)
        ensures
            template == if item_id < items@.len() {
                match items@[item_id as int].kind {
                    TimelineItemKind::Event(TimelineItemContent::Message) => ItemTemplate::Message,
                    TimelineItemKind::Event(_) => ItemTemplate::SmallStateEvent,
                    TimelineItemKind::Virtual(VirtualTimelineItem::DayDivider(_)) =>
                        ItemTemplate::DayDivider,
                    TimelineItemKind::Virtual(VirtualTimelineItem::ReadMarker) =>
                        ItemTemplate::ReadMarker,
                }
            } else {
                ItemTemplate::Empty
            },
    {
        if item_id >= items.len() {
            return ItemTemplate::Empty;
        }
        match items[item_id].kind() {
            TimelineItemKind::Event(content) => match content {
                TimelineItemContent::Message => ItemTemplate::Message,
                _ => ItemTemplate::SmallStateEvent,
            },
            TimelineItemKind::Virtual(VirtualTimelineItem::DayDivider(_)) => ItemTemplate::DayDivider,
            TimelineItemKind::Virtual(VirtualTimelineItem::ReadMarker) => ItemTemplate::ReadMarker,
        }
    }

    /// Closes the group that is being collected: it is added as one group
    /// where it is collapsible, and event by event otherwise.
    fn close_group(groups: &mut Vec<CollapsedEventsGroup>, group: CollapsedEventsGroup)
        ensures
            groups_view(final(groups)@) == groups_view(old(groups)@) + if
                CollapsedEventsGroup::spec_is_collapsible(group@) {
                seq![group@]
            } else {
                singletons(group@)
            },
    {
        if group.is_collapsible() {
            groups.push(group);
            assert(groups_view(groups@) =~= groups_view(old(groups)@) + seq![group@]);
        } else {
            let len = group.len();
            let mut i: usize = 0;
            assert(groups_view(groups@) =~= groups_view(old(groups)@) + singletons(
                group@.take(0),
            ));
            while i < len
                invariant
                    i <= len,
                    len == group@.len(),
                    groups_view(groups@) == groups_view(old(groups)@) + singletons(
                        group@.take(i as int),
                    ),
                decreases len - i,
            {
                let ghost before = groups@;
                let mut single = CollapsedEventsGroup::new();
                single.add_event(group.event(i));
                assert(single@ =~= seq![group@[i as int]]);
                groups.push(single);
                assert(groups_view(groups@) =~= groups_view(before) + seq![single@]);
                assert(singletons(group@.take(i as int + 1)) =~= singletons(group@.take(i as int))
                    + seq![single@]);
                i = i + 1;
            }
            assert(group@.take(len as int) =~= group@);
        }
    }

    /// Groups the items of the timeline for drawing: every longest run of
    /// two or more small state events becomes one group, and every other
    /// item a group of its own. Returns whether the screen has to be drawn
    /// again, which it has wherever there is a timeline.
    pub fn process_timeline_events(&mut self) -> (redraw: bool)
        ensures
            redraw == old(self).tl_state is Some,
            match old(self).tl_state {
                Some(timeline) => {
                    &&& final(self).tl_state is Some
                    &&& final(self).tl_state->0.items == timeline.items
                    &&& groups_view(final(self).tl_state->0.collapsed_groups@) == grouped(
                        collapsible_events(timeline.items@),
                    )
                },
                None => final(self).tl_state is None,
            },
    {
        let timeline = match self.tl_state.take() {
            Some(timeline) => timeline,
            None => {
                return false;
            },
        };
        let items = timeline.items;
        let ghost all = collapsible_events(items@);
        let mut collapsed_groups: Vec<CollapsedEventsGroup> = Vec::new();
        let mut current_group = CollapsedEventsGroup::new();
        let mut i: usize = 0;
        assert(current_group@ + all.skip(0) =~= all);
        assert(groups_view(collapsed_groups@) + grouped(all) =~= grouped(all));
        while i < items.len()
            invariant
                i <= items.len(),
                all == collapsible_events(items@),
                forall|k: int| 0 <= k < current_group@.len() ==> current_group@[k].is_collapsible,
                grouped(all) == groups_view(collapsed_groups@) + grouped(
                    current_group@ + all.skip(i as int),
                ),
            decreases items.len() - i,
        {
            let event = items[i];
            let is_collapsible = Self::is_event_collapsible(&event);
            let collapsible_event = CollapsibleEvent { event, is_collapsible };
            let ghost rest = all.skip(i as int);
            assert(rest[0] == collapsible_event);
            assert(rest.skip(1) =~= all.skip(i as int + 1));
            if is_collapsible {
                let ghost run = current_group@;
                current_group.add_event(collapsible_event);
                assert(current_group@ + all.skip(i as int + 1) =~= run + rest);
            } else {
                let ghost run = current_group@;
                let ghost done = groups_view(collapsed_groups@);
                proof {
                    lemma_groups_after_closed_run(run, rest);
                    lemma_leading_run_of_closed_run(Seq::empty(), rest);
                    assert(Seq::<CollapsibleEvent>::empty() + rest =~= rest);
                    assert(rest.take(1) =~= seq![collapsible_event]);
                    if !CollapsedEventsGroup::spec_is_collapsible(run) {
                        if run.len() == 1 {
                            assert(seq![run[0]] =~= run);
                            assert(singletons(run) =~= seq![run]);
                        } else {
                            assert(singletons(run) =~= Seq::empty());
                        }
                    }
                }
                Self::close_group(&mut collapsed_groups, current_group);
                current_group = CollapsedEventsGroup::new();
                let mut new_group = CollapsedEventsGroup::new();
                new_group.add_event(collapsible_event);
                assert(new_group@ =~= seq![collapsible_event]);
                let ghost closed = groups_view(collapsed_groups@);
                collapsed_groups.push(new_group);
                assert(groups_view(collapsed_groups@) =~= closed + seq![new_group@]);
                assert(current_group@ + all.skip(i as int + 1) =~= rest.skip(1));
                assert(grouped(all) =~= groups_view(collapsed_groups@) + grouped(rest.skip(1)));
            }
            i = i + 1;
        }
        let ghost run = current_group@;
        let ghost done = groups_view(collapsed_groups@);
        proof {
            assert(all.skip(i as int) =~= Seq::empty());
            lemma_groups_after_closed_run(run, Seq::empty());
            assert(run + Seq::<CollapsibleEvent>::empty() =~= run);
            assert(grouped(Seq::<CollapsibleEvent>::empty()) =~= Seq::empty());
            if !CollapsedEventsGroup::spec_is_collapsible(run) {
                if run.len() == 1 {
                    assert(seq![run[0]] =~= run);
                            assert(singletons(run) =~= seq![run]);
                } else {
                    assert(singletons(run) =~= Seq::empty());
                }
            }
        }
        Self::close_group(&mut collapsed_groups, current_group);
        assert(groups_view(collapsed_groups@) =~= grouped(all));
        self.tl_state = Some(TimelineUiState { items, collapsed_groups });
        true
    }
}

} // verus!
