//! The message input that offers the members of a room when the user types
//! an `@`.

use crate::shared::text::{contains, ends_with, lowercase, occurs_in, to_lowercase};
use vstd::prelude::*;
use vstd::string::*;

verus! {

/// What the input tells the widget that owns it.
#[derive(Debug)]
pub enum MentionInputBarAction {
    /// The text of the message has changed; this is the new text.
    MessageChanged(String),
    /// The user has chosen a member to mention; this is the member's name.
    UserMentioned(String),
}

/// The mathematical value of a [`MentionInputBarAction`].
pub enum MentionInputBarActionView {
    MessageChanged(Seq<char>),
    UserMentioned(Seq<char>),
}

impl View for MentionInputBarAction {
    type V = MentionInputBarActionView;

    open spec fn view(&self) -> MentionInputBarActionView {
        match self {
            MentionInputBarAction::MessageChanged(text) => MentionInputBarActionView::MessageChanged(
                text@,
            ),
            MentionInputBarAction::UserMentioned(name) => MentionInputBarActionView::UserMentioned(
                name@,
            ),
        }
    }
}

impl PartialEq for MentionInputBarAction {
    fn eq(&self, other: &Self) -> (same: bool) {
        match (self, other) {
            (
                MentionInputBarAction::MessageChanged(a),
                MentionInputBarAction::MessageChanged(b),
            ) => *a == *b,
            (MentionInputBarAction::UserMentioned(a), MentionInputBarAction::UserMentioned(b)) => *a
                == *b,
            _ => false,
        }
    }
}

impl vstd::std_specs::cmp::PartialEqSpecImpl for MentionInputBarAction {
    open spec fn obeys_eq_spec() -> bool {
        true
    }

    open spec fn eq_spec(&self, other: &Self) -> bool {
        self@ == other@
    }
}

/// What the input knows of a member of the room.
#[derive(Debug)]
pub struct RoomMember {
    pub user_id: String,
    pub display_name: Option<String>,
}

/// The mathematical value of a [`RoomMember`].
pub struct RoomMemberView {
    pub user_id: Seq<char>,
    pub display_name: Option<Seq<char>>,
}

impl View for RoomMember {
    type V = RoomMemberView;

    open spec fn view(&self) -> RoomMemberView {
        RoomMemberView {
            user_id: self.user_id@,
            display_name: match self.display_name {
                Some(name) => Some(name@),
                None => None,
            },
        }
    }
}

impl RoomMemberView {
    /// The name under which the member is listed: the display name, or the
    /// user id where the member has none.
    pub open spec fn listed_name(self) -> Seq<char> {
        match self.display_name {
            Some(name) => name,
            None => self.user_id,
        }
    }

    /// Whether the member is offered for a search text: the text must occur
    /// in the listed name, where upper and lower case count as the same.
    pub open spec fn matches(self, search_text: Seq<char>) -> bool {
        occurs_in(lowercase(search_text), lowercase(self.listed_name()))
    }
}

impl RoomMember {
    /// The name under which the member is listed.
    pub fn listed_name(&self) -> (name: String)
        ensures
            name@ == self@.listed_name(),
    {
        match &self.display_name {
            Some(name) => name.clone(),
            None => self.user_id.clone(),
        }
    }

    /// Whether the member is offered for a search text.
    pub fn matches(&self, search_text: &str) -> (matches: bool)
        ensures
            matches == self@.matches(search_text@),
    {
        let name = to_lowercase(self.listed_name().as_str());
        let wanted = to_lowercase(search_text);
        contains(name.as_str(), wanted.as_str())
    }
}

/// The values of a list of members, in the same order.
pub open spec fn members_view(members: Seq<RoomMember>) -> Seq<RoomMemberView> {
    Seq::new(members.len(), |i: int| members[i]@)
}

/// Whether the list of members is shown: while the user searches, and
/// right after an `@` has been typed.
pub open spec fn shows_user_list(search_text: Seq<char>, text: Seq<char>) -> bool {
    search_text.len() > 0 || (text.len() > 0 && text.last() == '@')
}

/// Whether `indices` are the indices of the members that match the search
/// text among the first `limit` members, in rising order.
pub open spec fn lists_matches(
    indices: Seq<usize>,
    members: Seq<RoomMemberView>,
    search_text: Seq<char>,
    limit: int,
) -> bool {
    &&& forall|k: int| 0 <= k < indices.len() ==> (#[trigger] indices[k]) < limit
    &&& forall|k: int|
        0 <= k < indices.len() ==> members[(#[trigger] indices[k]) as int].matches(search_text)
    &&& forall|j: int, k: int|
        0 <= j < k < indices.len() ==> (#[trigger] indices[j]) < (#[trigger] indices[k])
    &&& forall|i: int|
        0 <= i < limit && (#[trigger] members[i]).matches(search_text) ==> indices.contains(
            i as usize,
        )
}

/// The state of the input.
pub struct MentionInputBar {
    room_id: Option<String>,
    room_members: Vec<RoomMember>,
    current_input: String,
}

/// The mathematical value of a [`MentionInputBar`].
pub struct MentionInputBarView {
    pub room_id: Option<Seq<char>>,
    pub room_members: Seq<RoomMemberView>,
    pub current_input: Seq<char>,
}

impl View for MentionInputBar {
    type V = MentionInputBarView;

    closed spec fn view(&self) -> MentionInputBarView {
        MentionInputBarView {
            room_id: match self.room_id {
                Some(id) => Some(id@),
                None => None,
            },
            room_members: members_view(self.room_members@),
            current_input: self.current_input@,
        }
    }
}

impl MentionInputBar {
    /// An input that belongs to no room yet.
    pub fn new() -> (bar: Self)
        ensures
            bar@ == (MentionInputBarView {
                room_id: None,
                room_members: Seq::empty(),
                current_input: Seq::empty(),
            }),
    {
        let bar = MentionInputBar {
            room_id: None,
            room_members: Vec::new(),
            current_input: String::new(),
        };
        assert(members_view(bar.room_members@) =~= Seq::empty());
        bar
    }

    /// The number of members that the input knows.
    pub fn member_count(&self) -> (count: usize)
        ensures
            count == self@.room_members.len(),
    {
        self.room_members.len()
    }

    /// The text that was typed last.
    pub fn current_input(&self) -> (text: String)
        ensures
            text@ == self@.current_input,
    {
        self.current_input.clone()
    }

    /// Moves the input to a room. Returns the id of the room whose members
    /// are to be fetched: the same room.
    pub fn set_room_id(&mut self, room_id: String) -> (fetch: String)
        ensures
            final(self)@ == (MentionInputBarView { room_id: Some(room_id@), ..old(self)@ }),
            fetch@ == room_id@,
    {
        let fetch = room_id.clone();
        self.room_id = Some(room_id);
        fetch
    }

    /// Replaces the members that the input knows.
    pub fn set_room_members(&mut self, members: Vec<RoomMember>)
        ensures
            final(self)@ == (MentionInputBarView {
                room_members: members_view(members@),
                ..old(self)@
            }),
    {
        self.room_members = members;
    }

    /// The members to list for a search text, by index and in the order in
    /// which the input knows them; `None` where the list is not shown.
    /// `text` is what the input holds.
    pub fn show_user_list(&self, search_text: &str, text: &str) -> (listed: Option<Vec<usize>>)
        ensures
            match listed {
                Some(indices) => shows_user_list(search_text@, text@) && lists_matches(
                    indices@,
                    self@.room_members,
                    search_text@,
                    self@.room_members.len() as int,
                ),
                None => !shows_user_list(search_text@, text@),
            },
    {
        if search_text.is_empty() && !ends_with(text, '@') {
            return None;
        }
        let mut indices: Vec<usize> = Vec::new();
        let mut i: usize = 0;
        while i < self.room_members.len()
            invariant
                i <= self.room_members.len(),
                lists_matches(indices@, members_view(self.room_members@), search_text@, i as int),
            decreases self.room_members.len() - i,
        {
            let ghost before = indices@;
            if self.room_members[i].matches(search_text) {
                indices.push(i);
                assert(forall|k: int| 0 <= k < before.len() ==> indices@[k] == before[k]);
                assert(indices@[before.len() as int] == i);
                assert forall|m: int|
                    0 <= m < i + 1 && (#[trigger] members_view(self.room_members@)[m]).matches(
                        search_text@,
                    ) implies indices@.contains(m as usize) by {
                    if m < i {
                        let k = choose|k: int| 0 <= k < before.len() && before[k] == m as usize;
                        assert(indices@[k] == m as usize);
                    } else {
                        assert(indices@[before.len() as int] == m as usize);
                    }
                }
            }
            i = i + 1;
        }
        Some(indices)
    }

    /// Takes note of a change of the text. Returns the notice for the
    /// owner, and whether the list is to be closed and emptied: it is where
    /// the text holds no `@`.
    pub fn on_text_changed(&mut self, text: String) -> (outcome: (MentionInputBarAction, bool))
        ensures
            final(self)@ == (MentionInputBarView { current_input: text@, ..old(self)@ }),
            outcome.0@ == MentionInputBarActionView::MessageChanged(text@),
            outcome.1 == !occurs_in(seq!['@'], text@),
    {
        proof {
            reveal_strlit("@");
            assert("@"@ =~= seq!['@']);
        }
        let reset = !contains(text.as_str(), "@");
        self.current_input = text.clone();
        (MentionInputBarAction::MessageChanged(text), reset)
    }

    /// Takes note of the choice of a member. Returns the notice for the
    /// owner; the list is to be closed and emptied in every case.
    pub fn on_user_selected(&self, username: String) -> (action: MentionInputBarAction)
        ensures
            action@ == MentionInputBarActionView::UserMentioned(username@),
    {
        MentionInputBarAction::UserMentioned(username)
    }
}

} // verus!
