//! The state of an input bar with a pop-up list of items to choose from.
//!
//! Typing the trigger opens the list. The arrow keys move the keyboard
//! focus through it, the pointer marks the item it is over, and choosing an
//! item closes the list and takes the trigger out of the text again. Items
//! are known by number: what they look like is the concern of the widget
//! that draws them.

use crate::shared::graphemes::{
    cluster_view,
    first_cluster,
    first_of,
    grapheme_clusters,
    grapheme_indices,
    last_cluster,
    last_of,
    remove_trigger,
    same_cluster,
    trigger_removed,
};
use vstd::prelude::*;

verus! {

/// What the bar tells the widget that owns it.
#[derive(Clone, Copy, Debug, PartialEq, Eq, Structural)]
pub enum CommandInputBarAction {
    /// The list has been opened and wants its items.
    ShouldBuildItems,
    /// An item has been chosen.
    ItemSelected,
}

/// A key that the bar acts on.
#[derive(Clone, Copy, Debug, PartialEq, Eq, Structural)]
pub enum CommandKey {
    ArrowDown,
    ArrowUp,
    Return,
    Escape,
    /// Any other key.
    Other,
}

/// How an item of the list is marked.
#[derive(Clone, Copy, Debug, PartialEq, Eq, Structural)]
pub enum Highlight {
    /// The item has the keyboard focus.
    KeyboardFocus,
    /// The pointer is over the item.
    PointerHover,
    /// The item is not marked.
    Plain,
}

/// The state of the bar.
pub struct CommandInputBar {
    trigger: Option<String>,
    popup_visible: bool,
    is_text_input_focus_pending: bool,
    keyboard_focus_index: Option<usize>,
    pointer_hover_index: Option<usize>,
    selectable_widgets: Vec<u64>,
    last_selected_widget: Option<u64>,
}

/// The mathematical value of a [`CommandInputBar`].
pub struct CommandInputBarView {
    /// The text that opens the list when it is typed.
    pub trigger: Option<Seq<char>>,
    pub popup_visible: bool,
    /// The text input is to get the key focus when the bar is next drawn.
    pub focus_pending: bool,
    pub keyboard_focus_index: Option<usize>,
    pub pointer_hover_index: Option<usize>,
    /// The items that can be chosen, in the order of the list.
    pub items: Seq<u64>,
    pub last_selected: Option<u64>,
}

impl CommandInputBarView {
    /// The marks point into the list. Every bar that is made by `new` and
    /// changed by the operations of this module is well formed.
    pub open spec fn well_formed(self) -> bool {
        &&& self.keyboard_focus_index matches Some(index) ==> index < self.items.len()
        &&& self.pointer_hover_index matches Some(index) ==> index < self.items.len()
    }

    /// The first grapheme cluster of the trigger: a longer trigger opens
    /// the list with its first cluster.
    pub open spec fn trigger_cluster(self) -> Option<Seq<char>> {
        match self.trigger {
            Some(trigger) => first_cluster(grapheme_clusters(trigger)),
            None => None,
        }
    }

    /// Whether typing `inserted` opens the list: it does where the last
    /// cluster typed is the trigger.
    pub open spec fn opens_popup(self, inserted: Seq<char>) -> bool {
        last_cluster(grapheme_clusters(inserted)) == self.trigger_cluster()
    }

    /// The bar with the list closed and emptied.
    pub open spec fn popup_hidden(self) -> CommandInputBarView {
        CommandInputBarView {
            popup_visible: false,
            keyboard_focus_index: None,
            pointer_hover_index: None,
            items: Seq::empty(),
            ..self
        }
    }

    /// The bar with one more item at the end of its list. The first item
    /// of a list gets the keyboard focus.
    pub open spec fn with_item(self, widget: u64) -> CommandInputBarView {
        CommandInputBarView {
            items: self.items.push(widget),
            keyboard_focus_index: match self.keyboard_focus_index {
                Some(index) => Some(index),
                None => Some(0),
            },
            ..self
        }
    }

    /// The bar after `selected` has been chosen.
    pub open spec fn selected(self, selected: u64) -> CommandInputBarView {
        CommandInputBarView {
            last_selected: Some(selected),
            focus_pending: true,
            ..self.popup_hidden()
        }
    }

    /// The index that the keyboard focus moves to from `index` by `delta`
    /// items: as far as the list goes.
    pub open spec fn moved_focus(self, index: usize, delta: i32) -> int {
        let target = index + delta;
        if target < 0 {
            0
        } else if target > self.items.len() - 1 {
            self.items.len() - 1
        } else {
            target
        }
    }

    /// How the item at `index` is marked: the keyboard focus goes before
    /// the pointer.
    pub open spec fn highlight(self, index: usize) -> Highlight {
        if self.keyboard_focus_index == Some(index) {
            Highlight::KeyboardFocus
        } else if self.pointer_hover_index == Some(index) {
            Highlight::PointerHover
        } else {
            Highlight::Plain
        }
    }
}

impl View for CommandInputBar {
    type V = CommandInputBarView;

    closed spec fn view(&self) -> CommandInputBarView {
        CommandInputBarView {
            trigger: cluster_view(self.trigger),
            popup_visible: self.popup_visible,
            focus_pending: self.is_text_input_focus_pending,
            keyboard_focus_index: self.keyboard_focus_index,
            pointer_hover_index: self.pointer_hover_index,
            items: self.selectable_widgets@,
            last_selected: self.last_selected_widget,
        }
    }
}

impl CommandInputBar {
    /// A bar with the given trigger, with its list closed and empty.
    pub fn new(trigger: Option<String>) -> (bar: Self)
        ensures
            bar@ == (CommandInputBarView {
                trigger: cluster_view(trigger),
                popup_visible: false,
                focus_pending: false,
                keyboard_focus_index: None,
                pointer_hover_index: None,
                items: Seq::empty(),
                last_selected: None,
            }),
            bar@.well_formed(),
    {
        CommandInputBar {
            trigger,
            popup_visible: false,
            is_text_input_focus_pending: false,
            keyboard_focus_index: None,
            pointer_hover_index: None,
            selectable_widgets: Vec::new(),
            last_selected_widget: None,
        }
    }

    /// Whether the list is open.
    pub fn is_popup_visible(&self) -> (visible: bool)
        ensures
            visible == self@.popup_visible,
    {
        self.popup_visible
    }

    /// The number of items in the list.
    pub fn item_count(&self) -> (count: usize)
        ensures
            count == self@.items.len(),
    {
        self.selectable_widgets.len()
    }

    /// The index of the item that has the keyboard focus.
    pub fn keyboard_focus_index(&self) -> (index: Option<usize>)
        ensures
            index == self@.keyboard_focus_index,
    {
        self.keyboard_focus_index
    }

    /// The index of the item that the pointer is over.
    pub fn pointer_hover_index(&self) -> (index: Option<usize>)
        ensures
            index == self@.pointer_hover_index,
    {
        self.pointer_hover_index
    }

    /// Empties the list and takes the marks away.
    fn clear_popup(&mut self)
        ensures
            final(self)@ == (CommandInputBarView {
                keyboard_focus_index: None,
                pointer_hover_index: None,
                items: Seq::empty(),
                ..old(self)@
            }),
    {
        self.keyboard_focus_index = None;
        self.pointer_hover_index = None;
        self.selectable_widgets = Vec::new();
    }

    /// Opens the list.
    fn show_popup(&mut self)
        ensures
            final(self)@ == (CommandInputBarView { popup_visible: true, ..old(self)@ }),
    {
        self.popup_visible = true;
    }

    /// Closes the list and empties it.
    pub fn hide_popup(&mut self)
        ensures
            final(self)@ == old(self)@.popup_hidden(),
    {
        self.clear_popup();
        self.popup_visible = false;
    }

    /// Goes back to the first state: the list is closed and emptied, and
    /// the text that is returned, the empty text, replaces what the input
    /// holds.
    pub fn reset(&mut self) -> (text: String)
        ensures
            final(self)@ == old(self)@.popup_hidden(),
            text@ == Seq::<char>::empty(),
    {
        self.clear_popup();
        self.hide_popup();
        String::new()
    }

    /// Empties the list.
    pub fn clear_items(&mut self)
        ensures
            final(self)@ == (CommandInputBarView {
                keyboard_focus_index: None,
                pointer_hover_index: None,
                items: Seq::empty(),
                ..old(self)@
            }),
    {
        self.clear_popup();
    }

    /// Adds an item at the end of the list. The first item added gets the
    /// keyboard focus.
    pub fn add_item(&mut self, widget: u64)
        ensures
            final(self)@ == old(self)@.with_item(widget),
    {
        self.selectable_widgets.push(widget);
        if self.keyboard_focus_index.is_none() {
            self.keyboard_focus_index = Some(0);
        }
    }

    /// The item that was chosen, where `actions` hold the notice of a
    /// choice.
    pub fn item_selected(&self, actions: &Vec<CommandInputBarAction>) -> (selected: Option<u64>)
        ensures
            selected == if actions@.contains(CommandInputBarAction::ItemSelected) {
                self@.last_selected
            } else {
                None
            },
    {
        let mut i: usize = 0;
        while i < actions.len()
            invariant
                i <= actions.len(),
                forall|k: int| 0 <= k < i ==> actions@[k] != CommandInputBarAction::ItemSelected,
            decreases actions.len() - i,
        {
            if actions[i] == CommandInputBarAction::ItemSelected {
                return self.last_selected_widget;
            }
            i = i + 1;
        }
        None
    }

    /// Whether `actions` hold the request to build the items of the list.
    pub fn should_build_items(&self, actions: &Vec<CommandInputBarAction>) -> (build: bool)
        ensures
            build == actions@.contains(CommandInputBarAction::ShouldBuildItems),
    {
        let mut i: usize = 0;
        while i < actions.len()
            invariant
                i <= actions.len(),
                forall|k: int|
                    0 <= k < i ==> actions@[k] != CommandInputBarAction::ShouldBuildItems,
            decreases actions.len() - i,
        {
            if actions[i] == CommandInputBarAction::ShouldBuildItems {
                return true;
            }
            i = i + 1;
        }
        false
    }

    /// Asks for the key focus to go to the text input when the bar is next
    /// drawn.
    pub fn request_text_input_focus(&mut self)
        ensures
            final(self)@ == (CommandInputBarView { focus_pending: true, ..old(self)@ }),
    {
        self.is_text_input_focus_pending = true;
    }

    /// Whether the key focus is to go to the text input now; the request
    /// is then done with.
    pub fn take_focus_request(&mut self) -> (focus: bool)
        ensures
            focus == old(self)@.focus_pending,
            final(self)@ == (CommandInputBarView { focus_pending: false, ..old(self)@ }),
    {
        let focus = self.is_text_input_focus_pending;
        self.is_text_input_focus_pending = false;
        focus
    }

    /// The first grapheme cluster of the trigger.
    pub fn trigger_grapheme(&self) -> (cluster: Option<String>)
        ensures
            cluster_view(cluster) == self@.trigger_cluster(),
    {
        match &self.trigger {
            Some(trigger) => {
                let clusters = grapheme_indices(trigger.as_str());
                first_of(&clusters)
            },
            None => None,
        }
    }

    /// Takes note of text that was typed. Where its last cluster is the
    /// trigger, the list is opened and its items are asked for.
    pub fn on_text_inserted(&mut self, inserted: &str) -> (action: Option<CommandInputBarAction>)
        ensures
            old(self)@.opens_popup(inserted@) ==> action == Some(
                CommandInputBarAction::ShouldBuildItems,
            ) && final(self)@ == (CommandInputBarView { popup_visible: true, ..old(self)@ }),
            !old(self)@.opens_popup(inserted@) ==> action is None && final(self)@ == old(self)@,
    {
        let clusters = grapheme_indices(inserted);
        let last = last_of(&clusters);
        let trigger = self.trigger_grapheme();
        if same_cluster(&last, &trigger) {
            self.show_popup();
            Some(CommandInputBarAction::ShouldBuildItems)
        } else {
            None
        }
    }

    /// The text without the trigger that opened the list, where the
    /// cluster before the cursor is the trigger; `head` is the byte offset
    /// of the cursor in the text.
    pub fn try_remove_trigger_grapheme(&self, text: &str, head: usize) -> (replacement: Option<
        String,
    >)
        ensures
            cluster_view(replacement) == trigger_removed(
                grapheme_clusters(text@),
                head as int,
                self@.trigger_cluster(),
            ),
    {
        let clusters = grapheme_indices(text);
        let trigger = self.trigger_grapheme();
        remove_trigger(&clusters, head, &trigger)
    }

    /// Chooses an item: it is remembered, the list is closed, and the key
    /// focus is asked back for the text input. Returns the notice for the
    /// owner, and the text that replaces that of the input where the
    /// trigger is taken out of it.
    pub fn select_item(&mut self, selected: u64, text: &str, head: usize) -> (outcome: (
        CommandInputBarAction,
        Option<String>,
    ))
        ensures
            final(self)@ == old(self)@.selected(selected),
            outcome.0 == CommandInputBarAction::ItemSelected,
            cluster_view(outcome.1) == trigger_removed(
                grapheme_clusters(text@),
                head as int,
                old(self)@.trigger_cluster(),
            ),
    {
        self.last_selected_widget = Some(selected);
        self.hide_popup();
        self.is_text_input_focus_pending = true;
        let replacement = self.try_remove_trigger_grapheme(text, head);
        (CommandInputBarAction::ItemSelected, replacement)
    }

    /// The return key: chooses the item that has the keyboard focus, if
    /// there is one.
    pub fn on_text_input_submit(&mut self, text: &str, head: usize) -> (outcome: Option<
        (CommandInputBarAction, Option<String>),
    >)
        requires
            old(self)@.well_formed(),
        ensures
            match old(self)@.keyboard_focus_index {
                Some(index) => {
                    &&& final(self)@ == old(self)@.selected(old(self)@.items[index as int])
                    &&& outcome matches Some(outcome)
                    &&& outcome.0 == CommandInputBarAction::ItemSelected
                    &&& cluster_view(outcome.1) == trigger_removed(
                        grapheme_clusters(text@),
                        head as int,
                        old(self)@.trigger_cluster(),
                    )
                },
                None => outcome is None && final(self)@ == old(self)@,
            },
    {
        match self.keyboard_focus_index {
            Some(index) => {
                let selected = self.selectable_widgets[index];
                Some(self.select_item(selected, text, head))
            },
            None => None,
        }
    }

    /// A key has been pressed while the text input has the key focus. The
    /// arrows move the keyboard focus by one item, the return key chooses
    /// the item that has it, and the escape key closes the list. Returns
    /// what choosing returns, and `None` for the other keys.
    pub fn on_key_down(&mut self, key: CommandKey, text: &str, head: usize) -> (outcome: Option<
        (CommandInputBarAction, Option<String>),
    >)
        requires
            old(self)@.well_formed(),
        ensures
            match key {
                CommandKey::ArrowDown | CommandKey::ArrowUp => {
                    &&& outcome is None
                    &&& final(self)@ == (CommandInputBarView {
                        keyboard_focus_index: match old(self)@.keyboard_focus_index {
                            Some(index) => Some(
                                old(self)@.moved_focus(
                                    index,
                                    if key == CommandKey::ArrowDown {
                                        1i32
                                    } else {
                                        -1i32
                                    },
                                ) as usize,
                            ),
                            None => None,
                        },
                        ..old(self)@
                    })
                },
                CommandKey::Return => match old(self)@.keyboard_focus_index {
                    Some(index) => {
                        &&& final(self)@ == old(self)@.selected(old(self)@.items[index as int])
                        &&& outcome matches Some(outcome)
                        &&& outcome.0 == CommandInputBarAction::ItemSelected
                        &&& cluster_view(outcome.1) == trigger_removed(
                            grapheme_clusters(text@),
                            head as int,
                            old(self)@.trigger_cluster(),
                        )
                    },
                    None => outcome is None && final(self)@ == old(self)@,
                },
                CommandKey::Escape => outcome is None && final(self)@ == old(self)@.popup_hidden(),
                CommandKey::Other => outcome is None && final(self)@ == old(self)@,
            },
    {
        match key {
            CommandKey::ArrowDown => {
                self.on_keyboard_move(1);
                None
            },
            CommandKey::ArrowUp => {
                self.on_keyboard_move(-1);
                None
            },
            CommandKey::Return => self.on_text_input_submit(text, head),
            CommandKey::Escape => {
                self.hide_popup();
                None
            },
            CommandKey::Other => None,
        }
    }

    /// The arrow keys: moves the keyboard focus by `delta` items, and no
    /// further than the first and the last item. Without a keyboard focus
    /// nothing moves.
    pub fn on_keyboard_move(&mut self, delta: i32)
        requires
            old(self)@.well_formed(),
        ensures
            final(self)@.well_formed(),
            final(self)@ == (CommandInputBarView {
                keyboard_focus_index: match old(self)@.keyboard_focus_index {
                    Some(index) => Some(old(self)@.moved_focus(index, delta) as usize),
                    None => None,
                },
                ..old(self)@
            }),
    {
        match self.keyboard_focus_index {
            Some(index) => {
                let last = self.selectable_widgets.len() - 1;
                let new_index = if delta < 0 {
                    let back = (-(delta as i64)) as usize;
                    if back > index {
                        0
                    } else {
                        index - back
                    }
                } else {
                    let forward = delta as usize;
                    if forward > last - index {
                        last
                    } else {
                        index + forward
                    }
                };
                self.keyboard_focus_index = Some(new_index);
            },
            None => {},
        }
    }

    /// The pointer has come over the item at `index`.
    pub fn on_pointer_hover_in(&mut self, index: usize)
        requires
            index < old(self)@.items.len(),
        ensures
            final(self)@ == (CommandInputBarView {
                pointer_hover_index: Some(index),
                ..old(self)@
            }),
    {
        self.pointer_hover_index = Some(index);
    }

    /// The pointer has left the item at `index`.
    pub fn on_pointer_hover_out(&mut self, index: usize)
        ensures
            final(self)@ == (CommandInputBarView {
                pointer_hover_index: if old(self)@.pointer_hover_index == Some(index) {
                    None
                } else {
                    old(self)@.pointer_hover_index
                },
                ..old(self)@
            }),
    {
        if self.pointer_hover_index == Some(index) {
            self.pointer_hover_index = None;
        }
    }

    /// How the item at `index` is marked.
    pub fn highlight(&self, index: usize) -> (highlight: Highlight)
        ensures
            highlight == self@.highlight(index),
    {
        if self.keyboard_focus_index == Some(index) {
            Highlight::KeyboardFocus
        } else if self.pointer_hover_index == Some(index) {
            Highlight::PointerHover
        } else {
            Highlight::Plain
        }
    }
}

/// The operations on a bar keep it well formed: emptying and closing the
/// list, adding an item, choosing one, moving the keyboard focus, and
/// moving the pointer over an item of the list.
pub proof fn lemma_operations_keep_well_formed(
    bar: CommandInputBarView,
    widget: u64,
    index: usize,
    delta: i32,
)
    requires
        bar.well_formed(),
    ensures
        bar.popup_hidden().well_formed(),
        bar.with_item(widget).well_formed(),
        bar.selected(widget).well_formed(),
        bar.keyboard_focus_index is Some ==> 0 <= bar.moved_focus(index, delta) < bar.items.len(),
        index < bar.items.len() ==> (CommandInputBarView {
            pointer_hover_index: Some(index),
            ..bar
        }).well_formed(),
{
}

} // verus!
