//! The plain message input.

use vstd::prelude::*;

verus! {

/// What the text input of the bar reports.
#[derive(Debug)]
pub enum TextInputAction {
    /// The input has got the key focus.
    KeyFocus,
    /// The input has lost the key focus.
    KeyFocusLost,
    /// The text has changed; this is the new text.
    Change(String),
    /// Anything else.
    Other,
}

/// What the bar tells the widget that owns it.
#[derive(Debug)]
pub enum InputBarAction {
    LocationButtonClicked,
    /// The text of the message has changed; this is the new text.
    MessageChanged(String),
}

/// The mathematical value of an [`InputBarAction`].
pub enum InputBarActionView {
    LocationButtonClicked,
    MessageChanged(Seq<char>),
}

impl View for InputBarAction {
    type V = InputBarActionView;

    open spec fn view(&self) -> InputBarActionView {
        match self {
            InputBarAction::LocationButtonClicked => InputBarActionView::LocationButtonClicked,
            InputBarAction::MessageChanged(text) => InputBarActionView::MessageChanged(text@),
        }
    }
}

impl PartialEq for InputBarAction {
    fn eq(&self, other: &Self) -> (same: bool) {
        match (self, other) {
            (InputBarAction::LocationButtonClicked, InputBarAction::LocationButtonClicked) => true,
            (InputBarAction::MessageChanged(a), InputBarAction::MessageChanged(b)) => *a == *b,
            _ => false,
        }
    }
}

impl vstd::std_specs::cmp::PartialEqSpecImpl for InputBarAction {
    open spec fn obeys_eq_spec() -> bool {
        true
    }

    open spec fn eq_spec(&self, other: &Self) -> bool {
        self@ == other@
    }
}

/// What the input method editor is to do after an event.
#[derive(Clone, Copy, Debug, PartialEq, Eq, Structural)]
pub enum ImeRequest {
    Show,
    Hide,
    Keep,
}

/// The state of the bar.
#[derive(Clone, Copy, Debug, PartialEq, Eq, Structural)]
pub struct InputBar {
    has_focus: bool,
}

impl InputBar {
    /// A bar without the key focus.
    pub fn new() -> (bar: Self)
        ensures
            !bar.focused(),
    {
        InputBar { has_focus: false }
    }

    /// Whether the text input has the key focus.
    pub closed spec fn focused(self) -> bool {
        self.has_focus
    }

    /// Whether the text input has the key focus.
    pub fn has_focus(&self) -> (focus: bool)
        ensures
            focus == self.focused(),
    {
        self.has_focus
    }

    /// Gives the text input the key focus.
    pub fn set_key_focus(&mut self)
        ensures
            final(self).focused(),
    {
        self.has_focus = true;
    }

    /// Takes note of what the text input reports. The bar keeps track of
    /// the key focus, passes a change of the text on to its owner, and
    /// shows the input method editor with the focus and with every change,
    /// and hides it when the focus is lost.
    pub fn handle_event(&mut self, action: TextInputAction) -> (outcome: (
        Option<InputBarAction>,
        ImeRequest,
    ))
        ensures
            match action {
                TextInputAction::KeyFocus => final(self).focused() && outcome.0 is None && outcome.1
                    == ImeRequest::Show,
                TextInputAction::KeyFocusLost => !final(self).focused() && outcome.0 is None
                    && outcome.1 == ImeRequest::Hide,
                TextInputAction::Change(text) => {
                    &&& final(self).focused() == old(self).focused()
                    &&& outcome.0 is Some
                    &&& outcome.0->0@ == InputBarActionView::MessageChanged(text@)
                    &&& outcome.1 == ImeRequest::Show
                },
                TextInputAction::Other => final(self).focused() == old(self).focused() && outcome.0
                    is None && outcome.1 == ImeRequest::Keep,
            },
    {
        match action {
            TextInputAction::KeyFocus => {
                self.has_focus = true;
                (None, ImeRequest::Show)
            },
            TextInputAction::KeyFocusLost => {
                self.has_focus = false;
                (None, ImeRequest::Hide)
            },
            TextInputAction::Change(text) => (
                Some(InputBarAction::MessageChanged(text)),
                ImeRequest::Show,
            ),
            TextInputAction::Other => (None, ImeRequest::Keep),
        }
    }
}

} // verus!
