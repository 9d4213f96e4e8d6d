use vstd::prelude::*;
use crate::raw_command::is_digit;
use crate::story::Story;

verus! {

/// A key press, the input alphabet of the views.
#[derive(Debug, Clone, Copy, PartialEq, Eq, Structural)]
pub enum Key {
    Char(char),
    Enter,
    Up,
    Down,
    AltChar(char),
}

/// The keys a binding fires on.
#[derive(Debug, Clone, Copy, PartialEq, Eq, Structural)]
pub enum Trigger {
    Exact(Key),
    AnyDigit,
}

impl Trigger {
    pub open spec fn matches(self, key: Key) -> bool {
        match self {
            Trigger::Exact(k) => k == key,
            Trigger::AnyDigit => key matches Key::Char(c) && is_digit(c),
        }
    }

    /// Whether this trigger fires on `key`.
    pub fn fires_on(&self, key: Key) -> (r: bool)
        ensures
            r == self.matches(key),
    {
        match self {
            Trigger::Exact(k) => *k == key,
            Trigger::AnyDigit => match key {
                Key::Char(c) => '0' <= c && c <= '9',
                _ => false,
            },
        }
    }
}

/// Whether a binding is tried before the view's own handling of a key, or
/// only after the view has ignored it.
#[derive(Debug, Clone, Copy, PartialEq, Eq, Structural)]
pub enum Phase {
    Pre,
    Post,
}

/// What a binding does when it fires.
#[derive(Debug, Clone, Copy, PartialEq, Eq, Structural)]
pub enum Action {
    /// Open the comment view of the focused story.
    DrillDown,
    /// Open the focused story's link in a browser.
    OpenLink,
    /// Move the focus to the line typed in the raw command buffer.
    GotoLine,
    /// Add the pressed digit to the raw command buffer.
    PushDigit,
    /// Replace the current layer with the search view.
    SwitchToSearch,
    /// Replace the current layer with the help view.
    ShowHelp,
}

/// One entry of a binding chain.
#[derive(Debug, Clone, Copy, PartialEq, Eq, Structural)]
pub struct Binding {
    pub trigger: Trigger,
    pub phase: Phase,
    pub action: Action,
}

/// A change of the layer stack or of the outside world that a handled key asks
/// for; it is carried out once the whole chain has run.
#[derive(Debug, Clone)]
pub enum Effect {
    /// Replace the current layer with a loading view of this story's comments.
    DrillDown(Story),
    /// Launch a browser on this link.
    OpenLink(String),
    /// Replace the current layer with the search view.
    SwitchToSearch,
    /// Replace the current layer with the help view.
    ShowHelp,
}

/// The outcome of offering a key to a handler or a chain.
#[derive(Debug, Clone)]
pub enum EventResult {
    /// Not handled: the next handler is tried.
    Ignored,
    /// Handled, possibly with an effect to carry out afterwards.
    Consumed(Option<Effect>),
}

impl EventResult {
    pub open spec fn consumed(self) -> bool {
        self is Consumed
    }

    /// Whether the key was handled.
    pub fn is_consumed(&self) -> (r: bool)
        ensures
            r == self.consumed(),
    {
        match self {
            EventResult::Consumed(_) => true,
            EventResult::Ignored => false,
        }
    }
}

} // verus!
