//! The notification that the monitor publishes.

use vstd::prelude::*;
use vstd::string::*;
use crate::text::is_blank;

verus! {

/// Why a text was captured.
#[derive(Debug, Clone, Copy, PartialEq, Eq, Structural)]
pub enum SelectionType {
    /// The user selected the text.
    Selected,
    /// The pointer rests on the text.
    Hovered,
    /// The text is the content of the focused element.
    Focused,
}

/// One captured text, as it is delivered to subscribers.
#[derive(Debug, Clone, PartialEq, Eq)]
pub struct SelectionEvent {
    /// The captured text, as read: not trimmed.
    pub text: String,
    /// The label of the path that captured it.
    pub app_name: String,
    /// Seconds since the Unix epoch at which it was captured.
    pub timestamp: u64,
    /// Why it was captured.
    pub selection_type: SelectionType,
}

/// The mathematical content of a [`SelectionEvent`].
pub struct SelectionEventView {
    pub text: Seq<char>,
    pub app_name: Seq<char>,
    pub timestamp: u64,
    pub selection_type: SelectionType,
}

impl View for SelectionEvent {
    type V = SelectionEventView;

    open spec fn view(&self) -> SelectionEventView {
        SelectionEventView {
            text: self.text@,
            app_name: self.app_name@,
            timestamp: self.timestamp,
            selection_type: self.selection_type,
        }
    }
}

impl DeepView for SelectionEvent {
    type V = SelectionEventView;

    open spec fn deep_view(&self) -> SelectionEventView {
        self@
    }
}

impl SelectionEventView {
    /// An event is worth publishing when its text is more than whitespace.
    pub open spec fn well_formed(self) -> bool {
        !is_blank(self.text)
    }
}

/// Where an event was captured.
#[derive(Debug, Clone, Copy, PartialEq, Eq, Structural)]
pub enum Source {
    /// The polling detector.
    Poll,
    /// A press of the global hotkey.
    Hotkey,
    /// A command of the front end.
    Manual,
}

impl Source {
    /// The label that events of this source carry.
    pub open spec fn label(self) -> Seq<char> {
        match self {
            Source::Poll => "Unknown"@,
            Source::Hotkey => "Hotkey"@,
            Source::Manual => "Manual"@,
        }
    }

    /// The label that events of this source carry, as a string.
    pub fn to_label(self) -> (label: String)
        ensures
            label@ == self.label(),
    {
        match self {
            Source::Poll => String::from_str("Unknown"),
            Source::Hotkey => String::from_str("Hotkey"),
            Source::Manual => String::from_str("Manual"),
        }
    }
}

/// The sources carry labels of their own, so that subscribers can tell
/// by the label which path captured an event.
pub proof fn lemma_labels_differ(a: Source, b: Source)
    requires
        a != b,
    ensures
        a.label() != b.label(),
{
    reveal_strlit("Unknown");
    reveal_strlit("Hotkey");
    reveal_strlit("Manual");
    assert("Unknown"@.len() == 7);
    assert("Hotkey"@[0] == 'H');
    assert("Manual"@[0] == 'M');
}

impl SelectionEvent {
    /// The event for `text`, captured by `source` at `timestamp`.
    pub fn capture(
        text: String,
        source: Source,
        timestamp: u64,
        selection_type: SelectionType,
    ) -> (event: Self)
        ensures
            event@ == (SelectionEventView {
                text: text@,
                app_name: source.label(),
                timestamp,
                selection_type,
            }),
    {
        SelectionEvent { text, app_name: source.to_label(), timestamp, selection_type }
    }
}

/// The channels on which the monitor publishes.
#[derive(Debug, Clone, Copy, PartialEq, Eq, Structural)]
pub enum Channel {
    /// A change that the polling detector found; carries a
    /// [`SelectionEvent`].
    SelectionChanged,
    /// A selection that a hotkey press captured; carries a
    /// [`SelectionEvent`].
    HotkeySelection,
    /// A hotkey press where no focus reader exists; carries a fixed note.
    HotkeyTriggered,
}

impl Channel {
    /// The name under which subscribers listen.
    pub open spec fn name_of(self) -> Seq<char> {
        match self {
            Channel::SelectionChanged => "text-selection-changed"@,
            Channel::HotkeySelection => "hotkey-selection-detected"@,
            Channel::HotkeyTriggered => "hotkey-triggered"@,
        }
    }

    /// The name under which subscribers listen, as a string slice.
    pub fn name(self) -> (name: &'static str)
        ensures
            name@ == self.name_of(),
    {
        match self {
            Channel::SelectionChanged => "text-selection-changed",
            Channel::HotkeySelection => "hotkey-selection-detected",
            Channel::HotkeyTriggered => "hotkey-triggered",
        }
    }
}

} // verus!
