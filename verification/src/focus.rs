//! Choosing the text to capture from the focused element.
//!
//! The accessibility layer is read by the caller, who hands over what it
//! found as a [`FocusedElement`]; the functions here decide which of the
//! texts, if any, is captured.

use vstd::prelude::*;
use crate::event::{SelectionEvent, SelectionEventView, SelectionType, Source};
use crate::text::{is_blank, is_blank_text, lemma_trimmed_empty_iff_blank, trimmed, trimmed_len};

verus! {

/// The texts that the accessibility layer reports for the element under
/// focus. A text is `None` where the attribute could not be read.
#[derive(Debug, Clone, PartialEq, Eq)]
pub struct FocusedElement {
    /// The text that the user selected in the element.
    pub selected_text: Option<String>,
    /// The element's value.
    pub value: Option<String>,
    /// The element's title.
    pub title: Option<String>,
    /// The element's description.
    pub description: Option<String>,
    /// The element's help text.
    pub help: Option<String>,
}

/// The mathematical content of a [`FocusedElement`].
pub struct FocusedElementView {
    pub selected_text: Option<Seq<char>>,
    pub value: Option<Seq<char>>,
    pub title: Option<Seq<char>>,
    pub description: Option<Seq<char>>,
    pub help: Option<Seq<char>>,
}

impl View for FocusedElement {
    type V = FocusedElementView;

    open spec fn view(&self) -> FocusedElementView {
        FocusedElementView {
            selected_text: self.selected_text.deep_view(),
            value: self.value.deep_view(),
            title: self.title.deep_view(),
            description: self.description.deep_view(),
            help: self.help.deep_view(),
        }
    }
}

impl DeepView for FocusedElement {
    type V = FocusedElementView;

    open spec fn deep_view(&self) -> FocusedElementView {
        self@
    }
}

/// Why the focus reader has no text to give.
#[derive(Debug, Clone, Copy, PartialEq, Eq, Structural)]
pub enum FocusError {
    /// The accessibility permission is not granted: the read was refused.
    PermissionDenied,
    /// No element is under focus, or it holds no text worth capturing.
    NoFocusAvailable,
}

/// A selection is taken when it is more than whitespace.
pub open spec fn accepts_selection(candidate: Option<Seq<char>>) -> bool {
    candidate matches Some(text) && !is_blank(text)
}

/// A text of the element itself is taken when more than two characters
/// are left of it after trimming.
pub open spec fn accepts_content(candidate: Option<Seq<char>>) -> bool {
    candidate matches Some(text) && trimmed(text).len() > 2
}

impl FocusedElementView {
    /// The selection under focus, if it is taken.
    pub open spec fn selected(self) -> Option<Seq<char>> {
        if accepts_selection(self.selected_text) {
            self.selected_text
        } else {
            None
        }
    }

    /// The first of value, title, description and help that is taken.
    pub open spec fn content(self) -> Option<Seq<char>> {
        if accepts_content(self.value) {
            self.value
        } else if accepts_content(self.title) {
            self.title
        } else if accepts_content(self.description) {
            self.description
        } else if accepts_content(self.help) {
            self.help
        } else {
            None
        }
    }

    /// The first of value and title that is taken.
    pub open spec fn short_content(self) -> Option<Seq<char>> {
        if accepts_content(self.value) {
            self.value
        } else if accepts_content(self.title) {
            self.title
        } else {
            None
        }
    }

    /// The text that a poll captures and its kind: the selection first,
    /// the element's own content second.
    pub open spec fn reading(self) -> Option<(Seq<char>, SelectionType)> {
        match self.selected() {
            Some(text) => Some((text, SelectionType::Selected)),
            None => match self.content() {
                Some(text) => Some((text, SelectionType::Focused)),
                None => None,
            },
        }
    }
}

/// The event that a poll of `focused` at `timestamp` yields.
pub open spec fn selection_of(
    focused: Option<FocusedElementView>,
    timestamp: u64,
) -> Option<SelectionEventView> {
    match focused {
        Some(element) => match element.reading() {
            Some((text, selection_type)) => Some(
                SelectionEventView {
                    text,
                    app_name: Source::Poll.label(),
                    timestamp,
                    selection_type,
                },
            ),
            None => None,
        },
        None => None,
    }
}

/// What the focus reader answers: a refusal without the permission, else
/// the polled event or the report that there is none.
pub open spec fn focus_result(
    permitted: bool,
    focused: Option<FocusedElementView>,
    timestamp: u64,
) -> Result<SelectionEventView, FocusError> {
    if !permitted {
        Err(FocusError::PermissionDenied)
    } else {
        match selection_of(focused, timestamp) {
            Some(event) => Ok(event),
            None => Err(FocusError::NoFocusAvailable),
        }
    }
}

/// Every text that a poll captures is more than whitespace.
pub proof fn lemma_reading_not_blank(element: FocusedElementView)
    ensures
        element.reading() matches Some((text, _)) ==> !is_blank(text),
{
    if element.selected() is None {
        if let Some(text) = element.content() {
            lemma_trimmed_empty_iff_blank(text);
        }
    }
}

fn take_selection(candidate: &Option<String>) -> (taken: Option<String>)
    ensures
        taken.deep_view() == if accepts_selection(candidate.deep_view()) {
            candidate.deep_view()
        } else {
            None
        },
{
    match candidate {
        Some(text) => {
            if is_blank_text(text.as_str()) {
                None
            } else {
                Some(text.clone())
            }
        },
        None => None,
    }
}

fn take_content(candidate: &Option<String>) -> (taken: Option<String>)
    ensures
        taken.deep_view() == if accepts_content(candidate.deep_view()) {
            candidate.deep_view()
        } else {
            None
        },
{
    match candidate {
        Some(text) => {
            if trimmed_len(text.as_str()) > 2 {
                Some(text.clone())
            } else {
                None
            }
        },
        None => None,
    }
}

/// The selection in `element`, unless it is missing or blank.
pub fn get_selected_text(element: &FocusedElement) -> (text: Option<String>)
    ensures
        text.deep_view() == element@.selected(),
{
    take_selection(&element.selected_text)
}

/// The first of the element's value, title, description and help of which
/// more than two characters are left after trimming.
pub fn get_focused_text(element: &FocusedElement) -> (text: Option<String>)
    ensures
        text.deep_view() == element@.content(),
{
    let value = take_content(&element.value);
    if value.is_some() {
        return value;
    }
    let title = take_content(&element.title);
    if title.is_some() {
        return title;
    }
    let description = take_content(&element.description);
    if description.is_some() {
        return description;
    }
    take_content(&element.help)
}

/// The first of the element's value and title of which more than two
/// characters are left after trimming.
pub fn get_short_text(element: &FocusedElement) -> (text: Option<String>)
    ensures
        text.deep_view() == element@.short_content(),
{
    let value = take_content(&element.value);
    if value.is_some() {
        return value;
    }
    take_content(&element.title)
}

/// Polls the focused element: its selection gives a `Selected` event, else
/// its own content a `Focused` one; without either, or without an element
/// under focus, there is no event.
pub fn get_selection(
    focused: Option<&FocusedElement>,
    timestamp: u64,
) -> (event: Option<SelectionEvent>)
    ensures
        event.deep_view() == selection_of(focused.deep_view(), timestamp),
        event matches Some(e) ==> e@.well_formed(),
{
    let element = match focused {
        Some(element) => element,
        None => { return None; },
    };
    proof {
        lemma_reading_not_blank(element@);
    }
    let source = Source::Poll;
    if let Some(text) = get_selected_text(element) {
        return Some(SelectionEvent::capture(text, source, timestamp, SelectionType::Selected));
    }
    if let Some(text) = get_focused_text(element) {
        return Some(SelectionEvent::capture(text, source, timestamp, SelectionType::Focused));
    }
    None
}

/// The selection under focus alone, for the hotkey: no other text of the
/// element stands in for a missing selection.
pub fn get_mac_selected_text(focused: Option<&FocusedElement>) -> (text: Option<String>)
    ensures
        text.deep_view() == match focused {
            Some(element) => element@.selected(),
            None => None,
        },
{
    match focused {
        Some(element) => get_selected_text(element),
        None => None,
    }
}

/// The focus reader: refuses without the permission, and reports apart
/// that nothing was found.
pub fn read_focus(
    permitted: bool,
    focused: Option<&FocusedElement>,
    timestamp: u64,
) -> (result: Result<SelectionEvent, FocusError>)
    ensures
        match result {
            Ok(event) => focus_result(permitted, focused.deep_view(), timestamp) == Ok::<
                SelectionEventView,
                FocusError,
            >(event@) && event@.well_formed(),
            Err(error) => focus_result(permitted, focused.deep_view(), timestamp) == Err::<
                SelectionEventView,
                FocusError,
            >(error),
        },
{
    if !permitted {
        return Err(FocusError::PermissionDenied);
    }
    match get_selection(focused, timestamp) {
        Some(event) => Ok(event),
        None => Err(FocusError::NoFocusAvailable),
    }
}

} // verus!
