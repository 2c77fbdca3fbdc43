//! A hotkey reader for accessibility layers that let the element's own
//! text stand in for a missing selection.

use vstd::prelude::*;
use crate::focus::{get_selected_text, get_short_text, FocusedElement, FocusedElementView};

verus! {

/// What the reader gives: nothing without the permission or without an
/// element under focus; else the selection, and where there is none the
/// first of value and title that is taken.
pub open spec fn selected_or_content(
    trusted: bool,
    focused: Option<FocusedElementView>,
) -> Option<Seq<char>> {
    if !trusted {
        None
    } else {
        match focused {
            Some(element) => match element.selected() {
                Some(text) => Some(text),
                None => element.short_content(),
            },
            None => None,
        }
    }
}

/// Reads the text for the hotkey: the selection under focus, else the
/// element's value, else its title.
pub fn get_mac_selected_text(
    trusted: bool,
    focused: Option<&FocusedElement>,
) -> (text: Option<String>)
    ensures
        text.deep_view() == selected_or_content(trusted, focused.deep_view()),
{
    if !trusted {
        return None;
    }
    let element = match focused {
        Some(element) => element,
        None => { return None; },
    };
    let selected = get_selected_text(element);
    if selected.is_some() {
        return selected;
    }
    get_short_text(element)
}

} // verus!
