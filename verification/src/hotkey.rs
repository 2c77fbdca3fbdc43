//! The global hotkey: its key combination, what a press publishes, and
//! what its registration reports.
//!
//! A press reads the focus once and publishes what it finds. Nothing is
//! remembered between presses, so a press never goes unpublished for
//! repeating the text of the one before.

pub mod mac_a11y;

use vstd::prelude::*;
use vstd::string::*;
use crate::event::{SelectionEvent, SelectionEventView, SelectionType, Source};
use crate::focus::{accepts_selection, get_mac_selected_text, FocusedElement, FocusedElementView};
use crate::platform::Platform;

verus! {

/// The key combination of the hotkey.
pub open spec fn accelerator_of(platform: Platform) -> Seq<char> {
    match platform {
        Platform::MacOs => "Command+Shift+L"@,
        Platform::Other => "Ctrl+Shift+L"@,
    }
}

/// The key combination of the hotkey, as the shortcut parser reads it.
pub fn accelerator(platform: Platform) -> (keys: &'static str)
    ensures
        keys@ == accelerator_of(platform),
{
    match platform {
        Platform::MacOs => "Command+Shift+L",
        Platform::Other => "Ctrl+Shift+L",
    }
}

/// The note that a press publishes where no focus reader exists.
pub open spec fn pressed_note() -> Seq<char> {
    "Hotkey pressed"@
}

/// The note that a press publishes where no focus reader exists, as a
/// string slice.
pub fn triggered_note() -> (note: &'static str)
    ensures
        note@ == pressed_note(),
{
    "Hotkey pressed"
}

/// The event that one read of the selection under focus gives for
/// `source`: the selection, where it is more than whitespace.
pub open spec fn one_shot(
    focused: Option<FocusedElementView>,
    source: Source,
    timestamp: u64,
) -> Option<SelectionEventView> {
    match focused {
        Some(element) => match element.selected() {
            Some(text) => Some(
                SelectionEventView {
                    text,
                    app_name: source.label(),
                    timestamp,
                    selection_type: SelectionType::Selected,
                },
            ),
            None => None,
        },
        None => None,
    }
}

/// Reads the selection under focus once, for `source`.
pub fn capture_selected(
    focused: Option<&FocusedElement>,
    source: Source,
    timestamp: u64,
) -> (event: Option<SelectionEvent>)
    ensures
        event.deep_view() == one_shot(focused.deep_view(), source, timestamp),
        event matches Some(e) ==> e@.well_formed(),
{
    let selection_type = SelectionType::Selected;
    match get_mac_selected_text(focused) {
        Some(text) => Some(SelectionEvent::capture(text, source, timestamp, selection_type)),
        None => None,
    }
}

/// What a press of the hotkey publishes.
#[derive(Debug, Clone, PartialEq, Eq)]
pub enum HotkeyEmission {
    /// The captured selection, for the hotkey selection channel.
    Selection(SelectionEvent),
    /// The fixed note, for the hotkey triggered channel.
    Triggered,
    /// Nothing: no selection was found.
    Nothing,
}

/// The mathematical content of a [`HotkeyEmission`].
pub enum HotkeyEmissionView {
    Selection(SelectionEventView),
    Triggered,
    Nothing,
}

impl View for HotkeyEmission {
    type V = HotkeyEmissionView;

    open spec fn view(&self) -> HotkeyEmissionView {
        match self {
            HotkeyEmission::Selection(event) => HotkeyEmissionView::Selection(event@),
            HotkeyEmission::Triggered => HotkeyEmissionView::Triggered,
            HotkeyEmission::Nothing => HotkeyEmissionView::Nothing,
        }
    }
}

/// What a press publishes: on macOS the selection under focus, if there
/// is one; elsewhere the fixed note.
pub open spec fn emission_of(
    platform: Platform,
    focused: Option<FocusedElementView>,
    timestamp: u64,
) -> HotkeyEmissionView {
    match platform {
        Platform::MacOs => match one_shot(focused, Source::Hotkey, timestamp) {
            Some(event) => HotkeyEmissionView::Selection(event),
            None => HotkeyEmissionView::Nothing,
        },
        Platform::Other => HotkeyEmissionView::Triggered,
    }
}

/// Decides what a press of the hotkey publishes. `focused` is what the
/// accessibility layer reported when the key was pressed.
pub fn hotkey_pressed(
    platform: Platform,
    focused: Option<&FocusedElement>,
    timestamp: u64,
) -> (emission: HotkeyEmission)
    ensures
        emission@ == emission_of(platform, focused.deep_view(), timestamp),
        emission matches HotkeyEmission::Selection(e) ==> e@.well_formed(),
{
    match platform {
        Platform::MacOs => match capture_selected(focused, Source::Hotkey, timestamp) {
            Some(event) => HotkeyEmission::Selection(event),
            None => HotkeyEmission::Nothing,
        },
        Platform::Other => HotkeyEmission::Triggered,
    }
}

/// Two presses that find the same selection both publish it: the second
/// is not held back for repeating the first.
pub proof fn lemma_every_press_publishes(
    first: FocusedElementView,
    first_time: u64,
    second: FocusedElementView,
    second_time: u64,
)
    requires
        accepts_selection(first.selected_text),
        second.selected_text == first.selected_text,
    ensures
        emission_of(Platform::MacOs, Some(first), first_time) == HotkeyEmissionView::Selection(
            SelectionEventView {
                text: first.selected_text->0,
                app_name: Source::Hotkey.label(),
                timestamp: first_time,
                selection_type: SelectionType::Selected,
            },
        ),
        emission_of(Platform::MacOs, Some(second), second_time) == HotkeyEmissionView::Selection(
            SelectionEventView {
                text: first.selected_text->0,
                app_name: Source::Hotkey.label(),
                timestamp: second_time,
                selection_type: SelectionType::Selected,
            },
        ),
{
}

/// How the attempt to register the hotkey ended.
#[derive(Debug, Clone, PartialEq, Eq)]
pub enum RegistrationAttempt {
    /// The key combination could not be parsed; the parser's words.
    ParseFailed(String),
    /// The platform refused the registration; its words.
    RegisterFailed(String),
    /// The hotkey is registered.
    Registered,
}

/// The mathematical content of a [`RegistrationAttempt`].
pub enum RegistrationAttemptView {
    ParseFailed(Seq<char>),
    RegisterFailed(Seq<char>),
    Registered,
}

impl View for RegistrationAttempt {
    type V = RegistrationAttemptView;

    open spec fn view(&self) -> RegistrationAttemptView {
        match self {
            RegistrationAttempt::ParseFailed(words) => RegistrationAttemptView::ParseFailed(words@),
            RegistrationAttempt::RegisterFailed(words) => RegistrationAttemptView::RegisterFailed(
                words@,
            ),
            RegistrationAttempt::Registered => RegistrationAttemptView::Registered,
        }
    }
}

/// The report of a registration: the line to log on success, the error
/// on failure.
pub open spec fn registration_report(
    platform: Platform,
    attempt: RegistrationAttemptView,
) -> Result<Seq<char>, Seq<char>> {
    match attempt {
        RegistrationAttemptView::Registered => Ok(
            "Hotkey "@ + accelerator_of(platform) + " registered successfully"@,
        ),
        RegistrationAttemptView::ParseFailed(words) => Err(
            "Failed to parse hotkey "@ + accelerator_of(platform) + ": "@ + words,
        ),
        RegistrationAttemptView::RegisterFailed(words) => Err(words),
    }
}

/// Reports how the registration of the hotkey of `platform` ended.
pub fn register_hotkey(
    platform: Platform,
    attempt: RegistrationAttempt,
) -> (report: Result<String, String>)
    ensures
        match report {
            Ok(line) => registration_report(platform, attempt@) == Ok::<Seq<char>, Seq<char>>(
                line@,
            ),
            Err(error) => registration_report(platform, attempt@) == Err::<Seq<char>, Seq<char>>(
                error@,
            ),
        },
{
    match attempt {
        RegistrationAttempt::Registered => Ok(
            String::from_str("Hotkey ").concat(accelerator(platform)).concat(
                " registered successfully",
            ),
        ),
        RegistrationAttempt::ParseFailed(words) => Err(
            String::from_str("Failed to parse hotkey ").concat(accelerator(platform)).concat(
                ": ",
            ).concat(words.as_str()),
        ),
        RegistrationAttempt::RegisterFailed(words) => Err(words),
    }
}

/// The line that is logged when the registration failed; the monitor then
/// goes on without the hotkey.
pub fn registration_failure_line(error: &str) -> (line: String)
    ensures
        line@ == "Failed to register hotkey: "@ + error@,
{
    String::from_str("Failed to register hotkey: ").concat(error)
}

} // verus!
