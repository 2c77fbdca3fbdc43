//! What depends on the platform the monitor runs on.

use vstd::prelude::*;
use crate::event::{SelectionEvent, SelectionEventView};
use crate::focus::{get_selection, selection_of, FocusedElement, FocusedElementView};

verus! {

/// The platforms the monitor tells apart.
#[derive(Debug, Clone, Copy, PartialEq, Eq, Structural)]
pub enum Platform {
    /// macOS, whose accessibility layer is read.
    MacOs,
    /// Any other platform: no focus reader exists there.
    Other,
}

impl Platform {
    /// The permission predicate: on macOS whether the process is a
    /// trusted accessibility client; elsewhere nothing needs granting.
    pub open spec fn permits(self, process_trusted: bool) -> bool {
        match self {
            Platform::MacOs => process_trusted,
            Platform::Other => true,
        }
    }

    /// What a poll yields: on macOS what the focused element gives,
    /// elsewhere nothing.
    pub open spec fn selection(
        self,
        focused: Option<FocusedElementView>,
        timestamp: u64,
    ) -> Option<SelectionEventView> {
        match self {
            Platform::MacOs => selection_of(focused, timestamp),
            Platform::Other => None,
        }
    }

    /// Evaluates the permission predicate. `process_trusted` is what the
    /// accessibility layer reports of the process; it is not looked at
    /// off macOS.
    pub fn check_accessibility_permissions(self, process_trusted: bool) -> (granted: bool)
        ensures
            granted == self.permits(process_trusted),
    {
        match self {
            Platform::MacOs => process_trusted,
            Platform::Other => true,
        }
    }

    /// One poll of the focus reader of this platform.
    pub fn get_current_selection(
        self,
        focused: Option<&FocusedElement>,
        timestamp: u64,
    ) -> (event: Option<SelectionEvent>)
        ensures
            event.deep_view() == self.selection(focused.deep_view(), timestamp),
            event matches Some(e) ==> e@.well_formed(),
    {
        match self {
            Platform::MacOs => get_selection(focused, timestamp),
            Platform::Other => None,
        }
    }
}

} // verus!
