//! The control surface: what the commands of the front end and of the
//! tray menu do to the detector, and what they answer.

use vstd::prelude::*;
use vstd::string::*;
use crate::event::{SelectionEvent, SelectionEventView, Source};
use crate::focus::{FocusedElement, FocusedElementView};
use crate::hotkey::{capture_selected, one_shot};
use crate::platform::Platform;
use crate::text_detector::{DetectorError, DetectorView, TextDetector};

verus! {

/// How a command to start the detection ended.
#[derive(Debug, Clone, PartialEq, Eq)]
pub enum StartReply {
    /// The detector was started: the caller launches the polling loop.
    Started,
    /// The detector was running already.
    AlreadyRunning,
    /// Asking for the permission failed; the words of the failure.
    RequestFailed(String),
    /// The detector refused to start.
    StartFailed(DetectorError),
}

/// The mathematical content of a [`StartReply`].
pub enum StartReplyView {
    Started,
    AlreadyRunning,
    RequestFailed(Seq<char>),
    StartFailed(DetectorError),
}

impl View for StartReply {
    type V = StartReplyView;

    open spec fn view(&self) -> StartReplyView {
        match self {
            StartReply::Started => StartReplyView::Started,
            StartReply::AlreadyRunning => StartReplyView::AlreadyRunning,
            StartReply::RequestFailed(words) => StartReplyView::RequestFailed(words@),
            StartReply::StartFailed(error) => StartReplyView::StartFailed(*error),
        }
    }
}

impl StartReplyView {
    /// What the front end is told.
    pub open spec fn response(self) -> Result<Seq<char>, Seq<char>> {
        match self {
            StartReplyView::Started => Ok("Text detection started successfully"@),
            StartReplyView::AlreadyRunning => Ok("Text detection is already running"@),
            StartReplyView::RequestFailed(words) => Err("Failed to request permissions: "@ + words),
            StartReplyView::StartFailed(error) => Err(
                "Failed to start text detection: "@ + error.text(),
            ),
        }
    }

    /// What the tray logs: a line for a start, nothing else.
    pub open spec fn tray_line(self) -> Option<Seq<char>> {
        match self {
            StartReplyView::Started => Some("Text detection started from system tray"@),
            _ => None,
        }
    }
}

/// How a command to stop the detection ended.
#[derive(Debug, Clone, Copy, PartialEq, Eq, Structural)]
pub enum StopReply {
    /// The detector was stopped.
    Stopped,
    /// The detector was not running.
    NotRunning,
}

impl StopReply {
    /// What the front end is told.
    pub open spec fn response_of(self) -> Seq<char> {
        match self {
            StopReply::Stopped => "Text detection stopped"@,
            StopReply::NotRunning => "Text detection was not running"@,
        }
    }

    /// What the tray logs: a line for a stop, nothing else.
    pub open spec fn tray_line_of(self) -> Option<Seq<char>> {
        match self {
            StopReply::Stopped => Some("Text detection stopped from system tray"@),
            StopReply::NotRunning => None,
        }
    }

    /// The answer to the front end: stopping never fails.
    pub fn response(self) -> (answer: Result<String, String>)
        ensures
            answer matches Ok(words) && words@ == self.response_of(),
    {
        match self {
            StopReply::Stopped => Ok(String::from_str("Text detection stopped")),
            StopReply::NotRunning => Ok(String::from_str("Text detection was not running")),
        }
    }

    /// The line that the tray logs, if any.
    pub fn tray_line(self) -> (line: Option<String>)
        ensures
            line.deep_view() == self.tray_line_of(),
    {
        match self {
            StopReply::Stopped => Some(String::from_str("Text detection stopped from system tray")),
            StopReply::NotRunning => None,
        }
    }
}

impl StartReply {
    /// Whether the caller launches the polling loop.
    pub fn launches(&self) -> (launch: bool)
        ensures
            launch == (self@ == StartReplyView::Started),
    {
        match self {
            StartReply::Started => true,
            _ => false,
        }
    }

    /// The answer to the front end: a status for a detector that runs, an
    /// error for one that does not.
    pub fn response(&self) -> (answer: Result<String, String>)
        ensures
            match answer {
                Ok(words) => self@.response() == Ok::<Seq<char>, Seq<char>>(words@),
                Err(words) => self@.response() == Err::<Seq<char>, Seq<char>>(words@),
            },
    {
        match self {
            StartReply::Started => Ok(String::from_str("Text detection started successfully")),
            StartReply::AlreadyRunning => Ok(String::from_str("Text detection is already running")),
            StartReply::RequestFailed(words) => Err(
                String::from_str("Failed to request permissions: ").concat(words.as_str()),
            ),
            StartReply::StartFailed(error) => Err(
                String::from_str("Failed to start text detection: ").concat(
                    error.message().as_str(),
                ),
            ),
        }
    }

    /// The line that the tray logs, if any.
    pub fn tray_line(&self) -> (line: Option<String>)
        ensures
            line.deep_view() == self@.tray_line(),
    {
        match self {
            StartReply::Started => Some(
                String::from_str("Text detection started from system tray"),
            ),
            _ => None,
        }
    }
}

/// The words of a failed permission request, if it failed.
pub open spec fn request_failure(request: Result<(), String>) -> Option<Seq<char>> {
    match request {
        Ok(_) => None,
        Err(words) => Some(words@),
    }
}

/// A command to start: a running detector is left alone; a stopped one is
/// started once the permission was asked for without failure, and stays
/// stopped if the asking failed or the detector refuses.
pub open spec fn start_detection(
    detector: DetectorView,
    request_failure: Option<Seq<char>>,
    permitted: bool,
) -> (DetectorView, StartReplyView) {
    if detector.running {
        (detector, StartReplyView::AlreadyRunning)
    } else {
        match request_failure {
            Some(words) => (detector, StartReplyView::RequestFailed(words)),
            None => match detector.start(permitted) {
                (started, Ok(_)) => (started, StartReplyView::Started),
                (refused, Err(error)) => (refused, StartReplyView::StartFailed(error)),
            },
        }
    }
}

/// A command to stop: a running detector is stopped, a stopped one is
/// left alone.
pub open spec fn stop_detection(detector: DetectorView) -> (DetectorView, StopReply) {
    if detector.running {
        (detector.stop(), StopReply::Stopped)
    } else {
        (detector, StopReply::NotRunning)
    }
}

/// Starts the detection on command. `request` is how asking the platform
/// for the permission ended, `permitted` what the permission predicate
/// reports; neither is looked at while the detector runs.
pub fn start_text_detection(
    detector: &mut TextDetector,
    request: Result<(), String>,
    permitted: bool,
) -> (reply: StartReply)
    ensures
        (final(detector)@, reply@) == start_detection(
            old(detector)@,
            request_failure(request),
            permitted,
        ),
{
    if detector.is_running() {
        return StartReply::AlreadyRunning;
    }
    if let Err(words) = request {
        return StartReply::RequestFailed(words);
    }
    match detector.start(permitted) {
        Ok(_) => StartReply::Started,
        Err(error) => StartReply::StartFailed(error),
    }
}

/// Stops the detection on command.
pub fn stop_text_detection(detector: &mut TextDetector) -> (reply: StopReply)
    ensures
        (final(detector)@, reply) == stop_detection(old(detector)@),
{
    if detector.is_running() {
        detector.stop();
        StopReply::Stopped
    } else {
        StopReply::NotRunning
    }
}

/// Answers whether the accessibility permission is granted; the answer
/// is never an error.
pub fn check_permissions(
    platform: Platform,
    process_trusted: bool,
) -> (answer: Result<bool, String>)
    ensures
        answer matches Ok(granted) && granted == platform.permits(process_trusted),
{
    Ok(platform.check_accessibility_permissions(process_trusted))
}

/// What one read on command gives: on macOS the selection under focus,
/// elsewhere nothing.
pub open spec fn manual_selection(
    platform: Platform,
    focused: Option<FocusedElementView>,
    timestamp: u64,
) -> Option<SelectionEventView> {
    match platform {
        Platform::MacOs => one_shot(focused, Source::Manual, timestamp),
        Platform::Other => None,
    }
}

/// Reads the selection once on command. The answer is never an error: a
/// missing selection is `None`.
pub fn get_current_selection(
    platform: Platform,
    focused: Option<&FocusedElement>,
    timestamp: u64,
) -> (answer: Result<Option<SelectionEvent>, String>)
    ensures
        answer matches Ok(event) && event.deep_view() == manual_selection(
            platform,
            focused.deep_view(),
            timestamp,
        ),
        answer matches Ok(Some(e)) ==> e@.well_formed(),
{
    match platform {
        Platform::MacOs => Ok(capture_selected(focused, Source::Manual, timestamp)),
        Platform::Other => Ok(None),
    }
}

/// What the tray's permission check tells the user, and whether it goes
/// on to ask for the permission.
#[derive(Debug, Clone, PartialEq, Eq)]
pub struct PermissionNotice {
    /// The line to log.
    pub message: String,
    /// Whether the platform is asked for the permission.
    pub request: bool,
}

/// The line of the tray's permission check.
pub open spec fn notice_words(granted: bool) -> Seq<char> {
    if granted {
        "\u{2705} Accessibility permissions are granted!"@
    } else {
        "\u{274c} Accessibility permissions are required. \
         Please grant them in System Settings."@
    }
}

/// The tray's permission check: on macOS it reports whether the
/// permission is granted and asks for it where it is missing; elsewhere
/// it does nothing.
pub fn permission_notice(
    platform: Platform,
    process_trusted: bool,
) -> (notice: Option<PermissionNotice>)
    ensures
        match platform {
            Platform::MacOs => {
                &&& notice matches Some(n)
                &&& n.message@ == notice_words(process_trusted)
                &&& n.request == !process_trusted
            },
            Platform::Other => notice is None,
        },
{
    match platform {
        Platform::MacOs => {
            let message = if process_trusted {
                String::from_str("\u{2705} Accessibility permissions are granted!")
            } else {
                String::from_str(
                    "\u{274c} Accessibility permissions are required. \
                     Please grant them in System Settings.",
                )
            };
            Some(PermissionNotice { message, request: !process_trusted })
        },
        Platform::Other => None,
    }
}

/// Starting on command changes nothing while the detector runs, and
/// stopping changes nothing while it does not: both commands can be
/// repeated without harm.
pub proof fn lemma_commands_repeat_harmlessly(
    detector: DetectorView,
    request_failure: Option<Seq<char>>,
    permitted: bool,
)
    ensures
        ({
            let (started, _) = start_detection(detector, None, true);
            &&& started.running
            &&& start_detection(started, request_failure, permitted) == (
                started,
                StartReplyView::AlreadyRunning,
            )
        }),
        ({
            let (stopped, _) = stop_detection(detector);
            &&& !stopped.running
            &&& stop_detection(stopped) == (stopped, StopReply::NotRunning)
        }),
{
}

} // verus!
