use selection_monitor::event::{SelectionEvent, SelectionType};
use selection_monitor::text_detector::{
    DetectorError, StartOutcome, TextDetector, TickAction, POLL_INTERVAL_MS,
};

fn reading(text: &str) -> Option<SelectionEvent> {
    Some(SelectionEvent {
        text: text.to_string(),
        app_name: "Unknown".to_string(),
        timestamp: 100,
        selection_type: SelectionType::Selected,
    })
}

fn texts(events: &[SelectionEvent]) -> Vec<String> {
    let mut out = Vec::new();
    for event in events {
        out.push(event.text.clone());
    }
    out
}

fn running() -> TextDetector {
    let mut detector = TextDetector::new();
    assert_eq!(detector.start(true), Ok(StartOutcome::Launched));
    detector
}

#[test]
fn new_detector_is_stopped() {
    let detector = TextDetector::new();
    assert!(!detector.is_running());
    assert_eq!(detector.last_text(), None);
    assert_eq!(detector.on_tick(), TickAction::Exit);
}

#[test]
fn ticks_are_half_a_second_apart() {
    assert_eq!(POLL_INTERVAL_MS, 500);
}

#[test]
fn permitted_start_launches() {
    let mut detector = TextDetector::new();
    assert_eq!(detector.start(true), Ok(StartOutcome::Launched));
    assert!(detector.is_running());
    assert_eq!(detector.on_tick(), TickAction::Sample);
}

#[test]
fn second_start_launches_nothing() {
    let mut detector = running();
    assert_eq!(detector.observe(reading("Hello")), reading("Hello"));
    assert_eq!(detector.start(true), Ok(StartOutcome::AlreadyRunning));
    assert!(detector.is_running());
    assert_eq!(detector.last_text(), Some("Hello".to_string()));
    assert_eq!(detector.observe(reading("Hello")), None);
}

#[test]
fn start_of_running_detector_does_not_ask_for_permission() {
    let mut detector = running();
    assert_eq!(detector.start(false), Ok(StartOutcome::AlreadyRunning));
    assert!(detector.is_running());
}

#[test]
fn denied_start_stays_stopped() {
    let mut detector = TextDetector::new();
    assert_eq!(detector.start(false), Err(DetectorError::PermissionDenied));
    assert!(!detector.is_running());
    assert_eq!(detector.on_tick(), TickAction::Exit);
    let published = detector.poll(vec![reading("Hello"), reading("World")]);
    assert!(published.is_empty());
    assert_eq!(detector.last_text(), None);
}

#[test]
fn denied_start_can_be_followed_by_a_permitted_one() {
    let mut detector = TextDetector::new();
    assert_eq!(detector.start(false), Err(DetectorError::PermissionDenied));
    assert_eq!(detector.start(true), Ok(StartOutcome::Launched));
    assert!(detector.is_running());
}

#[test]
fn permission_error_has_its_words() {
    assert_eq!(DetectorError::PermissionDenied.message(), "Accessibility permissions not granted");
}

#[test]
fn stop_ends_the_loop_and_forgets() {
    let mut detector = running();
    assert_eq!(detector.observe(reading("Hello")), reading("Hello"));
    detector.stop();
    assert!(!detector.is_running());
    assert_eq!(detector.last_text(), None);
    assert_eq!(detector.on_tick(), TickAction::Exit);
}

#[test]
fn stop_of_stopped_detector_changes_nothing() {
    let mut detector = TextDetector::new();
    detector.stop();
    assert!(!detector.is_running());
    assert_eq!(detector.last_text(), None);
}

#[test]
fn first_text_is_published() {
    let mut detector = running();
    assert_eq!(detector.observe(reading("Hello")), reading("Hello"));
    assert_eq!(detector.last_text(), Some("Hello".to_string()));
}

#[test]
fn repeated_text_is_not_published() {
    let mut detector = running();
    assert_eq!(detector.observe(reading("Hello")), reading("Hello"));
    assert_eq!(detector.observe(reading("Hello")), None);
    assert_eq!(detector.observe(reading("Hello")), None);
    assert_eq!(detector.last_text(), Some("Hello".to_string()));
}

#[test]
fn changed_text_is_published() {
    let mut detector = running();
    assert_eq!(detector.observe(reading("Hello")), reading("Hello"));
    assert_eq!(detector.observe(reading("World")), reading("World"));
    assert_eq!(detector.observe(reading("Hello")), reading("Hello"));
    assert_eq!(detector.last_text(), Some("Hello".to_string()));
}

#[test]
fn texts_are_compared_as_read() {
    let mut detector = running();
    assert_eq!(detector.observe(reading("Hello")), reading("Hello"));
    assert_eq!(detector.observe(reading("Hello ")), reading("Hello "));
    assert_eq!(detector.observe(reading("hello ")), reading("hello "));
}

#[test]
fn missing_reading_changes_nothing() {
    let mut detector = running();
    assert_eq!(detector.observe(None), None);
    assert_eq!(detector.last_text(), None);
    assert_eq!(detector.observe(reading("Hello")), reading("Hello"));
    assert_eq!(detector.observe(None), None);
    assert_eq!(detector.last_text(), Some("Hello".to_string()));
    assert!(detector.is_running());
}

#[test]
fn blank_reading_changes_nothing() {
    let mut detector = running();
    assert_eq!(detector.observe(reading("Hello")), reading("Hello"));
    assert_eq!(detector.observe(reading("   ")), None);
    assert_eq!(detector.observe(reading("")), None);
    assert_eq!(detector.last_text(), Some("Hello".to_string()));
    assert_eq!(detector.observe(reading("Hello")), None);
}

#[test]
fn published_event_is_the_reading() {
    let mut detector = running();
    let event = SelectionEvent {
        text: "Inbox".to_string(),
        app_name: "Unknown".to_string(),
        timestamp: 1_700_000_123,
        selection_type: SelectionType::Focused,
    };
    assert_eq!(detector.observe(Some(event.clone())), Some(event));
}

#[test]
fn same_text_of_another_kind_is_not_published() {
    let mut detector = running();
    assert_eq!(detector.observe(reading("Inbox")), reading("Inbox"));
    let focused = SelectionEvent {
        text: "Inbox".to_string(),
        app_name: "Unknown".to_string(),
        timestamp: 101,
        selection_type: SelectionType::Focused,
    };
    assert_eq!(detector.observe(Some(focused)), None);
}

#[test]
fn restart_publishes_the_same_text_again() {
    let mut detector = running();
    assert_eq!(detector.observe(reading("Hello")), reading("Hello"));
    assert_eq!(detector.observe(reading("Hello")), None);
    detector.stop();
    assert_eq!(detector.start(true), Ok(StartOutcome::Launched));
    assert_eq!(detector.last_text(), None);
    assert_eq!(detector.observe(reading("Hello")), reading("Hello"));
}

#[test]
fn run_of_readings_publishes_each_change_once() {
    let mut detector = running();
    let published = detector.poll(vec![
        None,
        reading("Hello"),
        reading("Hello"),
        reading("World"),
        None,
        reading("World"),
    ]);
    assert_eq!(texts(&published), vec!["Hello".to_string(), "World".to_string()]);
    assert_eq!(published.len(), 2);
    assert_eq!(detector.last_text(), Some("World".to_string()));
    assert!(detector.is_running());
}

#[test]
fn run_of_readings_goes_on_from_what_was_published() {
    let mut detector = running();
    assert_eq!(detector.observe(reading("Hello")), reading("Hello"));
    let published = detector.poll(vec![reading("Hello"), reading("World"), reading("Hello")]);
    assert_eq!(texts(&published), vec!["World".to_string(), "Hello".to_string()]);
}

#[test]
fn run_without_readings_publishes_nothing() {
    let mut detector = running();
    assert!(detector.poll(Vec::new()).is_empty());
    assert!(detector.poll(vec![None, None, reading(" ")]).is_empty());
    assert_eq!(detector.last_text(), None);
}

#[test]
fn stopped_detector_leaves_at_the_first_tick() {
    let mut detector = running();
    detector.stop();
    let published = detector.poll(vec![reading("Hello"), reading("World")]);
    assert!(published.is_empty());
    assert_eq!(detector.last_text(), None);
}

#[test]
fn reading_in_flight_at_a_stop_is_still_taken() {
    let mut detector = running();
    detector.stop();
    assert_eq!(detector.observe(reading("Hello")), reading("Hello"));
    assert!(!detector.is_running());
    assert_eq!(detector.start(true), Ok(StartOutcome::Launched));
    assert_eq!(detector.last_text(), None);
}

#[test]
fn detectors_are_independent() {
    let mut first = running();
    let mut second = running();
    assert_eq!(first.observe(reading("Hello")), reading("Hello"));
    assert_eq!(second.observe(reading("Hello")), reading("Hello"));
    first.stop();
    assert!(second.is_running());
    assert_eq!(second.observe(reading("Hello")), None);
}
