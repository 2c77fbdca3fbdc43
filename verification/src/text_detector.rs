//! The polling detector: a running flag and the text that was published
//! last.
//!
//! The caller owns the timer and the focus reader. On every tick it asks
//! [`TextDetector::on_tick`] whether to go on, reads the focus, and hands
//! the reading to [`TextDetector::observe`], which answers with the event
//! to publish, if there is one.

use vstd::prelude::*;
use vstd::string::*;
use crate::event::{SelectionEvent, SelectionEventView};
use crate::platform::Platform;
use crate::text::{is_blank, is_blank_text};

verus! {

/// Milliseconds between two ticks of the polling loop.
pub const POLL_INTERVAL_MS: u64 = 500;

/// What a successful start did.
#[derive(Debug, Clone, Copy, PartialEq, Eq, Structural)]
pub enum StartOutcome {
    /// The detector went from stopped to running: the caller launches the
    /// polling loop.
    Launched,
    /// The detector was running already: nothing is launched.
    AlreadyRunning,
}

/// Why a start failed.
#[derive(Debug, Clone, Copy, PartialEq, Eq, Structural)]
pub enum DetectorError {
    /// The accessibility permission is not granted.
    PermissionDenied,
}

impl DetectorError {
    /// The words of the error.
    pub open spec fn text(self) -> Seq<char> {
        "Accessibility permissions not granted"@
    }

    /// The words of the error, as a string.
    pub fn message(self) -> (words: String)
        ensures
            words@ == self.text(),
    {
        String::from_str("Accessibility permissions not granted")
    }
}

/// What the polling loop does on a tick.
#[derive(Debug, Clone, Copy, PartialEq, Eq, Structural)]
pub enum TickAction {
    /// Read the focus and hand the reading over.
    Sample,
    /// Leave the loop.
    Exit,
}

/// The mathematical content of a [`TextDetector`].
pub struct DetectorView {
    /// Whether a polling loop is wanted.
    pub running: bool,
    /// The text that was published last in this session.
    pub last_text: Option<Seq<char>>,
}

/// A reading counts when it holds a text that is more than whitespace.
pub open spec fn acceptable(reading: Option<SelectionEventView>) -> bool {
    reading matches Some(event) && !is_blank(event.text)
}

/// The text that counted last among `readings`, or `cached` where none
/// counted.
pub open spec fn last_seen(
    cached: Option<Seq<char>>,
    readings: Seq<Option<SelectionEventView>>,
) -> Option<Seq<char>>
    decreases readings.len(),
{
    if readings.len() == 0 {
        cached
    } else if acceptable(readings.last()) {
        Some(readings.last()->0.text)
    } else {
        last_seen(cached, readings.drop_last())
    }
}

impl DetectorView {
    /// A detector that was never started.
    pub open spec fn idle() -> DetectorView {
        DetectorView { running: false, last_text: None }
    }

    /// A start: nothing changes while running; else the permission decides
    /// whether the detector runs, with nothing published yet.
    pub open spec fn start(self, permitted: bool) -> (DetectorView, Result<
        StartOutcome,
        DetectorError,
    >) {
        if self.running {
            (self, Ok(StartOutcome::AlreadyRunning))
        } else if permitted {
            (DetectorView { running: true, last_text: None }, Ok(StartOutcome::Launched))
        } else {
            (self, Err(DetectorError::PermissionDenied))
        }
    }

    /// A stop: the detector is idle again.
    pub open spec fn stop(self) -> DetectorView {
        DetectorView::idle()
    }

    /// Whether `reading` is published: it counts, and its text is not the
    /// one published last.
    pub open spec fn notifies(self, reading: Option<SelectionEventView>) -> bool {
        acceptable(reading) && self.last_text != Some(reading->0.text)
    }

    /// One reading: where it is published, its text is remembered.
    pub open spec fn observe(self, reading: Option<SelectionEventView>) -> (
        DetectorView,
        Option<SelectionEventView>,
    ) {
        if self.notifies(reading) {
            (DetectorView { running: self.running, last_text: Some(reading->0.text) }, reading)
        } else {
            (self, None)
        }
    }

    /// A run of ticks with one reading each: a stopped detector leaves at
    /// the first tick; a running one observes them in turn.
    pub open spec fn poll(self, readings: Seq<Option<SelectionEventView>>) -> (
        DetectorView,
        Seq<SelectionEventView>,
    )
        decreases readings.len(),
    {
        if !self.running || readings.len() == 0 {
            (self, Seq::empty())
        } else {
            let (before, published) = self.poll(readings.drop_last());
            let (after, emitted) = before.observe(readings.last());
            (
                after,
                match emitted {
                    Some(event) => published.push(event),
                    None => published,
                },
            )
        }
    }
}

/// One more tick at the end of a run: what was published before stays, and
/// the new reading is added exactly if the detector, as the run left it,
/// publishes it.
pub proof fn lemma_poll_push(
    detector: DetectorView,
    readings: Seq<Option<SelectionEventView>>,
    reading: Option<SelectionEventView>,
)
    requires
        detector.running,
    ensures
        detector.poll(readings.push(reading)) == ({
            let (before, published) = detector.poll(readings);
            let (after, emitted) = before.observe(reading);
            (
                after,
                match emitted {
                    Some(event) => published.push(event),
                    None => published,
                },
            )
        }),
{
    assert(readings.push(reading).drop_last() =~= readings);
}

/// A run leaves a running detector running, and what it remembers is the
/// text that counted last in the run, or what it remembered before where
/// no reading counted: a tick without text clears nothing.
pub proof fn lemma_poll_remembers_last_seen(
    detector: DetectorView,
    readings: Seq<Option<SelectionEventView>>,
)
    requires
        detector.running,
    ensures
        detector.poll(readings).0.running,
        detector.poll(readings).0.last_text == last_seen(detector.last_text, readings),
    decreases readings.len(),
{
    if readings.len() > 0 {
        lemma_poll_remembers_last_seen(detector, readings.drop_last());
    }
}

/// For every run of readings fed to a running detector and every tick of
/// it: the tick publishes its reading if and only if the reading holds a
/// text that is more than whitespace and differs from the text that
/// counted last before the tick; and it publishes nothing else.
pub proof fn lemma_publishes_iff_text_changed(
    detector: DetectorView,
    readings: Seq<Option<SelectionEventView>>,
    tick: int,
)
    requires
        detector.running,
        0 <= tick < readings.len(),
    ensures
        ({
            let reading = readings[tick];
            let cached = last_seen(detector.last_text, readings.take(tick));
            let before = detector.poll(readings.take(tick)).1;
            let after = detector.poll(readings.take(tick + 1)).1;
            if acceptable(reading) && cached != Some(reading->0.text) {
                after == before.push(reading->0)
            } else {
                after == before
            }
        }),
{
    let prefix = readings.take(tick);
    lemma_poll_remembers_last_seen(detector, prefix);
    lemma_poll_push(detector, prefix, readings[tick]);
    assert(prefix.push(readings[tick]) =~= readings.take(tick + 1));
}

/// What a run publishes never holds the same text twice in a row: each
/// event is more than whitespace and differs in its text from the event
/// before it, the first from what the detector remembered at the start;
/// and the detector remembers the text of the last.
pub proof fn lemma_published_texts_differ(
    detector: DetectorView,
    readings: Seq<Option<SelectionEventView>>,
)
    requires
        detector.running,
    ensures
        ({
            let (after, published) = detector.poll(readings);
            &&& after.running
            &&& forall|i: int|
                0 <= i < published.len() ==> (#[trigger] published[i]).well_formed()
            &&& forall|i: int|
                0 < i < published.len() ==> {
                    (#[trigger] published[i]).text != published[i - 1].text
                }
            &&& published.len() == 0 ==> after.last_text == detector.last_text
            &&& published.len() > 0 ==> {
                &&& detector.last_text != Some(published[0].text)
                &&& after.last_text == Some(published.last().text)
            }
        }),
    decreases readings.len(),
{
    if readings.len() > 0 {
        lemma_published_texts_differ(detector, readings.drop_last());
    }
}

/// Of two starts in a row at most one launches a polling loop; once the
/// first has succeeded the second is a success that changes nothing, so
/// that any run of readings publishes what it would have published after
/// one start.
pub proof fn lemma_second_start_launches_nothing(
    detector: DetectorView,
    first: bool,
    second: bool,
    readings: Seq<Option<SelectionEventView>>,
)
    ensures
        ({
            let (once, first_outcome) = detector.start(first);
            let (twice, second_outcome) = once.start(second);
            &&& !(first_outcome == Ok::<StartOutcome, DetectorError>(StartOutcome::Launched)
                && second_outcome == Ok::<StartOutcome, DetectorError>(StartOutcome::Launched))
            &&& first_outcome is Ok ==> {
                &&& second_outcome == Ok::<StartOutcome, DetectorError>(
                    StartOutcome::AlreadyRunning,
                )
                &&& twice == once
                &&& twice.poll(readings) == once.poll(readings)
            }
        }),
{
}

/// A stop followed by a permitted start forgets what was published: the
/// next reading that counts is published, whatever the detector had
/// published before the stop.
pub proof fn lemma_restart_publishes_afresh(
    detector: DetectorView,
    reading: Option<SelectionEventView>,
)
    requires
        acceptable(reading),
    ensures
        ({
            let (restarted, outcome) = detector.stop().start(true);
            &&& outcome == Ok::<StartOutcome, DetectorError>(StartOutcome::Launched)
            &&& restarted.running
            &&& restarted.observe(reading).1 == reading
            &&& restarted.poll(seq![reading]).1 == seq![reading->0]
        }),
{
    let (restarted, outcome) = detector.stop().start(true);
    let one = seq![reading];
    assert(one.drop_last() =~= Seq::<Option<SelectionEventView>>::empty());
    assert(one.last() == reading);
    assert(restarted.poll(one.drop_last()).1 =~= Seq::<SelectionEventView>::empty());
    assert(Seq::<SelectionEventView>::empty().push(reading->0) =~= seq![reading->0]);
}

/// A stopped detector that is started without the permission reports the
/// refusal and stays stopped, and no run of readings makes it publish
/// anything afterwards.
pub proof fn lemma_denied_start_publishes_nothing(
    detector: DetectorView,
    readings: Seq<Option<SelectionEventView>>,
)
    requires
        !detector.running,
    ensures
        ({
            let (after, outcome) = detector.start(false);
            &&& outcome == Err::<StartOutcome, DetectorError>(DetectorError::PermissionDenied)
            &&& after == detector
            &&& after.poll(readings) == (after, Seq::<SelectionEventView>::empty())
        }),
{
}

/// The polling detector.
#[derive(Debug)]
pub struct TextDetector {
    is_running: bool,
    last_selection: Option<String>,
}

impl View for TextDetector {
    type V = DetectorView;

    closed spec fn view(&self) -> DetectorView {
        DetectorView { running: self.is_running, last_text: self.last_selection.deep_view() }
    }
}

impl TextDetector {
    /// A stopped detector that has published nothing.
    pub fn new() -> (detector: Self)
        ensures
            detector@ == DetectorView::idle(),
    {
        TextDetector { is_running: false, last_selection: None }
    }

    /// Whether a polling loop is wanted.
    pub fn is_running(&self) -> (running: bool)
        ensures
            running == self@.running,
    {
        self.is_running
    }

    /// The text that was published last in this session.
    pub fn last_text(&self) -> (text: Option<String>)
        ensures
            text.deep_view() == self@.last_text,
    {
        match &self.last_selection {
            Some(text) => Some(text.clone()),
            None => None,
        }
    }

    /// Settles how asking the platform for the permission ended: only
    /// macOS is asked, and `asked` is its answer; elsewhere there is
    /// nothing to ask for and the request succeeds.
    pub fn request_permissions(
        &self,
        platform: Platform,
        asked: Result<(), String>,
    ) -> (outcome: Result<(), String>)
        ensures
            match platform {
                Platform::MacOs => outcome == asked,
                Platform::Other => outcome is Ok,
            },
    {
        match platform {
            Platform::MacOs => asked,
            Platform::Other => Ok(()),
        }
    }

    /// Starts the detector. `permitted` is what the permission predicate
    /// reports. A running detector stays as it is; a stopped one runs if
    /// permitted, and else stays stopped and reports the refusal.
    pub fn start(&mut self, permitted: bool) -> (outcome: Result<StartOutcome, DetectorError>)
        ensures
            (final(self)@, outcome) == old(self)@.start(permitted),
    {
        if self.is_running {
            return Ok(StartOutcome::AlreadyRunning);
        }
        if !permitted {
            return Err(DetectorError::PermissionDenied);
        }
        self.is_running = true;
        self.last_selection = None;
        Ok(StartOutcome::Launched)
    }

    /// Stops the detector and forgets what it published.
    pub fn stop(&mut self)
        ensures
            final(self)@ == old(self)@.stop(),
    {
        self.is_running = false;
        self.last_selection = None;
    }

    /// What the polling loop does on this tick: it goes on exactly while
    /// the detector runs.
    pub fn on_tick(&self) -> (action: TickAction)
        ensures
            action == if self@.running {
                TickAction::Sample
            } else {
                TickAction::Exit
            },
    {
        if self.is_running {
            TickAction::Sample
        } else {
            TickAction::Exit
        }
    }

    /// Takes the reading of one tick. A reading without text, or with a
    /// blank text, or with the text that was published last, changes
    /// nothing and publishes nothing. Any other is remembered and returned
    /// for publishing.
    pub fn observe(&mut self, reading: Option<SelectionEvent>) -> (emitted: Option<SelectionEvent>)
        ensures
            (final(self)@, emitted.deep_view()) == old(self)@.observe(reading.deep_view()),
    {
        match reading {
            Some(event) => {
                if is_blank_text(event.text.as_str()) {
                    return None;
                }
                let unchanged = match &self.last_selection {
                    Some(last) => *last == event.text,
                    None => false,
                };
                if unchanged {
                    None
                } else {
                    self.last_selection = Some(event.text.clone());
                    Some(event)
                }
            },
            None => None,
        }
    }

    /// Replays a run of ticks, `readings` holding what the focus reader
    /// gave on each, and returns the events published, in order.
    pub fn poll(
        &mut self,
        readings: Vec<Option<SelectionEvent>>,
    ) -> (published: Vec<SelectionEvent>)
        ensures
            (final(self)@, published.deep_view()) == old(self)@.poll(readings.deep_view()),
    {
        let mut published: Vec<SelectionEvent> = Vec::new();
        if !self.is_running {
            assert(published.deep_view() =~= Seq::empty());
            return published;
        }
        let ghost all = readings.deep_view();
        assert(published.deep_view() =~= Seq::empty());
        for reading in it: readings.into_iter()
            invariant
                it.seq().len() == all.len(),
                forall|i: int|
                    0 <= i < all.len() ==> (#[trigger] it.seq()[i]).deep_view() == all[i],
                self@.running,
                old(self)@.running,
                (self@, published.deep_view()) == old(self)@.poll(all.take(it.index() as int)),
        {
            let ghost before = published.deep_view();
            let ghost prefix = all.take(it.index() as int + 1);
            assert(prefix.drop_last() =~= all.take(it.index() as int));
            assert(prefix.last() == reading.deep_view());
            match self.observe(reading) {
                Some(event) => {
                    published.push(event);
                    assert(published.deep_view() =~= before.push(event@));
                },
                None => {},
            }
        }
        assert(all.take(all.len() as int) =~= all);
        published
    }
}

} // verus!
