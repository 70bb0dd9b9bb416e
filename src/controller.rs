use vstd::prelude::*;

use crate::frame::{frame_of, render, Frame};
use crate::history::{after_insert, lemma_evict_stale_suffix, History};
use crate::sample::{Sample, DEFAULT_RETENTION_MS};
use crate::selection::{clamp_cursor, clamped, cursor_valid, lemma_clamp_valid};

verus! {

/// Bound, in milliseconds, on every blocking wait of the event loop.
pub const POLL_INTERVAL_MS: u64 = 10;

/// State of the event loop.
#[derive(Clone, Copy, Debug, PartialEq, Eq, Structural)]
pub enum Mode {
    Running,
    Paused,
    Terminating,
}

/// A key press, reduced to what the controller tells apart.
#[derive(Clone, Copy, Debug, PartialEq, Eq, Structural)]
pub enum Key {
    Char(char),
    Left,
    Right,
    Up,
    Down,
    Other,
}

/// One event taken from the keyboard and resize queue.
#[derive(Clone, Copy, Debug, PartialEq, Eq, Structural)]
pub enum InputEvent {
    Key(Key),
    Resize(u16, u16),
    Other,
}

/// What the loop does after an event has been handled.
#[derive(Clone, Copy, Debug, PartialEq, Eq, Structural)]
pub enum Action {
    Nothing,
    Redraw,
    Quit,
}

/// The one blocking step the loop takes after draining input.
#[derive(Clone, Copy, Debug, PartialEq, Eq, Structural)]
pub enum Wait {
    /// Sleep this many milliseconds, then look at input again.
    Sleep(u64),
    /// Wait at most this many milliseconds for the next sample.
    Receive(u64),
    /// Leave the loop.
    Stop,
}

/// How a bounded wait on the sample channel ended.
#[derive(Clone, Copy, Debug, PartialEq, Eq, Structural)]
pub enum PollOutcome {
    Received(Sample),
    Timeout,
    Disconnected,
}

/// A fatal condition met by the controller.
#[derive(Clone, Copy, Debug, PartialEq, Eq, Structural)]
pub enum ControllerError {
    /// The sample producer has gone away for good.
    ProducerGone,
}

/// The controller's state as mathematics.
pub ghost struct ControllerModel {
    pub mode: Mode,
    pub samples: Seq<Sample>,
    pub retention: u64,
    pub cursor: Option<usize>,
}

/// Number of rows of the newest sample's table, zero without samples.
pub open spec fn latest_count(s: Seq<Sample>) -> usize {
    if s.len() == 0 {
        0
    } else {
        s.last().root_count
    }
}

/// The table cursor agrees with the newest sample.
pub open spec fn model_wf(m: ControllerModel) -> bool {
    cursor_valid(m.cursor, latest_count(m.samples))
}

/// Keys that the controller acts on.
pub open spec fn recognized(k: Key) -> bool {
    match k {
        Key::Char(c) => c == 'q' || c == 'p',
        Key::Left | Key::Right | Key::Up | Key::Down => true,
        Key::Other => false,
    }
}

/// `q` ends the loop from any state; `p` toggles between running and paused.
pub open spec fn next_mode(m: Mode, k: Key) -> Mode {
    if k == Key::Char('q') {
        Mode::Terminating
    } else if k == Key::Char('p') {
        match m {
            Mode::Running => Mode::Paused,
            Mode::Paused => Mode::Running,
            Mode::Terminating => Mode::Terminating,
        }
    } else {
        m
    }
}

/// A redraw asked for by input is issued only once a sample has arrived.
pub open spec fn guarded_redraw(samples: Seq<Sample>) -> Action {
    if samples.len() > 0 {
        Action::Redraw
    } else {
        Action::Nothing
    }
}

pub open spec fn key_action(m: ControllerModel, k: Key) -> Action {
    if k == Key::Char('q') {
        Action::Quit
    } else if recognized(k) {
        guarded_redraw(m.samples)
    } else {
        Action::Nothing
    }
}

pub open spec fn after_key(m: ControllerModel, k: Key) -> ControllerModel {
    ControllerModel { mode: next_mode(m.mode, k), samples: m.samples, retention: m.retention, cursor: m.cursor }
}

pub open spec fn event_action(m: ControllerModel, e: InputEvent) -> Action {
    match e {
        InputEvent::Key(k) => key_action(m, k),
        InputEvent::Resize(_, _) => guarded_redraw(m.samples),
        InputEvent::Other => Action::Nothing,
    }
}

pub open spec fn after_event(m: ControllerModel, e: InputEvent) -> ControllerModel {
    match e {
        InputEvent::Key(k) => after_key(m, k),
        _ => m,
    }
}

/// A sample is taken in only while running: it is appended, stale samples are
/// evicted and the cursor is re-validated against it.
pub open spec fn after_sample(m: ControllerModel, x: Sample) -> ControllerModel {
    if m.mode == Mode::Running {
        ControllerModel {
            mode: m.mode,
            samples: after_insert(m.samples, x, m.retention),
            retention: m.retention,
            cursor: clamped(m.cursor, x.root_count),
        }
    } else {
        m
    }
}

pub open spec fn after_poll(m: ControllerModel, o: PollOutcome) -> ControllerModel {
    match o {
        PollOutcome::Received(x) => after_sample(m, x),
        _ => m,
    }
}

/// The state after each outcome of `os` in turn.
pub open spec fn after_polls(m: ControllerModel, os: Seq<PollOutcome>) -> ControllerModel
    decreases os.len(),
{
    if os.len() == 0 {
        m
    } else {
        after_poll(after_polls(m, os.drop_last()), os.last())
    }
}

pub open spec fn poll_result(m: ControllerModel, o: PollOutcome) -> Result<Action, ControllerError> {
    match o {
        PollOutcome::Received(_) => if m.mode == Mode::Running {
            Ok(Action::Redraw)
        } else {
            Ok(Action::Nothing)
        },
        PollOutcome::Timeout => Ok(Action::Nothing),
        PollOutcome::Disconnected => Err(ControllerError::ProducerGone),
    }
}

pub open spec fn wait_for(m: Mode) -> Wait {
    match m {
        Mode::Running => Wait::Receive(POLL_INTERVAL_MS),
        Mode::Paused => Wait::Sleep(POLL_INTERVAL_MS),
        Mode::Terminating => Wait::Stop,
    }
}

/// The event loop's decisions: pause state, sample history and table cursor.
pub struct Controller {
    mode: Mode,
    history: History,
    cursor: Option<usize>,
}

impl View for Controller {
    type V = ControllerModel;

    closed spec fn view(&self) -> ControllerModel {
        ControllerModel {
            mode: self.mode,
            samples: self.history@,
            retention: self.history.retention(),
            cursor: self.cursor,
        }
    }
}

impl Controller {
    pub open spec fn wf(&self) -> bool {
        model_wf(self@)
    }

    /// A running controller with an empty history of default retention.
    pub fn new() -> (r: Controller)
        ensures
            r@ == (ControllerModel {
                mode: Mode::Running,
                samples: Seq::empty(),
                retention: DEFAULT_RETENTION_MS,
                cursor: None,
            }),
            r.wf(),
    {
        Controller { mode: Mode::Running, history: History::new(), cursor: None }
    }

    /// A running controller whose history keeps `retention_ms` milliseconds.
    pub fn with_retention(retention_ms: u64) -> (r: Controller)
        ensures
            r@ == (ControllerModel {
                mode: Mode::Running,
                samples: Seq::empty(),
                retention: retention_ms,
                cursor: None,
            }),
            r.wf(),
    {
        Controller { mode: Mode::Running, history: History::with_retention(retention_ms), cursor: None }
    }

    pub fn mode(&self) -> (r: Mode)
        ensures
            r == self@.mode,
    {
        self.mode
    }

    pub fn is_paused(&self) -> (r: bool)
        ensures
            r == (self@.mode == Mode::Paused),
    {
        match self.mode {
            Mode::Paused => true,
            _ => false,
        }
    }

    pub fn history(&self) -> (r: &History)
        ensures
            r@ == self@.samples,
            r.retention() == self@.retention,
    {
        &self.history
    }

    /// The table cursor.
    pub fn cursor(&self) -> (r: Option<usize>)
        ensures
            r == self@.cursor,
    {
        self.cursor
    }

    fn input_redraw(&self) -> (r: Action)
        ensures
            r == guarded_redraw(self@.samples),
    {
        if self.history.is_empty() {
            Action::Nothing
        } else {
            Action::Redraw
        }
    }

    /// Applies a key press to the state machine and says what to do next.
    pub fn handle_key(&mut self, key: Key) -> (r: Action)
        ensures
            final(self)@ == after_key(old(self)@, key),
            r == key_action(old(self)@, key),
    {
        match key {
            Key::Char('q') => {
                self.mode = Mode::Terminating;
                Action::Quit
            },
            Key::Char('p') => {
                self.mode = match self.mode {
                    Mode::Running => Mode::Paused,
                    Mode::Paused => Mode::Running,
                    Mode::Terminating => Mode::Terminating,
                };
                self.input_redraw()
            },
            Key::Left | Key::Right | Key::Up | Key::Down => self.input_redraw(),
            _ => Action::Nothing,
        }
    }

    /// Handles one event drained from the input queue.
    pub fn handle_event(&mut self, event: InputEvent) -> (r: Action)
        ensures
            final(self)@ == after_event(old(self)@, event),
            r == event_action(old(self)@, event),
    {
        match event {
            InputEvent::Key(key) => self.handle_key(key),
            InputEvent::Resize(_, _) => self.input_redraw(),
            InputEvent::Other => Action::Nothing,
        }
    }

    /// The blocking step that follows the input drain.
    pub fn next_wait(&self) -> (r: Wait)
        ensures
            r == wait_for(self@.mode),
    {
        match self.mode {
            Mode::Running => Wait::Receive(POLL_INTERVAL_MS),
            Mode::Paused => Wait::Sleep(POLL_INTERVAL_MS),
            Mode::Terminating => Wait::Stop,
        }
    }

    /// Takes in a sample while running; leaves everything as it is otherwise.
    pub fn receive(&mut self, sample: Sample) -> (r: Action)
        requires
            old(self).wf(),
        ensures
            final(self)@ == after_sample(old(self)@, sample),
            final(self).wf(),
            r == (if old(self)@.mode == Mode::Running {
                Action::Redraw
            } else {
                Action::Nothing
            }),
    {
        match self.mode {
            Mode::Running => {
                let ghost before = self.history@;
                self.history.insert(sample);
                proof {
                    let p = before.push(sample);
                    lemma_evict_stale_suffix(p, sample.timestamp_ms, self.history.retention());
                    assert(self.history@.last() == p.last());
                }
                self.ensure_table_indices_are_in_ranges();
                Action::Redraw
            },
            _ => Action::Nothing,
        }
    }

    fn ensure_table_indices_are_in_ranges(&mut self)
        requires
            old(self)@.samples.len() > 0,
        ensures
            final(self)@ == (ControllerModel {
                cursor: clamped(old(self)@.cursor, latest_count(old(self)@.samples)),
                ..old(self)@
            }),
            final(self).wf(),
    {
        let n = match self.history.latest() {
            Some(s) => s.root_count,
            None => 0,
        };
        self.cursor = clamp_cursor(self.cursor, n);
    }

    /// Moves the table cursor to `row`, held to the rows of the newest sample
    /// by the same rule that re-validates it when a sample arrives.
    pub fn select(&mut self, row: usize)
        requires
            old(self).wf(),
        ensures
            final(self)@ == (ControllerModel {
                cursor: clamped(Some(row), latest_count(old(self)@.samples)),
                ..old(self)@
            }),
            final(self).wf(),
    {
        let n = match self.history.latest() {
            Some(s) => s.root_count,
            None => 0,
        };
        self.cursor = clamp_cursor(Some(row), n);
    }

    /// Acts on the outcome of a bounded wait for the next sample.
    pub fn handle_poll(&mut self, outcome: PollOutcome) -> (r: Result<Action, ControllerError>)
        requires
            old(self).wf(),
        ensures
            final(self)@ == after_poll(old(self)@, outcome),
            final(self).wf(),
            r == poll_result(old(self)@, outcome),
    {
        match outcome {
            PollOutcome::Received(sample) => Ok(self.receive(sample)),
            PollOutcome::Timeout => Ok(Action::Nothing),
            PollOutcome::Disconnected => Err(ControllerError::ProducerGone),
        }
    }

    /// The frame for the current state under the given header text.
    pub fn render(&self, header: &str) -> (r: Frame)
        ensures
            r@ == frame_of(header@, self@.mode == Mode::Paused, self@.samples, self@.cursor),
    {
        render(header, self.is_paused(), &self.history, self.cursor)
    }
}

/// Pause freezes the window: while paused, no run of wait outcomes, samples
/// included, changes the history or the cursor (nor the pause itself).
pub proof fn lemma_pause_freezes(m: ControllerModel, os: Seq<PollOutcome>)
    requires
        m.mode == Mode::Paused,
    ensures
        after_polls(m, os) == m,
    decreases os.len(),
{
    if os.len() > 0 {
        lemma_pause_freezes(m, os.drop_last());
    }
}

/// Keys other than `p` and `q` leave a paused controller paused with the
/// same history and cursor, so only resuming lets samples in again.
pub proof fn lemma_pause_holds_under_keys(m: ControllerModel, k: Key)
    requires
        m.mode == Mode::Paused,
        k != Key::Char('p'),
        k != Key::Char('q'),
    ensures
        after_key(m, k) == m,
{
}

/// `q` ends the loop from every state, paused included, with no resume first.
pub proof fn lemma_quit_from_any_mode(m: ControllerModel)
    ensures
        after_key(m, Key::Char('q')).mode == Mode::Terminating,
        key_action(m, Key::Char('q')) == Action::Quit,
{
}

/// Every event and every wait outcome keeps the cursor valid for the newest
/// sample.
pub proof fn lemma_steps_keep_cursor_valid(m: ControllerModel, e: InputEvent, o: PollOutcome)
    requires
        model_wf(m),
    ensures
        model_wf(after_event(m, e)),
        model_wf(after_poll(m, o)),
{
    if let PollOutcome::Received(x) = o {
        if m.mode == Mode::Running {
            let p = m.samples.push(x);
            lemma_evict_stale_suffix(p, x.timestamp_ms, m.retention);
            assert(after_insert(m.samples, x, m.retention).last() == x);
            lemma_clamp_valid(m.cursor, x.root_count);
        }
    }
}

} // verus!
