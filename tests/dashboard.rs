use erldash::controller::{
    Action, Controller, ControllerError, InputEvent, Key, Mode, PollOutcome, Wait,
};
use erldash::frame::render;
use erldash::history::History;
use erldash::sample::{Sample, DEFAULT_RETENTION_MS};
use erldash::selection::clamp_cursor;
use erldash::session::{exit_status, Exit, Fatal, Session, SessionState};

fn timestamps(h: &History) -> Vec<u64> {
    let mut out = Vec::new();
    for i in 0..h.len() {
        out.push(h.get(i).timestamp_ms);
    }
    out
}

#[test]
fn window_evicts_only_beyond_retention() {
    let mut h = History::new();
    assert_eq!(h.retention_ms(), DEFAULT_RETENTION_MS);
    for t in [0u64, 10, 20, 70] {
        h.insert(Sample::new(t * 1000, 3));
    }
    assert_eq!(timestamps(&h), vec![10_000, 20_000, 70_000]);
}

#[test]
fn window_boundary_is_inclusive() {
    let mut h = History::new();
    h.insert(Sample::new(5_000, 1));
    h.insert(Sample::new(65_000, 1));
    assert_eq!(timestamps(&h), vec![5_000, 65_000]);
    h.insert(Sample::new(65_001, 1));
    assert_eq!(timestamps(&h), vec![65_000, 65_001]);
}

#[test]
fn window_bound_holds_after_every_insertion() {
    let mut h = History::with_retention(60_000);
    let mut t: u64 = 0;
    for step in 0..200u64 {
        t += (step * 7919) % 23_000;
        h.insert(Sample::new(t, 1));
        let ts = timestamps(&h);
        let newest = *ts.last().unwrap();
        assert_eq!(newest, t);
        assert!(newest - ts[0] <= 60_000);
        for w in ts.windows(2) {
            assert!(w[0] <= w[1]);
        }
    }
}

#[test]
fn window_keeps_single_sample_with_zero_retention() {
    let mut h = History::with_retention(0);
    h.insert(Sample::new(1, 1));
    h.insert(Sample::new(1, 1));
    h.insert(Sample::new(2, 1));
    assert_eq!(timestamps(&h), vec![2]);
    assert_eq!(h.latest(), Some(Sample::new(2, 1)));
}

#[test]
fn empty_history_has_no_latest() {
    let h = History::new();
    assert!(h.is_empty());
    assert_eq!(h.latest(), None);
}

#[test]
fn clamp_shrinks_to_last_row() {
    assert_eq!(clamp_cursor(Some(4), 2), Some(1));
}

#[test]
fn clamp_on_empty_list_selects_nothing() {
    assert_eq!(clamp_cursor(Some(3), 0), None);
    assert_eq!(clamp_cursor(None, 0), None);
}

#[test]
fn clamp_selects_first_row_when_rows_appear() {
    assert_eq!(clamp_cursor(None, 5), Some(0));
    assert_eq!(clamp_cursor(Some(2), 5), Some(2));
}

#[test]
fn clamp_stays_valid_over_size_changes() {
    let mut c = None;
    for n in [3usize, 0, 7, 1, 0, 0, 9, 2, usize::MAX, 4] {
        c = clamp_cursor(c, n);
        match c {
            None => assert_eq!(n, 0),
            Some(i) => assert!(i < n),
        }
    }
}

#[test]
fn new_sample_reclamps_cursor() {
    let mut c = Controller::new();
    assert_eq!(c.handle_poll(PollOutcome::Received(Sample::new(0, 5))), Ok(Action::Redraw));
    assert_eq!(c.cursor(), Some(0));
    c.select(4);
    assert_eq!(c.cursor(), Some(4));
    c.handle_poll(PollOutcome::Received(Sample::new(1_000, 2))).unwrap();
    assert_eq!(c.cursor(), Some(1));
    c.handle_poll(PollOutcome::Received(Sample::new(2_000, 0))).unwrap();
    assert_eq!(c.cursor(), None);
}

#[test]
fn quit_while_paused_terminates() {
    let mut c = Controller::new();
    assert_eq!(c.handle_key(Key::Char('p')), Action::Nothing);
    assert_eq!(c.mode(), Mode::Paused);
    assert_eq!(c.handle_key(Key::Char('q')), Action::Quit);
    assert_eq!(c.mode(), Mode::Terminating);
    assert_eq!(c.next_wait(), Wait::Stop);
}

#[test]
fn pause_toggles_and_sets_wait() {
    let mut c = Controller::new();
    assert_eq!(c.next_wait(), Wait::Receive(10));
    c.handle_event(InputEvent::Key(Key::Char('p')));
    assert!(c.is_paused());
    assert_eq!(c.next_wait(), Wait::Sleep(10));
    c.handle_event(InputEvent::Key(Key::Char('p')));
    assert_eq!(c.mode(), Mode::Running);
}

#[test]
fn pause_freezes_history_and_cursor() {
    let mut c = Controller::new();
    c.handle_poll(PollOutcome::Received(Sample::new(0, 4))).unwrap();
    c.handle_key(Key::Char('p'));
    for t in 1..50u64 {
        let r = c.handle_poll(PollOutcome::Received(Sample::new(t * 10_000, 1)));
        assert_eq!(r, Ok(Action::Nothing));
    }
    assert_eq!(timestamps(c.history()), vec![0]);
    assert_eq!(c.cursor(), Some(0));
    c.handle_key(Key::Char('p'));
    c.handle_poll(PollOutcome::Received(Sample::new(500_000, 1))).unwrap();
    assert_eq!(timestamps(c.history()), vec![500_000]);
}

#[test]
fn input_redraw_waits_for_first_sample() {
    let mut c = Controller::new();
    assert_eq!(c.handle_event(InputEvent::Resize(80, 24)), Action::Nothing);
    assert_eq!(c.handle_key(Key::Up), Action::Nothing);
    c.handle_poll(PollOutcome::Received(Sample::new(0, 1))).unwrap();
    assert_eq!(c.handle_event(InputEvent::Resize(80, 24)), Action::Redraw);
    assert_eq!(c.handle_key(Key::Down), Action::Redraw);
    assert_eq!(c.handle_key(Key::Char('p')), Action::Redraw);
}

#[test]
fn unrecognized_input_is_ignored() {
    let mut c = Controller::new();
    c.handle_poll(PollOutcome::Received(Sample::new(0, 1))).unwrap();
    assert_eq!(c.handle_key(Key::Char('x')), Action::Nothing);
    assert_eq!(c.handle_key(Key::Other), Action::Nothing);
    assert_eq!(c.handle_event(InputEvent::Other), Action::Nothing);
    assert_eq!(c.mode(), Mode::Running);
}

#[test]
fn select_is_held_to_latest_rows() {
    let mut c = Controller::new();
    c.select(3);
    assert_eq!(c.cursor(), None);
    c.handle_poll(PollOutcome::Received(Sample::new(0, 3))).unwrap();
    c.select(7);
    assert_eq!(c.cursor(), Some(2));
}

#[test]
fn timeout_changes_nothing() {
    let mut c = Controller::new();
    assert_eq!(c.handle_poll(PollOutcome::Timeout), Ok(Action::Nothing));
    assert!(c.history().is_empty());
}

#[test]
fn disconnected_producer_is_fatal() {
    let mut c = Controller::new();
    assert_eq!(c.handle_poll(PollOutcome::Disconnected), Err(ControllerError::ProducerGone));
}

#[test]
fn render_is_idempotent_and_marks_pause() {
    let mut c = Controller::new();
    c.handle_poll(PollOutcome::Received(Sample::new(0, 3))).unwrap();
    let a = c.render("Erlang/OTP 25");
    let b = c.render("Erlang/OTP 25");
    assert_eq!(a.header_text, b.header_text);
    assert_eq!(a.metrics_title, b.metrics_title);
    assert_eq!(a.metrics_cursor, b.metrics_cursor);
    assert_eq!(a.chart, b.chart);
    assert_eq!(a.help_lines, b.help_lines);
    assert_eq!(a.header_title, "System Version");
    assert_eq!(a.header_text, "Erlang/OTP 25");
    assert_eq!(a.metrics_title, "Metrics");
    assert_eq!(a.chart, vec![Sample::new(0, 3)]);
    assert_eq!(a.help_lines.len(), 3);
    assert_eq!(a.help_lines[0], "Quit:           'q' key");
    c.handle_key(Key::Char('p'));
    assert_eq!(c.render("x").metrics_title, "Metrics (PAUSED)");
}

#[test]
fn render_of_empty_history() {
    let h = History::new();
    let f = render("node", false, &h, None);
    assert!(f.chart.is_empty());
    assert_eq!(f.metrics_cursor, None);
    assert_eq!(f.detail_title, "Detail");
    assert_eq!(f.chart_title, "Chart");
    assert_eq!(f.help_title, "Help");
}

#[test]
fn session_restored_exactly_once() {
    let mut s = Session::new();
    assert!(!s.release());
    assert!(s.acquire());
    assert!(!s.acquire());
    assert_eq!(s.state(), SessionState::Held);
    assert!(s.release());
    assert!(!s.release());
    assert!(!s.release());
    assert_eq!(s.state(), SessionState::Released);
}

#[test]
fn exit_status_reports_fatal_first() {
    assert_eq!(exit_status(None, false), Exit { code: 0, warn_teardown: false });
    assert_eq!(exit_status(Some(Fatal::ProducerGone), true), Exit { code: 1, warn_teardown: true });
    assert_eq!(exit_status(Some(Fatal::Setup), false).code, 1);
    assert_eq!(exit_status(Some(Fatal::Render), false).code, 1);
    assert_eq!(exit_status(None, true), Exit { code: 0, warn_teardown: true });
}
