use vstd::prelude::*;

verus! {

/// Where the exclusive terminal session stands.
#[derive(Clone, Copy, Debug, PartialEq, Eq, Structural)]
pub enum SessionState {
    /// The terminal is untouched.
    Idle,
    /// Some part of raw, alternate-screen mode may be in force.
    Held,
    /// The terminal has been handed back.
    Released,
}

/// A fatal condition that ends the program's use of the terminal.
#[derive(Clone, Copy, Debug, PartialEq, Eq, Structural)]
pub enum Fatal {
    /// The terminal could not be put into raw, alternate-screen mode.
    Setup,
    /// The sample producer is gone.
    ProducerGone,
    /// Drawing a frame failed.
    Render,
}

/// How the program ends: the exit status, and whether a failed teardown is to
/// be reported as a warning.
#[derive(Clone, Copy, Debug, PartialEq, Eq, Structural)]
pub struct Exit {
    pub code: i32,
    pub warn_teardown: bool,
}

/// Tracks the terminal session so that it is restored exactly once, whichever
/// path ends the program.
pub struct Session {
    state: SessionState,
}

impl View for Session {
    type V = SessionState;

    closed spec fn view(&self) -> SessionState {
        self.state
    }
}

/// The state after a release request.
pub open spec fn after_release(s: SessionState) -> SessionState {
    match s {
        SessionState::Idle => SessionState::Idle,
        _ => SessionState::Released,
    }
}

/// How many of `n` release requests in a row, from `s`, actually restore the
/// terminal.
pub open spec fn restorations(s: SessionState, n: nat) -> nat
    decreases n,
{
    if n == 0 {
        0
    } else {
        (if s == SessionState::Held {
            1nat
        } else {
            0nat
        }) + restorations(after_release(s), (n - 1) as nat)
    }
}

pub open spec fn exit_of(fatal: Option<Fatal>, teardown_failed: bool) -> Exit {
    Exit { code: if fatal is Some { 1 } else { 0 }, warn_teardown: teardown_failed }
}

impl Session {
    pub fn new() -> (r: Session)
        ensures
            r@ == SessionState::Idle,
    {
        Session { state: SessionState::Idle }
    }

    pub fn state(&self) -> (r: SessionState)
        ensures
            r == self@,
    {
        self.state
    }

    /// Marks the session as held; called before the first change to the
    /// terminal, so that a setup that fails half-way is still undone.
    pub fn acquire(&mut self) -> (r: bool)
        ensures
            r == (old(self)@ == SessionState::Idle),
            final(self)@ == (if r {
                SessionState::Held
            } else {
                old(self)@
            }),
    {
        match self.state {
            SessionState::Idle => {
                self.state = SessionState::Held;
                true
            },
            _ => false,
        }
    }

    /// Says whether the terminal is to be restored now: only the first
    /// request on a held session answers `true`.
    pub fn release(&mut self) -> (r: bool)
        ensures
            r == (old(self)@ == SessionState::Held),
            final(self)@ == after_release(old(self)@),
    {
        match self.state {
            SessionState::Held => {
                self.state = SessionState::Released;
                true
            },
            _ => false,
        }
    }
}

/// The way out of the program: status 0 after a clean quit and 1 after any
/// fatal condition; a failed teardown only adds a warning and never changes
/// the status or hides the fatal condition.
pub fn exit_status(fatal: Option<Fatal>, teardown_failed: bool) -> (r: Exit)
    ensures
        r == exit_of(fatal, teardown_failed),
{
    let code: i32 = match fatal {
        Some(_) => 1,
        None => 0,
    };
    Exit { code, warn_teardown: teardown_failed }
}

/// Teardown guarantee: once the session is held, any run of one or more
/// release requests, one from each failing path and one from the final
/// clean-up, restores the terminal exactly once.
pub proof fn lemma_restored_exactly_once(n: nat)
    requires
        n >= 1,
    ensures
        restorations(SessionState::Held, n) == 1,
{
    lemma_released_stays_released((n - 1) as nat);
}

/// A released session is never restored again.
pub proof fn lemma_released_stays_released(n: nat)
    ensures
        restorations(SessionState::Released, n) == 0,
    decreases n,
{
    if n > 0 {
        lemma_released_stays_released((n - 1) as nat);
    }
}

} // verus!
