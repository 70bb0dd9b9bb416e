//! Decision core of a terminal dashboard for the runtime metrics of a BEAM
//! node: a time-bounded sample history, the table cursor kept valid against
//! it, the run / pause / quit state machine of the event loop, the frame that
//! is drawn from that state, and the bookkeeping that restores the terminal
//! exactly once.

pub mod controller;
pub mod frame;
pub mod history;
pub mod sample;
pub mod selection;
pub mod session;
