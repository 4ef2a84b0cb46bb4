//! Frame pacing and redraw bookkeeping for an interactive event loop.
//!
//! The loop is a state machine that never touches the clock, the thread or the
//! window itself: each call of [`EventLoop::next`] takes what the caller observed
//! (a clock reading, the end of a sleep, the drained events, the outcome of a
//! blocking wait) and answers with what the caller does next.
pub mod pacing;
pub mod event_loop;
pub mod laws;

pub use pacing::{pacing_delay, FRAME_INTERVAL_NANOS};
pub use event_loop::{gen_eventLoop, EventLoop, PollAction, PollInput, Stage};
