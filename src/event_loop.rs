//! The poll cycle as a state machine over what the caller observes.
use vstd::prelude::*;
use crate::pacing::{pacing_delay, pacing_delay_spec};

verus! {

/// Where a poll cycle stands.
#[derive(Clone, Copy, Debug, PartialEq, Eq, Structural)]
pub enum Stage {
    /// Between two polls.
    Idle,
    /// The caller sleeps out the rest of the frame interval.
    Sleeping,
    /// The caller drains the events that are available now, without blocking.
    Draining,
    /// The caller blocks until one more event arrives, or the source closes.
    Waiting,
    /// The caller reads the clock to close the cycle.
    Finishing,
}

/// What the caller observed, handed to [`EventLoop::next`].
pub enum PollInput<E> {
    /// A reading of the monotonic clock, in nanoseconds from an origin the caller keeps fixed.
    Clock(u64),
    /// The requested sleep is over.
    Slept,
    /// The events that were available, in the order the source gave them.
    Drained(Vec<E>),
    /// The outcome of the blocking wait: the event, or nothing when the source closed.
    Waited(Option<E>),
}

/// What the caller has to do next.
pub enum PollAction<E> {
    /// Block the thread for this many nanoseconds, then report `Slept`.
    Sleep(u64),
    /// Take every event that is available now, then report `Drained`.
    Drain,
    /// Block until one more event arrives, then report `Waited`.
    WaitNext,
    /// Read the clock and report `Clock`.
    ReadClock,
    /// The poll is over: these are its events, in order.
    Done(Vec<E>),
}

/// A [`PollInput`] as a mathematical value.
pub ghost enum InputView<E> {
    Clock(u64),
    Slept,
    Drained(Seq<E>),
    Waited(Option<E>),
}

/// A [`PollAction`] as a mathematical value.
pub ghost enum ActionView<E> {
    Sleep(u64),
    Drain,
    WaitNext,
    ReadClock,
    Done(Seq<E>),
}

impl<E> View for PollInput<E> {
    type V = InputView<E>;

    open spec fn view(&self) -> InputView<E> {
        match self {
            PollInput::Clock(now) => InputView::Clock(*now),
            PollInput::Slept => InputView::Slept,
            PollInput::Drained(events) => InputView::Drained(events@),
            PollInput::Waited(event) => InputView::Waited(*event),
        }
    }
}

impl<E> View for PollAction<E> {
    type V = ActionView<E>;

    open spec fn view(&self) -> ActionView<E> {
        match self {
            PollAction::Sleep(nanos) => ActionView::Sleep(*nanos),
            PollAction::Drain => ActionView::Drain,
            PollAction::WaitNext => ActionView::WaitNext,
            PollAction::ReadClock => ActionView::ReadClock,
            PollAction::Done(events) => ActionView::Done(events@),
        }
    }
}

/// The state of an [`EventLoop`]: whether a redraw is pending, when the last poll
/// ended, where the current poll stands, and the events it has gathered so far.
pub ghost struct LoopState<E> {
    pub pending: bool,
    pub last: u64,
    pub stage: Stage,
    pub events: Seq<E>,
}

/// A fresh loop created at `now`: a redraw is pending, so the first frame renders.
pub open spec fn initial_state<E>(now: u64) -> LoopState<E> {
    LoopState { pending: true, last: now, stage: Stage::Idle, events: Seq::empty() }
}

/// The state after a redraw has been asked for.
pub open spec fn mark_dirty<E>(s: LoopState<E>) -> LoopState<E> {
    LoopState { pending: true, ..s }
}

/// Whether `input` is what the stage of `s` waits for.
pub open spec fn accepts_input<E>(s: LoopState<E>, input: InputView<E>) -> bool {
    match s.stage {
        Stage::Idle => input is Clock,
        Stage::Sleeping => input is Slept,
        Stage::Draining => input is Drained,
        Stage::Waiting => input is Waited,
        Stage::Finishing => input is Clock,
    }
}

/// One transition of the poll cycle: the next state and what the caller does next.
/// An input that the stage does not wait for changes nothing.
pub open spec fn step<E>(s: LoopState<E>, input: InputView<E>) -> (LoopState<E>, ActionView<E>) {
    match input {
        InputView::Clock(now) => {
            if s.stage == Stage::Idle {
                let delay = pacing_delay_spec(s.last, now);
                if delay > 0 {
                    (
                        LoopState { stage: Stage::Sleeping, events: Seq::empty(), ..s },
                        ActionView::Sleep(delay as u64),
                    )
                } else {
                    (
                        LoopState { stage: Stage::Draining, events: Seq::empty(), ..s },
                        ActionView::Drain,
                    )
                }
            } else if s.stage == Stage::Finishing {
                (
                    LoopState { pending: false, last: now, stage: Stage::Idle, events: Seq::empty() },
                    ActionView::Done(s.events),
                )
            } else {
                (s, ActionView::ReadClock)
            }
        },
        InputView::Slept => {
            if s.stage == Stage::Sleeping {
                (LoopState { stage: Stage::Draining, ..s }, ActionView::Drain)
            } else {
                (s, ActionView::ReadClock)
            }
        },
        InputView::Drained(drained) => {
            if s.stage == Stage::Draining {
                if drained.len() == 0 && !s.pending {
                    (LoopState { stage: Stage::Waiting, events: drained, ..s }, ActionView::WaitNext)
                } else {
                    (LoopState { stage: Stage::Finishing, events: drained, ..s }, ActionView::ReadClock)
                }
            } else {
                (s, ActionView::ReadClock)
            }
        },
        InputView::Waited(event) => {
            if s.stage == Stage::Waiting {
                let events = match event {
                    Some(e) => s.events.push(e),
                    None => s.events,
                };
                (LoopState { stage: Stage::Finishing, events: events, ..s }, ActionView::ReadClock)
            } else {
                (s, ActionView::ReadClock)
            }
        },
    }
}

/// Paces polling to the frame interval and remembers whether the UI needs a redraw
/// when no input arrives.
pub struct EventLoop<E> {
    ui_needs_update: bool,
    last_update: u64,
    stage: Stage,
    events: Vec<E>,
}

impl<E> View for EventLoop<E> {
    type V = LoopState<E>;

    closed spec fn view(&self) -> LoopState<E> {
        LoopState {
            pending: self.ui_needs_update,
            last: self.last_update,
            stage: self.stage,
            events: self.events@,
        }
    }
}

impl<E> EventLoop<E> {
    /// A loop created at clock reading `now`, with a redraw pending.
    pub fn new(now: u64) -> (r: EventLoop<E>)
        ensures
            r@ == initial_state::<E>(now),
    {
        EventLoop { ui_needs_update: true, last_update: now, stage: Stage::Idle, events: Vec::new() }
    }

    /// Asks for another update whether or not events arrive, as an animation does.
    pub fn needs_update(&mut self)
        ensures
            final(self)@ == mark_dirty(old(self)@),
    {
        self.ui_needs_update = true;
    }

    /// Whether `input` is what the current stage waits for.
    pub fn accepts(&self, input: &PollInput<E>) -> (r: bool)
        ensures
            r == accepts_input(self@, input@),
    {
        match input {
            PollInput::Clock(_) => self.stage == Stage::Idle || self.stage == Stage::Finishing,
            PollInput::Slept => self.stage == Stage::Sleeping,
            PollInput::Drained(_) => self.stage == Stage::Draining,
            PollInput::Waited(_) => self.stage == Stage::Waiting,
        }
    }

    /// Takes what the caller observed and answers with what it does next.
    pub fn next(&mut self, input: PollInput<E>) -> (r: PollAction<E>)
        requires
            accepts_input(old(self)@, input@),
        ensures
            (final(self)@, r@) == step(old(self)@, input@),
    {
        match input {
            PollInput::Clock(now) => {
                if self.stage == Stage::Idle {
                    self.events = Vec::new();
                    let delay = pacing_delay(self.last_update, now);
                    if delay > 0 {
                        self.stage = Stage::Sleeping;
                        PollAction::Sleep(delay)
                    } else {
                        self.stage = Stage::Draining;
                        PollAction::Drain
                    }
                } else {
                    let mut events: Vec<E> = Vec::new();
                    std::mem::swap(&mut events, &mut self.events);
                    self.ui_needs_update = false;
                    self.last_update = now;
                    self.stage = Stage::Idle;
                    PollAction::Done(events)
                }
            },
            PollInput::Slept => {
                self.stage = Stage::Draining;
                PollAction::Drain
            },
            PollInput::Drained(drained) => {
                let idle = drained.len() == 0 && !self.ui_needs_update;
                self.events = drained;
                if idle {
                    self.stage = Stage::Waiting;
                    PollAction::WaitNext
                } else {
                    self.stage = Stage::Finishing;
                    PollAction::ReadClock
                }
            },
            PollInput::Waited(event) => {
                match event {
                    Some(e) => self.events.push(e),
                    None => {},
                }
                self.stage = Stage::Finishing;
                PollAction::ReadClock
            },
        }
    }

    /// Whether a redraw is pending.
    pub fn ui_needs_update(&self) -> (r: bool)
        ensures
            r == self@.pending,
    {
        self.ui_needs_update
    }

    /// The clock reading taken when the last poll ended (or when the loop was created).
    pub fn last_update(&self) -> (r: u64)
        ensures
            r == self@.last,
    {
        self.last_update
    }

    /// Where the current poll stands.
    pub fn stage(&self) -> (r: Stage)
        ensures
            r == self@.stage,
    {
        self.stage
    }
}

/// A loop created at clock reading `now`, with a redraw pending.
#[allow(non_snake_case)]
pub fn gen_eventLoop<E>(now: u64) -> (r: EventLoop<E>)
    ensures
        r@ == initial_state::<E>(now),
{
    EventLoop::new(now)
}

} // verus!
