use frame_loop::{gen_eventLoop, pacing_delay, EventLoop, PollAction, PollInput, Stage, FRAME_INTERVAL_NANOS};

const MS: u64 = 1_000_000;

fn sleep_of(a: &PollAction<u32>) -> Option<u64> {
    match a {
        PollAction::Sleep(n) => Some(*n),
        _ => None,
    }
}

fn done_events(a: PollAction<u32>) -> Vec<u32> {
    match a {
        PollAction::Done(events) => events,
        _ => panic!("the poll is not over"),
    }
}

/// Runs one whole poll: `start` and `end` are the two clock readings, `drained`
/// what the source has, `waited` what the blocking wait would give.
/// Returns the events and whether the idle wait was asked for.
fn poll(
    el: &mut EventLoop<u32>,
    start: u64,
    drained: Vec<u32>,
    waited: Option<u32>,
    end: u64,
) -> (Vec<u32>, bool) {
    let mut action = el.next(PollInput::Clock(start));
    if let PollAction::Sleep(_) = action {
        action = el.next(PollInput::Slept);
    }
    assert!(matches!(action, PollAction::Drain));
    action = el.next(PollInput::Drained(drained));
    let mut waited_for = false;
    if let PollAction::WaitNext = action {
        waited_for = true;
        action = el.next(PollInput::Waited(waited));
    }
    assert!(matches!(action, PollAction::ReadClock));
    (done_events(el.next(PollInput::Clock(end))), waited_for)
}

#[test]
fn pacing_delay_fills_the_frame() {
    assert_eq!(FRAME_INTERVAL_NANOS, 16 * MS);
    assert_eq!(pacing_delay(0, 0), 16 * MS);
    assert_eq!(pacing_delay(0, 5 * MS), 11 * MS);
    assert_eq!(pacing_delay(100, 100 + 16 * MS - 1), 1);
    assert_eq!(pacing_delay(0, 16 * MS), 0);
    assert_eq!(pacing_delay(0, 40 * MS), 0);
}

#[test]
fn pacing_delay_treats_an_earlier_clock_as_no_time() {
    assert_eq!(pacing_delay(50 * MS, 10 * MS), 16 * MS);
}

#[test]
fn new_loop_has_a_pending_update() {
    let el: EventLoop<u32> = EventLoop::new(7);
    assert!(el.ui_needs_update());
    assert_eq!(el.last_update(), 7);
    assert_eq!(el.stage(), Stage::Idle);
    let el2: EventLoop<u32> = gen_eventLoop(9);
    assert!(el2.ui_needs_update());
    assert_eq!(el2.last_update(), 9);
}

#[test]
fn first_poll_sleeps_and_skips_idle_wait() {
    let mut el: EventLoop<u32> = EventLoop::new(0);
    let a = el.next(PollInput::Clock(0));
    assert_eq!(sleep_of(&a), Some(16 * MS));
    assert_eq!(el.stage(), Stage::Sleeping);
    assert!(matches!(el.next(PollInput::Slept), PollAction::Drain));
    assert!(matches!(el.next(PollInput::Drained(Vec::new())), PollAction::ReadClock));
    let events = done_events(el.next(PollInput::Clock(16 * MS)));
    assert!(events.is_empty());
    assert!(!el.ui_needs_update());
    assert_eq!(el.last_update(), 16 * MS);
    assert_eq!(el.stage(), Stage::Idle);
}

#[test]
fn dirty_poll_within_five_ms_sleeps_the_rest() {
    let mut el: EventLoop<u32> = EventLoop::new(0);
    let (events, waited) = poll(&mut el, 0, Vec::new(), None, 16 * MS);
    assert!(events.is_empty());
    assert!(!waited);
    el.needs_update();
    let a = el.next(PollInput::Clock(21 * MS));
    assert_eq!(sleep_of(&a), Some(11 * MS));
    assert!(matches!(el.next(PollInput::Slept), PollAction::Drain));
    assert!(matches!(el.next(PollInput::Drained(Vec::new())), PollAction::ReadClock));
    let events = done_events(el.next(PollInput::Clock(32 * MS)));
    assert!(events.is_empty());
    assert!(!el.ui_needs_update());
}

#[test]
fn second_clean_poll_waits_and_returns_the_event_once() {
    let mut el: EventLoop<u32> = EventLoop::new(0);
    let (events, waited) = poll(&mut el, 0, Vec::new(), None, 16 * MS);
    assert!(events.is_empty());
    assert!(!waited);
    let (events, waited) = poll(&mut el, 16 * MS, Vec::new(), Some(42), 500 * MS);
    assert!(waited);
    assert_eq!(events, vec![42]);
    assert_eq!(el.last_update(), 500 * MS);
}

#[test]
fn idle_wait_on_a_closed_source_returns_nothing() {
    let mut el: EventLoop<u32> = EventLoop::new(0);
    poll(&mut el, 0, Vec::new(), None, 16 * MS);
    let (events, waited) = poll(&mut el, 40 * MS, Vec::new(), None, 41 * MS);
    assert!(waited);
    assert!(events.is_empty());
}

#[test]
fn drained_events_skip_the_idle_wait_and_keep_their_order() {
    let mut el: EventLoop<u32> = EventLoop::new(0);
    poll(&mut el, 0, Vec::new(), None, 16 * MS);
    let (events, waited) = poll(&mut el, 40 * MS, vec![3, 1, 2], Some(9), 41 * MS);
    assert!(!waited);
    assert_eq!(events, vec![3, 1, 2]);
}

#[test]
fn late_poll_does_not_sleep() {
    let mut el: EventLoop<u32> = EventLoop::new(0);
    assert!(matches!(el.next(PollInput::Clock(16 * MS)), PollAction::Drain));
    assert_eq!(el.stage(), Stage::Draining);
}

#[test]
fn needs_update_twice_is_needs_update_once() {
    let mut once: EventLoop<u32> = EventLoop::new(0);
    let mut twice: EventLoop<u32> = EventLoop::new(0);
    poll(&mut once, 0, Vec::new(), None, 16 * MS);
    poll(&mut twice, 0, Vec::new(), None, 16 * MS);
    once.needs_update();
    twice.needs_update();
    twice.needs_update();
    assert_eq!(once.ui_needs_update(), twice.ui_needs_update());
    assert_eq!(once.last_update(), twice.last_update());
    let (a, wa) = poll(&mut once, 30 * MS, Vec::new(), Some(1), 31 * MS);
    let (b, wb) = poll(&mut twice, 30 * MS, Vec::new(), Some(1), 31 * MS);
    assert_eq!(a, b);
    assert_eq!(wa, wb);
    assert!(!wa);
}

#[test]
fn successive_polls_are_a_frame_apart() {
    let mut el: EventLoop<u32> = EventLoop::new(0);
    poll(&mut el, 0, Vec::new(), None, 17 * MS);
    el.needs_update();
    let a = el.next(PollInput::Clock(20 * MS));
    assert_eq!(20 * MS + sleep_of(&a).unwrap(), 17 * MS + FRAME_INTERVAL_NANOS);
}

#[test]
fn accepts_only_what_the_stage_waits_for() {
    let mut el: EventLoop<u32> = EventLoop::new(0);
    assert!(el.accepts(&PollInput::Clock(1)));
    assert!(!el.accepts(&PollInput::Slept));
    assert!(!el.accepts(&PollInput::Drained(Vec::new())));
    assert!(!el.accepts(&PollInput::Waited(None)));
    el.next(PollInput::Clock(0));
    assert!(el.accepts(&PollInput::Slept));
    assert!(!el.accepts(&PollInput::Clock(1)));
    el.next(PollInput::Slept);
    assert!(el.accepts(&PollInput::Drained(Vec::new())));
    el.next(PollInput::Drained(vec![5]));
    assert!(el.accepts(&PollInput::Clock(2)));
    assert!(!el.accepts(&PollInput::Waited(None)));
}
