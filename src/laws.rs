//! What holds of the loop across several calls.
use vstd::prelude::*;
use crate::event_loop::{mark_dirty, initial_state, step, ActionView, InputView, LoopState, Stage};
use crate::pacing::{pacing_delay_spec, FRAME_INTERVAL_NANOS};

verus! {

/// The state reached from `s` after feeding it `inputs`, in order.
pub open spec fn run<E>(s: LoopState<E>, inputs: Seq<InputView<E>>) -> LoopState<E>
    decreases inputs.len(),
{
    if inputs.len() == 0 {
        s
    } else {
        step(run(s, inputs.drop_last()), inputs.last()).0
    }
}

/// What the loop answers to the input at position `i` when fed `inputs` from `s`.
pub open spec fn action_at<E>(s: LoopState<E>, inputs: Seq<InputView<E>>, i: int) -> ActionView<E> {
    step(run(s, inputs.take(i)), inputs[i]).1
}

/// How long an action asks the caller to sleep.
pub open spec fn sleep_of<E>(a: ActionView<E>) -> int {
    match a {
        ActionView::Sleep(nanos) => nanos as int,
        _ => 0,
    }
}

/// A poll that starts at `now` does its work at the end of the frame interval that
/// began at `last`, or at once when that interval is over, and never later.
pub proof fn lemma_pacing_fills_frame(last: u64, now: u64)
    requires
        last <= now,
    ensures
        now + pacing_delay_spec(last, now) == if now < last + FRAME_INTERVAL_NANOS {
            last + FRAME_INTERVAL_NANOS
        } else {
            now as int
        },
{
}

/// Polls issued back to back do their work at least one frame interval apart: when
/// a poll whose work began at `work` closes with the clock at `end`, and the next
/// poll starts at `start`, the next one sleeps until `end + FRAME_INTERVAL_NANOS`
/// if that is still ahead, so its work begins no earlier than `work + FRAME_INTERVAL_NANOS`.
pub proof fn lemma_successive_polls_paced<E>(s: LoopState<E>, work: u64, end: u64, start: u64)
    requires
        s.stage == Stage::Finishing,
        work <= end,
        end <= start,
    ensures
        ({
            let idle = step(s, InputView::Clock(end)).0;
            let action = step(idle, InputView::Clock(start)).1;
            &&& start + sleep_of(action) >= work + FRAME_INTERVAL_NANOS
            &&& start + sleep_of(action) == if start < end + FRAME_INTERVAL_NANOS {
                end + FRAME_INTERVAL_NANOS
            } else {
                start as int
            }
        }),
{
    lemma_pacing_fills_frame(end, start);
}

/// Feeding one more input moves the run by one step.
proof fn lemma_run_prefix<E>(s: LoopState<E>, inputs: Seq<InputView<E>>, i: int)
    requires
        0 <= i < inputs.len(),
    ensures
        run(s, inputs.take(i + 1)) == step(run(s, inputs.take(i)), inputs[i]).0,
{
    assert(inputs.take(i + 1).drop_last() =~= inputs.take(i));
    assert(inputs.take(i + 1).last() == inputs[i]);
}

/// A pending redraw stays pending until a poll is done.
proof fn lemma_pending_until_done<E>(s: LoopState<E>, inputs: Seq<InputView<E>>, i: int)
    requires
        s.pending,
        0 <= i <= inputs.len(),
        forall|j: int| 0 <= j < i ==> !(#[trigger] action_at(s, inputs, j) is Done),
    ensures
        run(s, inputs.take(i)).pending,
    decreases i,
{
    if i == 0 {
        assert(inputs.take(0) =~= Seq::<InputView<E>>::empty());
    } else {
        lemma_pending_until_done(s, inputs, i - 1);
        lemma_run_prefix(s, inputs, i - 1);
        assert(!(action_at(s, inputs, i - 1) is Done));
    }
}

/// Once a redraw has been asked for, the loop does not ask for the idle wait before
/// the poll that follows is done, whatever events arrive.
pub proof fn lemma_dirty_poll_skips_idle_wait<E>(s: LoopState<E>, inputs: Seq<InputView<E>>, i: int)
    requires
        s.pending,
        0 <= i < inputs.len(),
        forall|j: int| 0 <= j < i ==> !(#[trigger] action_at(s, inputs, j) is Done),
    ensures
        !(action_at(s, inputs, i) is WaitNext),
{
    lemma_pending_until_done(s, inputs, i);
}

/// After `needs_update`, the next poll does not block in the idle wait.
pub proof fn lemma_poll_after_needs_update_skips_idle_wait<E>(
    s: LoopState<E>,
    inputs: Seq<InputView<E>>,
    i: int,
)
    requires
        0 <= i < inputs.len(),
        forall|j: int| 0 <= j < i ==> !(#[trigger] action_at(mark_dirty(s), inputs, j) is Done),
    ensures
        !(action_at(mark_dirty(s), inputs, i) is WaitNext),
{
    lemma_dirty_poll_skips_idle_wait(mark_dirty(s), inputs, i);
}

/// The first poll of a new loop does not block in the idle wait.
pub proof fn lemma_first_poll_skips_idle_wait<E>(now: u64, inputs: Seq<InputView<E>>, i: int)
    requires
        0 <= i < inputs.len(),
        forall|j: int| 0 <= j < i ==> !(#[trigger] action_at(initial_state(now), inputs, j) is Done),
    ensures
        !(action_at(initial_state::<E>(now), inputs, i) is WaitNext),
{
    lemma_dirty_poll_skips_idle_wait(initial_state::<E>(now), inputs, i);
}

/// A poll of a loop with no redraw pending that drains nothing blocks in the idle
/// wait, and the event that ends the wait is what the poll returns, once.
pub proof fn lemma_clean_empty_poll_waits<E>(s: LoopState<E>, e: E, end: u64)
    requires
        s.stage == Stage::Draining,
        !s.pending,
    ensures
        ({
            let (waiting, action) = step(s, InputView::Drained(Seq::empty()));
            let finishing = step(waiting, InputView::Waited(Some(e))).0;
            &&& action is WaitNext
            &&& step(finishing, InputView::Clock(end)).1 == ActionView::Done(seq![e])
        }),
{
    assert(Seq::<E>::empty().push(e) =~= seq![e]);
}

/// Asking for a redraw twice is the same as asking once.
pub proof fn lemma_needs_update_idempotent<E>(s: LoopState<E>)
    ensures
        mark_dirty(mark_dirty(s)) == mark_dirty(s),
{
}

} // verus!
