//! The laws of the stopwatch state machine, stated over [`StopwatchView`]
//! and proved once for every state and every clock reading.

use vstd::prelude::*;
use crate::StopwatchView;

verus! {

/// While the stopwatch is stopped, the elapsed time does not depend on the
/// clock: readings taken at any two instants agree.
pub proof fn lemma_elapsed_constant_while_stopped(m: StopwatchView, t1: nat, t2: nat)
    requires
        !m.is_running(),
    ensures
        m.elapsed_at(t1) == m.elapsed_at(t2),
{
}

/// Starting twice in a row has the same effect as starting once: the second
/// `start` is a no-op, whatever instant it reads, so every observation
/// (`elapsed`, `is_running`) afterwards is identical.
pub proof fn lemma_start_idempotent(m: StopwatchView, t1: nat, t2: nat)
    ensures
        m.after_start(t1).after_start(t2) == m.after_start(t1),
{
}

/// The stopwatch runs exactly after a `start` or a `reset_and_start`, and is
/// stopped exactly after a `stop` or a `reset`. Since the queries mutate
/// nothing, `is_running` is true iff the most recent state-changing operation
/// was a `start` or a `reset_and_start`.
pub proof fn lemma_running_after_each_operation(m: StopwatchView, t: nat)
    ensures
        m.after_start(t).is_running(),
        m.after_reset_and_start(t).is_running(),
        !m.after_stop(t).is_running(),
        !m.after_reset().is_running(),
{
}

/// Completed intervals accumulate: from a stopped state, run from `t0` for
/// `a` nanoseconds, stop, run again from `t1` for `b` nanoseconds, stop - the
/// total grows by exactly `a + b`, not by `a` or `b` alone. The pause between
/// the two runs (and its length) does not matter.
pub proof fn lemma_intervals_accumulate(m: StopwatchView, t0: nat, a: nat, t1: nat, b: nat)
    requires
        !m.is_running(),
        m.accumulated + a + b <= u128::MAX,
    ensures
        ({
            let done = m.after_start(t0).after_stop(t0 + a).after_start(t1).after_stop(t1 + b);
            &&& done.accumulated == m.accumulated + a + b
            &&& !done.is_running()
        }),
{
}

/// A `reset` discards the run in progress: run from `t0`, reset without
/// stopping, run again from `t1` for `b` nanoseconds, stop - the total is
/// exactly `b`; nothing of the first run survives.
pub proof fn lemma_reset_discards_run_in_progress(m: StopwatchView, t0: nat, t1: nat, b: nat)
    requires
        b <= u128::MAX,
    ensures
        ({
            let done = m.after_start(t0).after_reset().after_start(t1).after_stop(t1 + b);
            &&& done.accumulated == b
            &&& !done.is_running()
        }),
{
}

/// `reset_and_start` is the composition of `reset` and `start`, and a run of
/// `c` nanoseconds begun by it ends with exactly `c` elapsed, whatever state
/// the stopwatch was in before.
pub proof fn lemma_reset_and_start_measures_fresh(m: StopwatchView, t: nat, c: nat)
    requires
        c <= u128::MAX,
    ensures
        m.after_reset_and_start(t) == m.after_reset().after_start(t),
        m.after_reset_and_start(t).after_stop(t + c).accumulated == c,
{
}

/// One state-changing operation of the stopwatch, with the instant (if any)
/// at which it reads the clock.
pub ghost enum Operation {
    Start(nat),
    Stop(nat),
    Reset,
    ResetAndStart(nat),
}

/// The state after one operation.
pub open spec fn apply(m: StopwatchView, op: Operation) -> StopwatchView {
    match op {
        Operation::Start(t) => m.after_start(t),
        Operation::Stop(t) => m.after_stop(t),
        Operation::Reset => m.after_reset(),
        Operation::ResetAndStart(t) => m.after_reset_and_start(t),
    }
}

/// The state after a sequence of operations, applied in order.
pub open spec fn apply_all(m: StopwatchView, ops: Seq<Operation>) -> StopwatchView
    decreases ops.len(),
{
    if ops.len() == 0 {
        m
    } else {
        apply_all(apply(m, ops.first()), ops.drop_first())
    }
}

/// After any non-empty sequence of state-changing operations, `is_running` is
/// true iff the most recent one was a `start` or a `reset_and_start`: the
/// run-state depends on the last operation alone, whatever came before it and
/// whatever the clock read.
pub proof fn lemma_is_running_tracks_last_operation(m: StopwatchView, ops: Seq<Operation>)
    requires
        ops.len() > 0,
    ensures
        apply_all(m, ops).is_running() == (ops.last() is Start || ops.last() is ResetAndStart),
    decreases ops.len(),
{
    if ops.len() == 1 {
        assert(apply_all(apply(m, ops.first()), ops.drop_first()) == apply(m, ops.first()));
    } else {
        lemma_is_running_tracks_last_operation(apply(m, ops.first()), ops.drop_first());
        assert(ops.drop_first().last() == ops.last());
    }
}

/// Elapsed readings never decrease as the clock advances: the total grows
/// with the clock while running and stays constant while stopped.
pub proof fn lemma_elapsed_monotonic(m: StopwatchView, t1: nat, t2: nat)
    requires
        t1 <= t2,
    ensures
        m.elapsed_at(t1) <= m.elapsed_at(t2),
{
}

} // verus!
