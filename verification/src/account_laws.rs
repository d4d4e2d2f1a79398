//! What holds of the accounts of a thread's running and paused time, in terms
//! of the times at which the thread was seen.

use crate::context_switch::{ThreadContextSwitchData, ThreadState};
use vstd::prelude::*;

verus! {

/// Whether an account went up by the time between two moments. It does not go
/// down where time ran backwards, and it stops at what it can hold.
pub open spec fn went_up_by(before: u64, after: u64, from: u64, to: u64) -> bool {
    &&& to <= from ==> after == before
    &&& to > from && before + (to - from) <= u64::MAX ==> after == before + (to - from)
    &&& to > from && before + (to - from) > u64::MAX ==> after == u64::MAX
}

/// A thread that nothing is known of has nothing on its accounts.
pub proof fn law_accounts_start_empty()
    ensures
        ThreadContextSwitchData::fresh().state is Unknown,
        ThreadContextSwitchData::fresh().on_cpu_ns == 0,
        ThreadContextSwitchData::fresh().off_cpu_ns == 0,
{
}

/// The time between two moments at which a thread was running counts as
/// running time, whether the thread goes on or is switched out at the second.
pub proof fn law_time_between_running_moments_is_running_time(
    thread: ThreadContextSwitchData,
    interval: u64,
    last_seen: u64,
    now: u64,
)
    requires
        thread.state == (ThreadState::On { last_seen }),
    ensures
        went_up_by(
            thread.on_cpu_ns,
            thread.after_running(interval, now).on_cpu_ns,
            last_seen,
            now,
        ),
        thread.after_running(interval, now).off_cpu_ns == thread.off_cpu_ns,
        thread.after_running(interval, now).state == (ThreadState::On { last_seen: now }),
        thread.off_cpu_group(interval, now) is None,
        went_up_by(thread.on_cpu_ns, thread.switched_out(now).on_cpu_ns, last_seen, now),
        thread.switched_out(now).off_cpu_ns == thread.off_cpu_ns,
        thread.switched_out(now).state == (ThreadState::Off { since: now }),
{
}

/// A thread that is seen for the first time has spent no time yet.
pub proof fn law_first_sight_counts_no_time(
    thread: ThreadContextSwitchData,
    interval: u64,
    now: u64,
)
    requires
        thread.state is Unknown,
    ensures
        thread.after_running(interval, now).on_cpu_ns == thread.on_cpu_ns,
        thread.after_running(interval, now).off_cpu_ns == thread.off_cpu_ns,
        thread.after_running(interval, now).state == (ThreadState::On { last_seen: now }),
        thread.off_cpu_group(interval, now) is None,
        thread.switched_out(now).on_cpu_ns == thread.on_cpu_ns,
        thread.switched_out(now).off_cpu_ns == thread.off_cpu_ns,
        thread.switched_out(now).state == (ThreadState::Off { since: now }),
{
}

/// A pause starts with the first record that says so: a further one changes
/// nothing.
pub proof fn law_pause_starts_once(thread: ThreadContextSwitchData, first: u64, again: u64)
    ensures
        thread.switched_out(first).switched_out(again) == thread.switched_out(first),
{
}

/// A moment that lies some time before another one, but not before zero.
pub open spec fn moment_before(now: u64, time: int) -> int {
    if time <= now {
        now - time
    } else {
        0
    }
}

/// The samples of a pause are one for each whole interval of the paused time
/// that is not accounted for yet. The last of them is as long ago as what is
/// left over, the first as long ago as all paused time but the first interval.
/// The running time stays as it is.
pub proof fn law_pause_gives_one_sample_per_interval(
    thread: ThreadContextSwitchData,
    interval: u64,
    since: u64,
    now: u64,
    paused: u64,
)
    requires
        thread.state == (ThreadState::Off { since }),
        interval > 0,
        went_up_by(thread.off_cpu_ns, paused, since, now),
    ensures
        ({
            let left = paused as int % (interval as int);
            let after = thread.after_running(interval, now);
            &&& after.state == (ThreadState::On { last_seen: now })
            &&& after.on_cpu_ns == thread.on_cpu_ns
            &&& after.off_cpu_ns == left
            &&& paused < interval ==> thread.off_cpu_group(interval, now) is None
            &&& paused >= interval ==> thread.off_cpu_group(interval, now) is Some && {
                let group = thread.off_cpu_group(interval, now)->0;
                &&& group.sample_count == paused as int / (interval as int)
                &&& group.begin_timestamp == moment_before(now, paused - interval)
                &&& group.end_timestamp == moment_before(now, left)
            }
        }),
{
    let seen = thread.seen_running(now);
    assert(seen.off_cpu_ns == paused);
    if paused < interval {
        assert(paused as int / (interval as int) == 0) by (nonlinear_arith)
            requires
                0 <= paused < interval,
        ;
        assert(paused as int % (interval as int) == paused) by (nonlinear_arith)
            requires
                0 <= paused < interval,
        ;
        assert(seen.whole_intervals(interval) == 0);
    } else {
        assert(paused as int / (interval as int) > 0) by (nonlinear_arith)
            requires
                0 < interval <= paused,
        ;
        assert(0 <= paused as int % (interval as int) <= paused) by (nonlinear_arith)
            requires
                0 < interval <= paused,
        ;
        assert(seen.whole_intervals(interval) > 0);
    }
}

/// Without an interval there are no samples of pauses, and the paused time is
/// kept on its account.
pub proof fn law_no_interval_no_samples(
    thread: ThreadContextSwitchData,
    since: u64,
    now: u64,
)
    requires
        thread.state == (ThreadState::Off { since }),
    ensures
        thread.off_cpu_group(0, now) is None,
        went_up_by(thread.off_cpu_ns, thread.after_running(0, now).off_cpu_ns, since, now),
        thread.after_running(0, now).on_cpu_ns == thread.on_cpu_ns,
        thread.after_running(0, now).state == (ThreadState::On { last_seen: now }),
{
}

/// A thread that starts to run, is switched out and runs again has run from
/// the first to the second moment, and paused from the second to the third.
pub proof fn law_running_and_paused_time_are_told_apart(
    interval: u64,
    start: u64,
    stop: u64,
    again: u64,
)
    requires
        interval > 0,
        start <= stop <= again,
    ensures
        ({
            let stopped = ThreadContextSwitchData::fresh().after_running(
                interval,
                start,
            ).switched_out(stop);
            let resumed = stopped.after_running(interval, again);
            &&& resumed.on_cpu_ns == stop - start
            &&& again - stop < interval ==> resumed.off_cpu_ns == again - stop
            &&& again - stop < interval ==> stopped.off_cpu_group(interval, again) is None
            &&& again - stop >= interval ==> stopped.off_cpu_group(interval, again) is Some
                && stopped.off_cpu_group(interval, again)->0.begin_timestamp == stop + interval
        }),
{
    let stopped = ThreadContextSwitchData::fresh().after_running(interval, start).switched_out(
        stop,
    );
    law_pause_gives_one_sample_per_interval(stopped, interval, stop, again, (again - stop) as u64);
    let paused = again - stop;
    assert(paused < interval ==> paused % (interval as int) == paused) by (nonlinear_arith)
        requires
            interval > 0,
            paused >= 0,
    ;
}

/// Running time that was taken for a sample is gone from its account, and
/// nothing else is.
pub proof fn law_running_time_is_taken_once(thread: ThreadContextSwitchData)
    ensures
        thread.consumed().on_cpu_ns == 0,
        thread.consumed().off_cpu_ns == thread.off_cpu_ns,
        thread.consumed().state == thread.state,
{
}

} // verus!
