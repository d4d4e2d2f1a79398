//! Accounts for the time that threads spend on and off the CPU.
//!
//! Context switch records say when a thread starts and stops to run, samples
//! say that it runs. The running time becomes the CPU delta of samples. The
//! paused time is turned into groups of simulated off-CPU samples, one per
//! sampling interval.

use vstd::prelude::*;

verus! {

/// What was last seen of a thread.
#[derive(Clone, Copy, Debug, PartialEq, Eq, Structural)]
pub enum ThreadState {
    /// Nothing yet.
    Unknown,
    /// The thread was switched out at the given time.
    Off { since: u64 },
    /// The thread was last seen running at the given time.
    On { last_seen: u64 },
}

/// The accounts of one thread.
#[derive(Clone, Copy, Debug, PartialEq, Eq, Structural)]
pub struct ThreadContextSwitchData {
    pub state: ThreadState,
    /// Running time since the last sample, in nanoseconds.
    pub on_cpu_ns: u64,
    /// Paused time that no off-CPU sample stands for yet, in nanoseconds.
    pub off_cpu_ns: u64,
}

/// A run of off-CPU samples.
#[derive(Clone, Copy, Debug, PartialEq, Eq, Structural)]
pub struct OffCpuSampleGroup {
    pub begin_timestamp: u64,
    pub end_timestamp: u64,
    pub sample_count: u64,
}

/// The time from `since` to `now`, nothing if time ran backwards.
pub open spec fn elapsed(since: u64, now: u64) -> u64 {
    if now >= since {
        (now - since) as u64
    } else {
        0
    }
}

/// The sum of two durations, capped at the largest one that fits.
pub open spec fn capped_sum(a: u64, b: u64) -> u64 {
    if a + b <= u64::MAX {
        (a + b) as u64
    } else {
        u64::MAX
    }
}

impl ThreadContextSwitchData {
    /// The accounts of a thread that nothing is known of.
    pub open spec fn fresh() -> ThreadContextSwitchData {
        ThreadContextSwitchData { state: ThreadState::Unknown, on_cpu_ns: 0, off_cpu_ns: 0 }
    }

    /// The accounts after the thread was switched out.
    pub open spec fn switched_out(self, timestamp: u64) -> ThreadContextSwitchData {
        match self.state {
            ThreadState::Unknown => ThreadContextSwitchData {
                state: ThreadState::Off { since: timestamp },
                ..self
            },
            ThreadState::On { last_seen } => ThreadContextSwitchData {
                state: ThreadState::Off { since: timestamp },
                on_cpu_ns: capped_sum(self.on_cpu_ns, elapsed(last_seen, timestamp)),
                ..self
            },
            // A repeated switch-out record adds nothing.
            ThreadState::Off { since: _ } => self,
        }
    }

    /// The accounts after the thread was seen running, before off-CPU samples
    /// are taken out of the paused time.
    pub open spec fn seen_running(self, timestamp: u64) -> ThreadContextSwitchData {
        match self.state {
            ThreadState::Unknown => ThreadContextSwitchData {
                state: ThreadState::On { last_seen: timestamp },
                ..self
            },
            ThreadState::On { last_seen } => ThreadContextSwitchData {
                state: ThreadState::On { last_seen: timestamp },
                on_cpu_ns: capped_sum(self.on_cpu_ns, elapsed(last_seen, timestamp)),
                ..self
            },
            ThreadState::Off { since } => ThreadContextSwitchData {
                state: ThreadState::On { last_seen: timestamp },
                off_cpu_ns: capped_sum(self.off_cpu_ns, elapsed(since, timestamp)),
                ..self
            },
        }
    }

    /// The number of whole sampling intervals in the paused time.
    pub open spec fn whole_intervals(self, interval: u64) -> u64 {
        if interval == 0 {
            0
        } else {
            self.off_cpu_ns / interval
        }
    }

    /// Whether seeing the thread run ends a pause that holds off-CPU samples.
    pub open spec fn ends_sampled_pause(self, interval: u64, timestamp: u64) -> bool {
        self.state is Off && self.seen_running(timestamp).whole_intervals(interval) > 0
    }

    /// The off-CPU samples of the pause that ends when the thread is seen running.
    pub open spec fn off_cpu_group(self, interval: u64, timestamp: u64) -> Option<
        OffCpuSampleGroup,
    > {
        let paused = self.seen_running(timestamp);
        if self.ends_sampled_pause(interval, timestamp) {
            Some(
                OffCpuSampleGroup {
                    begin_timestamp: elapsed((paused.off_cpu_ns - interval) as u64, timestamp),
                    end_timestamp: elapsed(paused.off_cpu_ns % interval, timestamp),
                    sample_count: paused.whole_intervals(interval),
                },
            )
        } else {
            None
        }
    }

    /// The accounts after the thread was seen running.
    pub open spec fn after_running(self, interval: u64, timestamp: u64) -> ThreadContextSwitchData {
        let paused = self.seen_running(timestamp);
        if self.ends_sampled_pause(interval, timestamp) {
            ThreadContextSwitchData { off_cpu_ns: paused.off_cpu_ns % interval, ..paused }
        } else {
            paused
        }
    }

    /// The accounts after the running time was consumed.
    pub open spec fn consumed(self) -> ThreadContextSwitchData {
        ThreadContextSwitchData { on_cpu_ns: 0, ..self }
    }

    /// The accounts of a thread that nothing is known of.
    pub fn new() -> (r: ThreadContextSwitchData)
        ensures
            r == ThreadContextSwitchData::fresh(),
    {
        ThreadContextSwitchData { state: ThreadState::Unknown, on_cpu_ns: 0, off_cpu_ns: 0 }
    }
}

/// Keeps the accounts of threads.
#[derive(Clone, Copy, Debug, PartialEq, Eq, Structural)]
pub struct ContextSwitchHandler {
    pub off_cpu_sampling_interval_ns: u64,
}

impl ContextSwitchHandler {
    /// A handler that takes one off-CPU sample per interval.
    pub fn new(off_cpu_sampling_interval_ns: u64) -> (r: ContextSwitchHandler)
        ensures
            r.off_cpu_sampling_interval_ns == off_cpu_sampling_interval_ns,
    {
        ContextSwitchHandler { off_cpu_sampling_interval_ns }
    }

    /// Accounts for a switch-out record.
    pub fn handle_switch_out(&self, timestamp: u64, thread: &mut ThreadContextSwitchData)
        ensures
            *final(thread) == old(thread).switched_out(timestamp),
    {
        match thread.state {
            ThreadState::Unknown => {
                thread.state = ThreadState::Off { since: timestamp };
            },
            ThreadState::On { last_seen } => {
                thread.on_cpu_ns = thread.on_cpu_ns.saturating_add(
                    timestamp.saturating_sub(last_seen),
                );
                thread.state = ThreadState::Off { since: timestamp };
            },
            ThreadState::Off { since: _ } => {},
        }
    }

    /// Accounts for the thread being seen running, and gives the off-CPU
    /// samples of the pause that this ends.
    fn handle_running(&self, timestamp: u64, thread: &mut ThreadContextSwitchData) -> (r: Option<
        OffCpuSampleGroup,
    >)
        ensures
            r == old(thread).off_cpu_group(self.off_cpu_sampling_interval_ns, timestamp),
            *final(thread) == old(thread).after_running(
                self.off_cpu_sampling_interval_ns,
                timestamp,
            ),
    {
        let interval: u64 = self.off_cpu_sampling_interval_ns;
        match thread.state {
            ThreadState::Unknown => {
                thread.state = ThreadState::On { last_seen: timestamp };
                None
            },
            ThreadState::On { last_seen } => {
                thread.on_cpu_ns = thread.on_cpu_ns.saturating_add(
                    timestamp.saturating_sub(last_seen),
                );
                thread.state = ThreadState::On { last_seen: timestamp };
                None
            },
            ThreadState::Off { since } => {
                let paused: u64 = thread.off_cpu_ns.saturating_add(timestamp.saturating_sub(since));
                thread.off_cpu_ns = paused;
                thread.state = ThreadState::On { last_seen: timestamp };
                if interval == 0 || paused / interval == 0 {
                    return None;
                }
                let sample_count: u64 = paused / interval;
                let remaining: u64 = paused % interval;
                assert(interval <= paused) by (nonlinear_arith)
                    requires
                        interval > 0,
                        paused / interval > 0,
                ;
                thread.off_cpu_ns = remaining;
                Some(
                    OffCpuSampleGroup {
                        begin_timestamp: timestamp.saturating_sub(paused - interval),
                        end_timestamp: timestamp.saturating_sub(remaining),
                        sample_count,
                    },
                )
            },
        }
    }

    /// Accounts for a switch-in record.
    pub fn handle_switch_in(&self, timestamp: u64, thread: &mut ThreadContextSwitchData) -> (r:
        Option<OffCpuSampleGroup>)
        ensures
            r == old(thread).off_cpu_group(self.off_cpu_sampling_interval_ns, timestamp),
            *final(thread) == old(thread).after_running(
                self.off_cpu_sampling_interval_ns,
                timestamp,
            ),
    {
        self.handle_running(timestamp, thread)
    }

    /// Accounts for a sample.
    pub fn handle_sample(&self, timestamp: u64, thread: &mut ThreadContextSwitchData) -> (r: Option<
        OffCpuSampleGroup,
    >)
        ensures
            r == old(thread).off_cpu_group(self.off_cpu_sampling_interval_ns, timestamp),
            *final(thread) == old(thread).after_running(
                self.off_cpu_sampling_interval_ns,
                timestamp,
            ),
    {
        self.handle_running(timestamp, thread)
    }

    /// Takes the running time that has accumulated since the last time.
    pub fn consume_cpu_delta(&self, thread: &mut ThreadContextSwitchData) -> (r: u64)
        ensures
            r == old(thread).on_cpu_ns,
            *final(thread) == old(thread).consumed(),
    {
        let delta: u64 = thread.on_cpu_ns;
        thread.on_cpu_ns = 0;
        delta
    }
}

/// The samples of a group are one sampling interval apart: the pause from the
/// first to the last of them is as long as all intervals but the first.
pub proof fn law_off_cpu_samples_are_one_interval_apart(
    thread: ThreadContextSwitchData,
    interval: u64,
    timestamp: u64,
)
    requires
        thread.off_cpu_group(interval, timestamp) is Some,
        thread.seen_running(timestamp).off_cpu_ns <= timestamp,
    ensures
        ({
            let group = thread.off_cpu_group(interval, timestamp)->0;
            &&& group.sample_count > 0
            &&& group.begin_timestamp <= group.end_timestamp <= timestamp
            &&& group.end_timestamp - group.begin_timestamp == (group.sample_count - 1) * interval
        }),
{
    let paused = thread.seen_running(timestamp).off_cpu_ns;
    assert(paused == (paused / interval) * interval + paused % interval) by (nonlinear_arith)
        requires
            interval > 0,
    ;
    assert(paused % interval < interval) by (nonlinear_arith)
        requires
            interval > 0,
    ;
    let count = paused / interval;
    assert((count - 1) * interval == count * interval - interval) by (nonlinear_arith);
    assert(count * interval >= interval) by (nonlinear_arith)
        requires
            count > 0,
            interval > 0,
    ;
}

/// No paused time is lost or counted twice: what the samples of a group stand
/// for and what is left over make up the whole pause, and less than one
/// interval is left over.
pub proof fn law_paused_time_is_conserved(
    thread: ThreadContextSwitchData,
    interval: u64,
    timestamp: u64,
)
    requires
        interval > 0,
        thread.state is Off,
    ensures
        thread.after_running(interval, timestamp).off_cpu_ns < interval,
        thread.seen_running(timestamp).off_cpu_ns == thread.after_running(
            interval,
            timestamp,
        ).off_cpu_ns + interval * (match thread.off_cpu_group(interval, timestamp) {
            Some(group) => group.sample_count as int,
            None => 0,
        }),
{
    let paused = thread.seen_running(timestamp).off_cpu_ns;
    assert(paused == interval * (paused / interval) + paused % interval) by (nonlinear_arith)
        requires
            interval > 0,
    ;
    assert(paused % interval < interval) by (nonlinear_arith)
        requires
            interval > 0,
    ;
    if paused / interval == 0 {
        assert(paused < interval);
    }
}

} // verus!
