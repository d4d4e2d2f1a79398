//! What samples, context switches and memory statistics add to a profile, in
//! terms of the records and of what is known of the thread.

use crate::account_laws::{
    law_pause_gives_one_sample_per_interval, moment_before, went_up_by,
};
use crate::context_switch::{OffCpuSampleGroup, ThreadState};
use crate::converter::{ConverterView, SampleRecord};
use crate::processes::{ProcessView, RecordingView, ThreadView};
use crate::profile::{EntryView, RssStatMember};
use crate::samples::{off_cpu_entries, CommonData, ContextSwitchRecord, RssStat};
use crate::stack::{user_only, StackFrame};
use crate::stack_laws::{all_in_user_space, law_user_stack_is_kept};
use vstd::prelude::*;

verus! {

/// Whether a recording has a thread. The main thread has the ID of the process.
pub open spec fn knows_thread(recording: RecordingView, pid: i32, tid: i32) -> bool {
    recording.processes.dom().contains(pid) && (tid == pid
        || recording.processes[pid].threads.dom().contains(tid))
}

/// A thread of a recording.
pub open spec fn thread_in(recording: RecordingView, pid: i32, tid: i32) -> ThreadView {
    if tid == pid {
        recording.processes[pid].main_thread
    } else {
        recording.processes[pid].threads[tid]
    }
}

/// Whether one stack is the other one from its far end.
pub open spec fn is_turned_around(a: Seq<StackFrame>, b: Seq<StackFrame>) -> bool {
    &&& a.len() == b.len()
    &&& forall|i: int| 0 <= i < a.len() ==> #[trigger] a[i] == b[b.len() - 1 - i]
}

/// Whether two recordings differ in nothing but a thread and further entries.
/// The thread is still the same one.
pub open spec fn differ_in_thread(
    a: RecordingView,
    b: RecordingView,
    pid: i32,
    tid: i32,
) -> bool {
    let p = a.processes[pid];
    let q = b.processes[pid];
    &&& b.merge_threads == a.merge_threads
    &&& b.ended_processes == a.ended_processes
    &&& a.entries.is_prefix_of(b.entries)
    &&& b.processes.dom() == a.processes.dom()
    &&& forall|other: i32|
        other != pid && a.processes.dom().contains(other) ==> #[trigger] b.processes[other]
            == a.processes[other]
    &&& q.handle == p.handle && q.name == p.name && q.rss == p.rss
    &&& q.ended_threads == p.ended_threads
    &&& q.threads.dom() == p.threads.dom()
    &&& tid != pid ==> q.main_thread == p.main_thread
    &&& forall|other: i32|
        (other != tid || tid == pid) && p.threads.dom().contains(other)
            ==> #[trigger] q.threads[other] == p.threads[other]
    &&& thread_in(b, pid, tid).handle == thread_in(a, pid, tid).handle
    &&& thread_in(b, pid, tid).name == thread_in(a, pid, tid).name
}

/// Whether a sample is one that is not a repetition, of a known thread.
pub open spec fn is_new_sample(state: ConverterView, e: SampleRecord) -> bool {
    &&& e.pid is Some && e.tid is Some && e.timestamp is Some
    &&& knows_thread(state.recording, e.pid->0, e.tid->0)
    &&& thread_in(state.recording, e.pid->0, e.tid->0).last_sample_timestamp != e.timestamp
}

/// A sample is put down for its thread, at its time and with a weight of one.
/// Its stack is that of the record, from the outermost frame to the innermost
/// one. Before it the JITDUMP files of the process are looked at.
pub proof fn law_sample_is_put_down(state: ConverterView, e: SampleRecord)
    requires
        is_new_sample(state, e),
    ensures
        ({
            let thread = thread_in(state.recording, e.pid->0, e.tid->0);
            let before = state.recording.entries;
            let after = state.after_sample(e).recording.entries;
            &&& after.len() >= before.len() + 2
            &&& after.take(before.len() as int) == before
            &&& after[before.len() as int] == (EntryView::CheckJitdump {
                process: state.recording.processes[e.pid->0].handle,
            })
            &&& match after.last() {
                EntryView::AddSample { thread: handle, time, mono_time, stack, weight, .. } => {
                    &&& handle == thread.handle
                    &&& time == e.timestamp->0
                    &&& mono_time == e.timestamp->0
                    &&& weight == 1
                    &&& is_turned_around(
                        stack,
                        e.stack.stack(state.settings.fold_recursive_prefix),
                    )
                },
                _ => false,
            }
        }),
{
    let before = state.recording.entries;
    let after = state.after_sample(e).recording.entries;
    assert(after.take(before.len() as int) =~= before);
}

/// A sample is the last thing that is known of its thread: when it was taken,
/// that the thread was running then, and that no pause is under way. No other
/// thread is touched.
pub proof fn law_sample_changes_its_thread(state: ConverterView, e: SampleRecord)
    requires
        is_new_sample(state, e),
    ensures
        ({
            let after = state.after_sample(e);
            let thread = thread_in(after.recording, e.pid->0, e.tid->0);
            &&& after.current_sample_time == e.timestamp->0
            &&& thread.last_sample_timestamp == e.timestamp
            &&& thread.off_cpu_stack is None
            &&& thread.context_switch_data.state == (ThreadState::On { last_seen: e.timestamp->0 })
            &&& differ_in_thread(state.recording, after.recording, e.pid->0, e.tid->0)
            &&& after.suspected_pe_mappings == state.suspected_pe_mappings
            &&& after.product_name_pending == state.product_name_pending
        }),
{
    let a = state.recording;
    let b = state.after_sample(e).recording;
    assert(b.processes.dom() =~= a.processes.dom());
    assert(b.processes[e.pid->0].threads.dom() =~= a.processes[e.pid->0].threads.dom());
}

/// A sample with the time of the thread's previous one changes nothing but the
/// time of the last sample. It still has the JITDUMP files looked at.
pub proof fn law_sample_of_the_same_time_is_left_out(state: ConverterView, e: SampleRecord)
    requires
        e.pid is Some,
        e.tid is Some,
        e.timestamp is Some,
        knows_thread(state.recording, e.pid->0, e.tid->0),
        thread_in(state.recording, e.pid->0, e.tid->0).last_sample_timestamp == e.timestamp,
    ensures
        state.after_sample(e).current_sample_time == e.timestamp->0,
        state.after_sample(e).recording.processes == state.recording.processes,
        state.after_sample(e).recording.entries == state.recording.entries.push(
            EntryView::CheckJitdump { process: state.recording.processes[e.pid->0].handle },
        ),
{
}

/// Without context switch records the CPU time of a sample is its period, and
/// the running time stays on the account.
pub proof fn law_period_is_the_cpu_time_without_context_switches(
    state: ConverterView,
    e: SampleRecord,
)
    requires
        is_new_sample(state, e),
        !state.settings.have_context_switches,
    ensures
        ({
            let after = state.after_sample(e).recording;
            match after.entries.last() {
                EntryView::AddSample { cpu_delta_ns, .. } => {
                    &&& e.period is Some ==> cpu_delta_ns == e.period->0
                    &&& e.period is None ==> cpu_delta_ns == 0
                },
                _ => false,
            }
        }),
        ({
            let thread = thread_in(state.recording, e.pid->0, e.tid->0);
            let after = thread_in(state.after_sample(e).recording, e.pid->0, e.tid->0);
            match thread.context_switch_data.state {
                ThreadState::Unknown => after.context_switch_data.on_cpu_ns
                    == thread.context_switch_data.on_cpu_ns,
                ThreadState::On { last_seen } => went_up_by(
                    thread.context_switch_data.on_cpu_ns,
                    after.context_switch_data.on_cpu_ns,
                    last_seen,
                    e.timestamp->0,
                ),
                ThreadState::Off { .. } => thread.off_cpu_stack is None
                    ==> after.context_switch_data.on_cpu_ns == thread.context_switch_data.on_cpu_ns,
            }
        }),
{
}

/// With context switch records the CPU time of a sample of a running thread is
/// all of its running time since the last sample, which is then accounted for.
pub proof fn law_running_time_is_the_cpu_time_with_context_switches(
    state: ConverterView,
    e: SampleRecord,
    last_seen: u64,
)
    requires
        is_new_sample(state, e),
        state.settings.have_context_switches,
        ({
            let data = thread_in(state.recording, e.pid->0, e.tid->0).context_switch_data;
            data.state == (ThreadState::On { last_seen })
        }),
    ensures
        ({
            let data = thread_in(state.recording, e.pid->0, e.tid->0).context_switch_data;
            let after = state.after_sample(e).recording;
            &&& after.entries.len() == state.recording.entries.len() + 2
            &&& match after.entries.last() {
                EntryView::AddSample { cpu_delta_ns, .. } => went_up_by(
                    data.on_cpu_ns,
                    cpu_delta_ns,
                    last_seen,
                    e.timestamp->0,
                ),
                _ => false,
            }
            &&& thread_in(after, e.pid->0, e.tid->0).context_switch_data.on_cpu_ns == 0
            &&& thread_in(after, e.pid->0, e.tid->0).context_switch_data.off_cpu_ns
                == data.off_cpu_ns
        }),
{
}

/// A thread of which it is not known whether it was running before has spent
/// no time since it was last seen: a sample has what was on its account, and a
/// context switch leaves the account as it is.
pub proof fn law_unseen_time_is_not_counted(
    state: ConverterView,
    e: SampleRecord,
    common: CommonData,
    switch: ContextSwitchRecord,
)
    requires
        is_new_sample(state, e),
        common.pid == e.pid,
        common.tid == e.tid,
        common.timestamp == e.timestamp,
        thread_in(state.recording, e.pid->0, e.tid->0).context_switch_data.state is Unknown,
    ensures
        ({
            let data = thread_in(state.recording, e.pid->0, e.tid->0).context_switch_data;
            let sampled = state.after_sample(e).recording;
            let switched = state.after_context_switch(switch, common).recording;
            let now = thread_in(switched, e.pid->0, e.tid->0).context_switch_data;
            &&& sampled.entries.len() == state.recording.entries.len() + 2
            &&& state.settings.have_context_switches ==> match sampled.entries.last() {
                EntryView::AddSample { cpu_delta_ns, .. } => cpu_delta_ns == data.on_cpu_ns,
                _ => false,
            }
            &&& state.settings.have_context_switches ==> thread_in(
                sampled,
                e.pid->0,
                e.tid->0,
            ).context_switch_data.on_cpu_ns == 0
            &&& now.on_cpu_ns == data.on_cpu_ns
            &&& now.off_cpu_ns == data.off_cpu_ns
        }),
{
}

/// A group of off-CPU samples becomes a sample at its start, with all of the
/// given running time, and, where there are more in the group, another one at
/// its end, for all but the first of them. Both have the given stack.
pub proof fn law_groups_become_one_or_two_samples(
    group: OffCpuSampleGroup,
    handle: nat,
    delta: u64,
    weight_per_sample: i32,
    frames: Seq<StackFrame>,
)
    requires
        0 <= weight_per_sample <= 1,
    ensures
        ({
            let entries = off_cpu_entries(group, handle, delta, weight_per_sample, frames);
            let others = group.sample_count - 1;
            &&& group.sample_count <= 1 ==> entries.len() == 1
            &&& group.sample_count > 1 ==> entries.len() == 2
            &&& match entries[0] {
                EntryView::AddSample { thread, time, mono_time, stack, cpu_delta_ns, weight } => {
                    &&& thread == handle && time == group.begin_timestamp
                    &&& mono_time == group.begin_timestamp && stack == frames
                    &&& cpu_delta_ns == delta && weight == weight_per_sample
                },
                _ => false,
            }
            &&& group.sample_count > 1 ==> match entries[1] {
                EntryView::AddSample { thread, time, mono_time, stack, cpu_delta_ns, weight } => {
                    &&& thread == handle && time == group.end_timestamp
                    &&& mono_time == group.begin_timestamp && stack == frames
                    &&& cpu_delta_ns == 0
                    &&& others <= 0x7fff_ffff ==> weight == others * weight_per_sample
                    &&& others > 0x7fff_ffff ==> weight == 0
                },
                _ => false,
            }
        }),
{
    let others = group.sample_count - 1;
    if others > 0 {
        assert(0 <= others * weight_per_sample <= others) by (nonlinear_arith)
            requires
                0 < others,
                0 <= weight_per_sample <= 1,
        ;
    }
}

/// A thread in the midst of a pause, of which the given paused time is not
/// accounted for yet at the given moment.
pub open spec fn is_paused(
    thread: ThreadView,
    now: u64,
    paused: u64,
) -> bool {
    let data = thread.context_switch_data;
    match data.state {
        ThreadState::Off { since } => went_up_by(data.off_cpu_ns, paused, since, now),
        _ => false,
    }
}

/// Whether entries are the samples of a pause: one at the first of its samples
/// with the running time before the pause, and, where there are more than one,
/// one at the last of them that weighs as much as all others.
pub open spec fn are_pause_samples(
    entries: Seq<EntryView>,
    thread: ThreadView,
    interval: u64,
    weight: i32,
    now: u64,
    paused: u64,
) -> bool {
    let count = paused as int / (interval as int);
    let first = moment_before(now, paused - interval) as u64;
    let last = moment_before(now, paused as int % (interval as int)) as u64;
    &&& entries.len() == if count == 1 {
        1nat
    } else {
        2
    }
    &&& entries[0] == (EntryView::AddSample {
        thread: thread.handle,
        time: first,
        mono_time: first,
        stack: thread.off_cpu_stack->0,
        cpu_delta_ns: thread.context_switch_data.on_cpu_ns,
        weight,
    })
    &&& count > 1 ==> match entries[1] {
        EntryView::AddSample { thread: handle, time, mono_time, stack, cpu_delta_ns, weight: w }
        => {
            &&& handle == thread.handle
            &&& time == last
            &&& mono_time == first
            &&& stack == thread.off_cpu_stack->0
            &&& cpu_delta_ns == 0
            &&& count - 1 <= i32::MAX ==> w == (count - 1) * weight
            &&& count - 1 > i32::MAX ==> w == 0
        },
        _ => false,
    }
}

proof fn lemma_pause(state: ConverterView, thread: ThreadView, now: u64, paused: u64)
    requires
        state.settings.wf(),
        is_paused(thread, now, paused),
        thread.off_cpu_stack is Some,
        0 < state.settings.off_cpu_interval() <= paused,
    ensures
        are_pause_samples(
            thread.pause_entries(state.settings, now),
            thread,
            state.settings.off_cpu_interval(),
            state.settings.off_cpu_weight_per_sample,
            now,
            paused,
        ),
        ({
            let data = thread.running_again(state.settings, now).context_switch_data;
            &&& data.on_cpu_ns == 0
            &&& data.off_cpu_ns == paused as int % (state.settings.off_cpu_interval() as int)
            &&& data.state == (ThreadState::On { last_seen: now })
        }),
{
    let interval = state.settings.off_cpu_interval();
    let weight = state.settings.off_cpu_weight_per_sample;
    let count = paused as int / (interval as int);
    let since = thread.context_switch_data.state->since;
    law_pause_gives_one_sample_per_interval(
        thread.context_switch_data,
        interval,
        since,
        now,
        paused,
    );
    assert(count >= 1) by (nonlinear_arith)
        requires
            count == paused as int / (interval as int),
            0 < interval <= paused,
    ;
    assert(0 <= (count - 1) * weight <= count - 1) by (nonlinear_arith)
        requires
            count >= 1,
            0 <= weight <= 1,
    ;
}

/// What is left on the account of the paused time after a pause.
pub open spec fn left_over(paused: u64, interval: u64) -> int {
    if interval == 0 {
        paused as int
    } else {
        paused as int % (interval as int)
    }
}

proof fn lemma_unsampled_pause(state: ConverterView, thread: ThreadView, now: u64, paused: u64)
    requires
        is_paused(thread, now, paused),
        ({
            ||| thread.off_cpu_stack is None
            ||| state.settings.off_cpu_interval() == 0
            ||| paused < state.settings.off_cpu_interval()
        }),
    ensures
        thread.pause_entries(state.settings, now).len() == 0,
        ({
            let data = thread.running_again(state.settings, now).context_switch_data;
            &&& data.on_cpu_ns == thread.context_switch_data.on_cpu_ns
            &&& data.off_cpu_ns == left_over(paused, state.settings.off_cpu_interval())
        }),
{
    let interval = state.settings.off_cpu_interval();
    let data = thread.context_switch_data;
    assert(data.seen_running(now).off_cpu_ns == paused);
    if interval > 0 {
        law_pause_gives_one_sample_per_interval(data, interval, data.state->since, now, paused);
    }
    assert(!thread.sampled_pause(interval, now));
}

/// Where the pause of a thread ends with a sample or with a switch-in record,
/// and a stack was saved, samples are put down for the whole intervals of the
/// pause. They have the saved stack, and they take the running time before the
/// pause, so that a sample that ends the pause has none left.
pub proof fn law_pause_is_sampled(
    state: ConverterView,
    e: SampleRecord,
    common: CommonData,
    paused: u64,
)
    requires
        state.settings.wf(),
        is_new_sample(state, e),
        common.pid == e.pid,
        common.tid == e.tid,
        common.timestamp == e.timestamp,
        is_paused(thread_in(state.recording, e.pid->0, e.tid->0), e.timestamp->0, paused),
        thread_in(state.recording, e.pid->0, e.tid->0).off_cpu_stack is Some,
        0 < state.settings.context_switch_handler.off_cpu_sampling_interval_ns <= paused,
    ensures
        ({
            let interval = state.settings.context_switch_handler.off_cpu_sampling_interval_ns;
            let weight = state.settings.off_cpu_weight_per_sample;
            let thread = thread_in(state.recording, e.pid->0, e.tid->0);
            let n = state.recording.entries.len() as int;
            let sampled = state.after_sample(e).recording;
            let switched = state.after_context_switch(ContextSwitchRecord::In, common).recording;
            &&& are_pause_samples(
                sampled.entries.subrange(n + 1, sampled.entries.len() - 1),
                thread,
                interval,
                weight,
                e.timestamp->0,
                paused,
            )
            &&& state.settings.have_context_switches ==> match sampled.entries.last() {
                EntryView::AddSample { cpu_delta_ns, .. } => cpu_delta_ns == 0,
                _ => false,
            }
            &&& are_pause_samples(
                switched.entries.skip(n),
                thread,
                interval,
                weight,
                e.timestamp->0,
                paused,
            )
            &&& switched.entries.take(n) == state.recording.entries
            &&& thread_in(sampled, e.pid->0, e.tid->0).context_switch_data.off_cpu_ns
                == paused as int % (interval as int)
            &&& thread_in(switched, e.pid->0, e.tid->0).context_switch_data.off_cpu_ns
                == paused as int % (interval as int)
            &&& thread_in(switched, e.pid->0, e.tid->0).context_switch_data.on_cpu_ns == 0
            &&& thread_in(sampled, e.pid->0, e.tid->0).context_switch_data.on_cpu_ns == 0
        }),
{
    let thread = thread_in(state.recording, e.pid->0, e.tid->0);
    let n = state.recording.entries.len() as int;
    let now = e.timestamp->0;
    lemma_pause(state, thread, now, paused);
    let sampled = state.after_sample(e).recording;
    let switched = state.after_context_switch(ContextSwitchRecord::In, common).recording;
    let entries = thread.pause_entries(state.settings, now);
    assert(sampled.entries.subrange(n + 1, sampled.entries.len() - 1) =~= entries);
    assert(switched.entries.skip(n) =~= entries);
    assert(switched.entries.take(n) =~= state.recording.entries);
}

/// The end of a pause that is shorter than an interval, or of which no stack is
/// known, or where there is no interval, puts nothing down for the pause: a
/// sample that ends it has all of the running time before it, a switch-in
/// record leaves it on the account.
pub proof fn law_short_or_stackless_pause_is_not_sampled(
    state: ConverterView,
    e: SampleRecord,
    common: CommonData,
    paused: u64,
)
    requires
        is_new_sample(state, e),
        common.pid == e.pid,
        common.tid == e.tid,
        common.timestamp == e.timestamp,
        is_paused(thread_in(state.recording, e.pid->0, e.tid->0), e.timestamp->0, paused),
        ({
            ||| thread_in(state.recording, e.pid->0, e.tid->0).off_cpu_stack is None
            ||| state.settings.context_switch_handler.off_cpu_sampling_interval_ns == 0
            ||| paused < state.settings.context_switch_handler.off_cpu_sampling_interval_ns
        }),
    ensures
        ({
            let thread = thread_in(state.recording, e.pid->0, e.tid->0);
            let interval = state.settings.context_switch_handler.off_cpu_sampling_interval_ns;
            let sampled = state.after_sample(e).recording;
            let switched = state.after_context_switch(ContextSwitchRecord::In, common).recording;
            let data = thread_in(switched, e.pid->0, e.tid->0).context_switch_data;
            &&& sampled.entries.len() == state.recording.entries.len() + 2
            &&& state.settings.have_context_switches ==> match sampled.entries.last() {
                EntryView::AddSample { cpu_delta_ns, .. } => cpu_delta_ns
                    == thread.context_switch_data.on_cpu_ns,
                _ => false,
            }
            &&& switched.entries == state.recording.entries
            &&& data.on_cpu_ns == thread.context_switch_data.on_cpu_ns
            &&& data.off_cpu_ns == left_over(paused, interval)
            &&& thread_in(sampled, e.pid->0, e.tid->0).context_switch_data.off_cpu_ns
                == left_over(paused, interval)
            &&& thread_in(sampled, e.pid->0, e.tid->0).context_switch_data.on_cpu_ns
                == if state.settings.have_context_switches {
                0
            } else {
                thread.context_switch_data.on_cpu_ns
            }
        }),
{
    let thread = thread_in(state.recording, e.pid->0, e.tid->0);
    lemma_unsampled_pause(state, thread, e.timestamp->0, paused);
    let switched = state.after_context_switch(ContextSwitchRecord::In, common).recording;
    assert(switched.entries =~= state.recording.entries);
}

/// A switch-in record says that the thread runs from now on and ends its
/// pause; a switch-out record says that it is paused from now on, keeps the
/// stack that was saved for the pause, and puts nothing down. Neither touches
/// another thread, nor the time of the last sample.
pub proof fn law_context_switch_changes_its_thread(state: ConverterView, common: CommonData)
    requires
        common.pid is Some,
        common.tid is Some,
        common.timestamp is Some,
        knows_thread(state.recording, common.pid->0, common.tid->0),
    ensures
        ({
            let pid = common.pid->0;
            let tid = common.tid->0;
            let now = common.timestamp->0;
            let thread = thread_in(state.recording, pid, tid);
            let switched_in = state.after_context_switch(ContextSwitchRecord::In, common);
            let switched_out = state.after_context_switch(ContextSwitchRecord::Out, common);
            let running = thread_in(switched_in.recording, pid, tid);
            let paused = thread_in(switched_out.recording, pid, tid);
            &&& running.context_switch_data.state == (ThreadState::On { last_seen: now })
            &&& running.off_cpu_stack is None
            &&& running.last_sample_timestamp == thread.last_sample_timestamp
            &&& differ_in_thread(state.recording, switched_in.recording, pid, tid)
            &&& switched_in.current_sample_time == state.current_sample_time
            &&& !(thread.context_switch_data.state is Off) ==> switched_in.recording.entries
                == state.recording.entries
            &&& !(thread.context_switch_data.state is Off) ==> paused.context_switch_data.state == (
            ThreadState::Off { since: now })
            &&& thread.context_switch_data.state is Off ==> paused == thread
            &&& paused.off_cpu_stack == thread.off_cpu_stack
            &&& paused.last_sample_timestamp == thread.last_sample_timestamp
            &&& paused.context_switch_data.off_cpu_ns == thread.context_switch_data.off_cpu_ns
            &&& switched_out.recording.entries == state.recording.entries
            &&& differ_in_thread(state.recording, switched_out.recording, pid, tid)
            &&& switched_out.current_sample_time == state.current_sample_time
        }),
{
    let pid = common.pid->0;
    let tid = common.tid->0;
    let a = state.recording;
    let b = state.after_context_switch(ContextSwitchRecord::In, common).recording;
    let c = state.after_context_switch(ContextSwitchRecord::Out, common).recording;
    assert(b.processes.dom() =~= a.processes.dom());
    assert(c.processes.dom() =~= a.processes.dom());
    assert(b.processes[pid].threads.dom() =~= a.processes[pid].threads.dom());
    assert(c.processes[pid].threads.dom() =~= a.processes[pid].threads.dom());
    assert(!(thread_in(a, pid, tid).context_switch_data.state is Off) ==> b.entries =~= a.entries);
}

/// A context switch record counts the time since the thread was last seen
/// running as running time.
pub proof fn law_context_switch_counts_running_time(
    state: ConverterView,
    common: CommonData,
    last_seen: u64,
)
    requires
        common.pid is Some,
        common.tid is Some,
        common.timestamp is Some,
        knows_thread(state.recording, common.pid->0, common.tid->0),
        ({
            let data = thread_in(
                state.recording,
                common.pid->0,
                common.tid->0,
            ).context_switch_data;
            data.state == (ThreadState::On { last_seen })
        }),
    ensures
        went_up_by(
            thread_in(
                state.recording,
                common.pid->0,
                common.tid->0,
            ).context_switch_data.on_cpu_ns,
            thread_in(
                state.after_context_switch(ContextSwitchRecord::Out, common).recording,
                common.pid->0,
                common.tid->0,
            ).context_switch_data.on_cpu_ns,
            last_seen,
            common.timestamp->0,
        ),
        went_up_by(
            thread_in(
                state.recording,
                common.pid->0,
                common.tid->0,
            ).context_switch_data.on_cpu_ns,
            thread_in(
                state.after_context_switch(ContextSwitchRecord::In, common).recording,
                common.pid->0,
                common.tid->0,
            ).context_switch_data.on_cpu_ns,
            last_seen,
            common.timestamp->0,
        ),
{
}

/// The stack that is saved when a thread is switched out runs, like that of an
/// ordinary sample, from the outermost frame to the innermost one. Without
/// kernel frames it is the very stack that an ordinary sample gets; the kernel
/// frames of others are left out. No sample is put down, and no time counted.
pub proof fn law_saved_stack_is_that_of_a_sample(
    state: ConverterView,
    e: SampleRecord,
    turned: Seq<StackFrame>,
)
    requires
        e.pid is Some,
        e.tid is Some,
        knows_thread(state.recording, e.pid->0, e.tid->0),
        is_turned_around(turned, e.stack.stack(state.settings.fold_recursive_prefix)),
    ensures
        ({
            let thread = thread_in(state.recording, e.pid->0, e.tid->0);
            let after = state.after_sched_switch(e);
            let switched = thread_in(after.recording, e.pid->0, e.tid->0);
            &&& switched.off_cpu_stack == Some(user_only(turned))
            &&& all_in_user_space(turned) ==> switched.off_cpu_stack == Some(turned)
            &&& all_in_user_space(turned) && is_new_sample(state, e) ==> match state.after_sample(
                e,
            ).recording.entries.last() {
                EntryView::AddSample { stack, .. } => switched.off_cpu_stack == Some(stack),
                _ => false,
            }
            &&& switched.context_switch_data == thread.context_switch_data
            &&& switched.last_sample_timestamp == thread.last_sample_timestamp
            &&& differ_in_thread(state.recording, after.recording, e.pid->0, e.tid->0)
            &&& after.recording.entries == state.recording.entries.push(
                EntryView::CheckJitdump { process: state.recording.processes[e.pid->0].handle },
            )
            &&& after.current_sample_time == state.current_sample_time
        }),
{
    let a = state.recording;
    let b = state.after_sched_switch(e).recording;
    let stack = e.stack.stack(state.settings.fold_recursive_prefix);
    assert(stack.reverse() =~= turned);
    if all_in_user_space(turned) {
        law_user_stack_is_kept(turned);
    }
    assert(b.processes.dom() =~= a.processes.dom());
    assert(b.processes[e.pid->0].threads.dom() =~= a.processes[e.pid->0].threads.dom());
}

/// From the scheduler's event to the end of the pause: a thread that is
/// switched out at a stack, and runs again after some intervals, gets samples
/// of the pause with that stack, less its kernel frames.
pub proof fn law_pause_has_the_stack_of_the_switch(
    state: ConverterView,
    e: SampleRecord,
    common: CommonData,
    turned: Seq<StackFrame>,
    paused: u64,
    entry: int,
)
    requires
        state.settings.wf(),
        e.pid is Some,
        e.tid is Some,
        common.pid == e.pid,
        common.tid == e.tid,
        common.timestamp is Some,
        knows_thread(state.recording, e.pid->0, e.tid->0),
        is_turned_around(turned, e.stack.stack(state.settings.fold_recursive_prefix)),
        is_paused(thread_in(state.recording, e.pid->0, e.tid->0), common.timestamp->0, paused),
        0 < state.settings.context_switch_handler.off_cpu_sampling_interval_ns <= paused,
    ensures
        ({
            let switched = state.after_sched_switch(e);
            let n = switched.recording.entries.len() as int;
            let after = switched.after_context_switch(
                ContextSwitchRecord::In,
                common,
            ).recording.entries;
            &&& after.len() > n
            &&& n <= entry < after.len() ==> match after[entry] {
                EntryView::AddSample { stack, .. } => stack == user_only(turned),
                _ => false,
            }
        }),
{
    law_saved_stack_is_that_of_a_sample(state, e, turned);
    let switched = state.after_sched_switch(e);
    let thread = thread_in(switched.recording, e.pid->0, e.tid->0);
    lemma_pause(switched, thread, common.timestamp->0, paused);
    let n = switched.recording.entries.len() as int;
    let after = switched.after_context_switch(ContextSwitchRecord::In, common).recording.entries;
    assert(after.skip(n) =~= thread.pause_entries(switched.settings, common.timestamp->0));
    let interval = state.settings.context_switch_handler.off_cpu_sampling_interval_ns;
    assert(paused as int / (interval as int) >= 1) by (nonlinear_arith)
        requires
            0 < interval <= paused,
    ;
    if n <= entry < after.len() {
        assert(after[entry] == after.skip(n)[entry - n]);
    }
}

/// An event that is not the sampled one is marked on its thread, or on the main
/// thread where the record names no thread, with its time, its stack and its
/// number, and changes nothing else.
pub proof fn law_other_event_is_marked(
    state: ConverterView,
    e: SampleRecord,
    attr: usize,
)
    requires
        e.pid is Some,
        e.timestamp is Some,
        e.tid is Some ==> knows_thread(state.recording, e.pid->0, e.tid->0),
        state.recording.processes.dom().contains(e.pid->0),
    ensures
        ({
            let process = state.recording.processes[e.pid->0];
            let before = state.recording.entries;
            let after = state.after_other_event_sample(e, attr);
            &&& after.recording.processes == state.recording.processes
            &&& after.current_sample_time == state.current_sample_time
            &&& after.recording.entries.len() == before.len() + 2
            &&& after.recording.entries.take(before.len() as int) == before
            &&& after.recording.entries[before.len() as int] == (EntryView::CheckJitdump {
                process: process.handle,
            })
            &&& match after.recording.entries.last() {
                EntryView::AddOtherEventMarker { thread, time, stack, attr_index } => {
                    &&& e.tid is None ==> thread == process.main_thread.handle
                    &&& e.tid is Some ==> thread == thread_in(
                        state.recording,
                        e.pid->0,
                        e.tid->0,
                    ).handle
                    &&& time == e.timestamp->0
                    &&& attr_index == attr
                    &&& is_turned_around(
                        stack,
                        e.stack.stack(state.settings.fold_recursive_prefix),
                    )
                },
                _ => false,
            }
        }),
{
    let before = state.recording.entries;
    assert(state.after_other_event_sample(e, attr).recording.entries.take(before.len() as int)
        =~= before);
}

/// The kernel's numbers for the kinds of memory.
pub proof fn law_kinds_of_memory_are_numbered(stat: RssStat)
    ensures
        stat.kind() == Some(RssStatMember::ResidentFileMappingPages) <==> stat.member == 0,
        stat.kind() == Some(RssStatMember::ResidentAnonymousPages) <==> stat.member == 1,
        stat.kind() == Some(RssStatMember::AnonymousSwapEntries) <==> stat.member == 2,
        stat.kind() == Some(RssStatMember::ResidentSharedMemoryPages) <==> stat.member == 3,
        stat.kind() is None <==> stat.member < 0 || stat.member > 3,
{
}

/// The sizes of all four kinds of memory of a process, by their numbers.
pub open spec fn memory_sizes(process: ProcessView) -> Seq<i64> {
    seq![
        process.rss.file_pages,
        process.rss.anon_pages,
        process.rss.swap_entries,
        process.rss.shmem_pages,
    ]
}

/// By how much the memory of a process changes is the difference of the new
/// size to the one before, which is zero where nothing is known of the process.
pub proof fn law_memory_changes_by_the_difference(
    recording: RecordingView,
    pid: i32,
    member: RssStatMember,
    size: i64,
)
    ensures
        !recording.processes.dom().contains(pid) ==> recording.rss_delta(pid, member, size) == size,
        recording.processes.dom().contains(pid) ==> recording.rss_delta(pid, member, size) == size
            - memory_sizes(recording.processes[pid])[match member {
            RssStatMember::ResidentFileMappingPages => 0int,
            RssStatMember::ResidentAnonymousPages => 1,
            RssStatMember::AnonymousSwapEntries => 2,
            RssStatMember::ResidentSharedMemoryPages => 3,
        }],
{
}

/// A change of a process's memory is marked on its main thread, with the new
/// size and by how much it differs from the one before; a change of anonymous
/// memory also counts for the process's memory counter, ahead of the marker.
/// The new size of this kind of memory is the one that is then known of the
/// process, all else stays as it was.
pub proof fn law_memory_change_is_marked(state: ConverterView, e: SampleRecord, stat: RssStat)
    requires
        e.pid is Some,
        e.timestamp is Some,
        0 <= stat.member <= 3,
        state.recording.processes.dom().contains(e.pid->0),
        i64::MIN <= stat.size - memory_sizes(
            state.recording.processes[e.pid->0],
        )[stat.member as int] <= i64::MAX,
    ensures
        ({
            let process = state.recording.processes[e.pid->0];
            let size_before = memory_sizes(process)[stat.member as int];
            let n = state.recording.entries.len() as int;
            let after = state.after_rss_stat(e, Some(stat));
            let entries = after.recording.entries;
            let now = after.recording.processes[e.pid->0];
            &&& entries.take(n) == state.recording.entries
            &&& match entries.last() {
                EntryView::AddRssStatMarker { thread, time, stack, member, size, delta } => {
                    &&& thread == process.main_thread.handle
                    &&& time == e.timestamp->0
                    &&& Some(member) == stat.kind()
                    &&& size == stat.size
                    &&& delta == stat.size - size_before
                    &&& is_turned_around(
                        stack,
                        e.stack.stack(state.settings.fold_recursive_prefix),
                    )
                },
                _ => false,
            }
            &&& entries[entries.len() - 2] == (EntryView::CheckJitdump { process: process.handle })
            &&& stat.member != 1 ==> entries.len() == n + 2
            &&& stat.member == 1 ==> entries.len() == n + 3 && entries[n] == (
            EntryView::AddMemoryCounterSample {
                process: process.handle,
                time: e.timestamp->0,
                delta: (stat.size - size_before) as i64,
            })
            &&& memory_sizes(now) == memory_sizes(process).update(stat.member as int, stat.size)
            &&& now.handle == process.handle && now.name == process.name
            &&& now.main_thread == process.main_thread && now.threads == process.threads
            &&& now.ended_threads == process.ended_threads
            &&& after.recording.processes.remove(e.pid->0) == state.recording.processes.remove(
                e.pid->0,
            )
            &&& after.current_sample_time == state.current_sample_time
        }),
{
    let process = state.recording.processes[e.pid->0];
    let n = state.recording.entries.len() as int;
    let after = state.after_rss_stat(e, Some(stat)).recording;
    assert(after.entries.take(n) =~= state.recording.entries);
    assert(memory_sizes(after.processes[e.pid->0]) =~= memory_sizes(process).update(
        stat.member as int,
        stat.size,
    ));
    assert(after.processes.remove(e.pid->0) =~= state.recording.processes.remove(e.pid->0));
}

/// A change of memory that cannot be read, has no time or is of an unknown kind
/// changes nothing of a live process.
pub proof fn law_unreadable_memory_change_is_left_out(
    state: ConverterView,
    e: SampleRecord,
    rss_stat: Option<RssStat>,
)
    requires
        e.pid is Some,
        state.recording.processes.dom().contains(e.pid->0),
        rss_stat is None || e.timestamp is None || rss_stat->0.member < 0 || rss_stat->0.member > 3,
    ensures
        state.after_rss_stat(e, rss_stat) == state,
{
}

} // verus!
