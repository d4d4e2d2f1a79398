//! What starts, ends and names of processes and threads do to a recording, in
//! terms of the records and of what is known of the processes.

use crate::context_switch::ThreadState;
use crate::converter::{ConverterView, SampleRecord};
use crate::laws::{lemma_first_process_named, lemma_first_thread_named};
use crate::processes::{
    EndedProcessView, EndedThreadView, ProcessView, RecordingView, ThreadView,
};
use crate::profile::EntryView;
use crate::sample_laws::{is_turned_around, knows_thread, thread_in};
use crate::samples::{CommonData, ContextSwitchRecord, RssStat};
use crate::stack::{user_only, StackFrame};
use crate::threads::ForkOrExitRecord;
use vstd::prelude::*;

verus! {

/// Whether nothing was seen of a thread yet but its name.
pub open spec fn is_untouched_thread(
    thread: ThreadView,
    handle: nat,
    name: Option<Seq<char>>,
) -> bool {
    &&& thread.handle == handle
    &&& thread.name == name
    &&& thread.last_sample_timestamp is None
    &&& thread.off_cpu_stack is None
    &&& thread.context_switch_data.state is Unknown
    &&& thread.context_switch_data.on_cpu_ns == 0
    &&& thread.context_switch_data.off_cpu_ns == 0
}

/// Whether nothing was seen of a process yet but its name and its main thread.
pub open spec fn is_untouched_process(
    process: ProcessView,
    handle: nat,
    name: Option<Seq<char>>,
    main_thread: nat,
    main_thread_name: Option<Seq<char>>,
) -> bool {
    &&& process.handle == handle
    &&& process.name == name
    &&& is_untouched_thread(process.main_thread, main_thread, main_thread_name)
    &&& process.threads == Map::<i32, ThreadView>::empty()
    &&& process.ended_threads.len() == 0
    &&& process.rss.file_pages == 0
    &&& process.rss.anon_pages == 0
    &&& process.rss.shmem_pages == 0
    &&& process.rss.swap_entries == 0
}

/// Whether two recordings differ in nothing but a process and the entries.
pub open spec fn differ_in_process(a: RecordingView, b: RecordingView, pid: i32) -> bool {
    &&& b.merge_threads == a.merge_threads
    &&& b.processes.remove(pid) == a.processes.remove(pid)
}

/// Whether two processes differ in nothing but a thread and the ended threads.
pub open spec fn differ_in_threads(a: ProcessView, b: ProcessView, tid: i32) -> bool {
    &&& b.handle == a.handle && b.name == a.name && b.rss == a.rss
    &&& b.main_thread == a.main_thread
    &&& b.threads.remove(tid) == a.threads.remove(tid)
}

/// An entry, or none.
pub open spec fn maybe(there: bool, entry: EntryView) -> Seq<EntryView> {
    if there {
        seq![entry]
    } else {
        Seq::empty()
    }
}

/// The entry for a thread's name, or none where it has no name.
pub open spec fn naming(thread: nat, name: Option<Seq<char>>) -> Seq<EntryView> {
    match name {
        Some(name) => seq![EntryView::SetThreadName { thread, name }],
        None => Seq::empty(),
    }
}

/// Whether an ended process is the first one with a name.
pub open spec fn is_first_process(
    ended: Seq<EndedProcessView>,
    name: Seq<char>,
    at: int,
) -> bool {
    &&& 0 <= at < ended.len() && ended[at].name == name
    &&& forall|i: int| 0 <= i < at ==> (#[trigger] ended[i]).name != name
}

/// Whether no ended process has a name.
pub open spec fn no_process_named(ended: Seq<EndedProcessView>, name: Seq<char>) -> bool {
    forall|i: int| 0 <= i < ended.len() ==> (#[trigger] ended[i]).name != name
}

/// Whether an ended thread is the first one with a name.
pub open spec fn is_first_thread(ended: Seq<EndedThreadView>, name: Seq<char>, at: int) -> bool {
    &&& 0 <= at < ended.len() && ended[at].name == name
    &&& forall|i: int| 0 <= i < at ==> (#[trigger] ended[i]).name != name
}

/// Whether no ended thread has a name.
pub open spec fn no_thread_named(ended: Seq<EndedThreadView>, name: Seq<char>) -> bool {
    forall|i: int| 0 <= i < ended.len() ==> (#[trigger] ended[i]).name != name
}

/// A recording starts without processes and entries, and with the choice
/// whether threads are merged.
pub proof fn law_recording_starts_empty(merge_threads: bool)
    ensures
        ({
            let empty = RecordingView::empty(merge_threads);
            &&& empty.merge_threads == merge_threads
            &&& empty.processes == Map::<i32, ProcessView>::empty()
            &&& empty.ended_processes.len() == 0
            &&& empty.entries.len() == 0
        }),
{
}

/// A process that is looked up is added with its main thread if it is not
/// there, and then nothing is known of it; one that is there stays as it is.
pub proof fn law_unknown_process_is_added(recording: RecordingView, pid: i32)
    ensures
        recording.processes.dom().contains(pid) ==> recording.with_live_process(pid) == recording,
        !recording.processes.dom().contains(pid) ==> {
            let added = recording.with_live_process(pid);
            let n = recording.entries.len();
            &&& added.entries == recording.entries + seq![
                EntryView::AddProcess { pid },
                EntryView::AddThread { process: n, tid: pid, is_main: true },
            ]
            &&& added.processes.dom() == recording.processes.dom().insert(pid)
            &&& is_untouched_process(added.processes[pid], n, None, n + 1, None)
            &&& differ_in_process(recording, added, pid)
            &&& added.ended_processes == recording.ended_processes
        },
{
    let added = recording.with_live_process(pid);
    if !recording.processes.dom().contains(pid) {
        let n = recording.entries.len();
        assert(added.entries =~= recording.entries + seq![
            EntryView::AddProcess { pid },
            EntryView::AddThread { process: n, tid: pid, is_main: true },
        ]);
        assert(added.processes.dom() =~= recording.processes.dom().insert(pid));
        assert(added.processes.remove(pid) =~= recording.processes.remove(pid));
    }
}

/// A thread of a process that is looked up is added if it is not there, and
/// then nothing is known of it; one that is there stays as it is.
pub proof fn law_unknown_thread_is_added(recording: RecordingView, pid: i32, tid: i32)
    requires
        recording.processes.dom().contains(pid),
    ensures
        knows_thread(recording, pid, tid) ==> recording.with_live_thread(pid, tid) == recording,
        !knows_thread(recording, pid, tid) ==> {
            let added = recording.with_live_thread(pid, tid);
            let n = recording.entries.len();
            &&& added.entries == recording.entries.push(
                EntryView::AddThread {
                    process: recording.processes[pid].handle,
                    tid,
                    is_main: false,
                },
            )
            &&& added.processes.dom() == recording.processes.dom()
            &&& added.processes[pid].threads.dom() == recording.processes[pid].threads.dom().insert(
                tid,
            )
            &&& is_untouched_thread(added.processes[pid].threads[tid], n, None)
            &&& differ_in_threads(recording.processes[pid], added.processes[pid], tid)
            &&& added.processes[pid].ended_threads == recording.processes[pid].ended_threads
            &&& differ_in_process(recording, added, pid)
            &&& added.ended_processes == recording.ended_processes
        },
{
    let added = recording.with_live_thread(pid, tid);
    if !knows_thread(recording, pid, tid) {
        assert(added.processes.dom() =~= recording.processes.dom());
        assert(added.processes[pid].threads.dom() =~= recording.processes[pid].threads.dom().insert(
            tid,
        ));
        assert(added.processes.remove(pid) =~= recording.processes.remove(pid));
        assert(added.processes[pid].threads.remove(tid)
            =~= recording.processes[pid].threads.remove(tid));
    }
}

/// A record of a process that is not there is handled like one of the process
/// right after it was added.
pub proof fn law_records_add_their_process(
    state: ConverterView,
    e: SampleRecord,
    common: CommonData,
    rss_stat: Option<RssStat>,
    attr: usize,
    name: Seq<char>,
    fork: ForkOrExitRecord,
)
    requires
        e.pid is Some,
        common.pid == e.pid,
        fork.ppid == e.pid->0,
    ensures
        ({
            let added = ConverterView {
                recording: state.recording.with_live_process(e.pid->0),
                ..state
            };
            &&& state.after_sample(e) == added.after_sample(e)
            &&& state.after_sched_switch(e) == added.after_sched_switch(e)
            &&& state.after_other_event_sample(e, attr) == added.after_other_event_sample(e, attr)
            &&& state.after_rss_stat(e, rss_stat) == added.after_rss_stat(e, rss_stat)
            &&& forall|switch: ContextSwitchRecord| #[trigger]
                state.after_context_switch(switch, common) == added.after_context_switch(
                    switch,
                    common,
                )
            &&& forall|tid: i32, creation: bool| #[trigger]
                state.with_name_set(e.pid->0, tid, name, creation) == added.with_name_set(
                    e.pid->0,
                    tid,
                    name,
                    creation,
                )
            &&& state.after_thread_start(fork) == added.after_thread_start(fork)
            &&& fork.pid == e.pid->0 && fork.tid != fork.pid ==> state.after_thread_end(fork)
                == added.after_thread_end(fork)
            &&& forall|tid: i32, is_execve: bool, timestamp: Option<u64>|
                tid != e.pid->0 ==> #[trigger] state.after_thread_name_update(
                    e.pid->0,
                    tid,
                    name,
                    is_execve,
                    timestamp,
                ) == added.after_thread_name_update(e.pid->0, tid, name, is_execve, timestamp)
            &&& forall|timestamp: Option<u64>| #[trigger]
                state.after_thread_name_update(e.pid->0, e.pid->0, name, false, timestamp)
                    == added.after_thread_name_update(e.pid->0, e.pid->0, name, false, timestamp)
        }),
{
}

/// A fork by a thread that is not there, and a new name or a context switch of
/// one, is handled like one of the thread right after it was added.
pub proof fn law_forks_and_names_add_their_thread(
    state: ConverterView,
    fork: ForkOrExitRecord,
    common: CommonData,
    name: Seq<char>,
)
    requires
        state.recording.processes.dom().contains(fork.ppid),
        common.pid == Some(fork.ppid),
        common.tid == Some(fork.ptid),
    ensures
        ({
            let added = ConverterView {
                recording: state.recording.with_live_thread(fork.ppid, fork.ptid),
                ..state
            };
            &&& state.after_thread_start(fork) == added.after_thread_start(fork)
            &&& forall|creation: bool| #[trigger]
                state.with_name_set(fork.ppid, fork.ptid, name, creation) == added.with_name_set(
                    fork.ppid,
                    fork.ptid,
                    name,
                    creation,
                )
            &&& !state.recording.merge_threads ==> forall|timestamp: Option<u64>| #[trigger]
                state.after_thread_name_update(fork.ppid, fork.ptid, name, false, timestamp)
                    == added.after_thread_name_update(
                    fork.ppid,
                    fork.ptid,
                    name,
                    false,
                    timestamp,
                )
            &&& forall|switch: ContextSwitchRecord| #[trigger]
                state.after_context_switch(switch, common) == added.after_context_switch(
                    switch,
                    common,
                )
        }),
{
}

/// A record of a thread that its process does not have adds the thread, and
/// puts down for it what it puts down.
pub proof fn law_records_add_their_thread(
    state: ConverterView,
    e: SampleRecord,
    common: CommonData,
    attr: usize,
    turned: Seq<StackFrame>,
)
    requires
        e.pid is Some,
        e.tid is Some,
        e.timestamp is Some,
        common.pid == e.pid,
        common.tid == e.tid,
        common.timestamp == e.timestamp,
        state.recording.processes.dom().contains(e.pid->0),
        !knows_thread(state.recording, e.pid->0, e.tid->0),
    ensures
        ({
            let pid = e.pid->0;
            let tid = e.tid->0;
            let process = state.recording.processes[pid].handle;
            let before = state.recording.entries;
            let n = before.len();
            let check = EntryView::CheckJitdump { process };
            let add = EntryView::AddThread { process, tid, is_main: false };
            let sampled = state.after_sample(e).recording;
            let saved = state.after_sched_switch(e).recording;
            let marked = state.after_other_event_sample(e, attr).recording;
            let switched_in = state.after_context_switch(ContextSwitchRecord::In, common).recording;
            let switched_out = state.after_context_switch(
                ContextSwitchRecord::Out,
                common,
            ).recording;
            &&& sampled.entries.take(n as int + 2) == before + seq![check, add]
            &&& sampled.entries.len() == n + 3
            &&& match sampled.entries.last() {
                EntryView::AddSample { thread, time, mono_time, stack, cpu_delta_ns, weight } => {
                    &&& thread == n + 1 && time == e.timestamp->0 && weight == 1
                    &&& mono_time == e.timestamp->0
                    &&& is_turned_around(
                        stack,
                        e.stack.stack(state.settings.fold_recursive_prefix),
                    )
                    &&& state.settings.have_context_switches || e.period is None ==> cpu_delta_ns
                        == 0
                    &&& !state.settings.have_context_switches && e.period is Some ==> cpu_delta_ns
                        == e.period->0
                },
                _ => false,
            }
            &&& thread_in(sampled, pid, tid).handle == n + 1
            &&& thread_in(sampled, pid, tid).last_sample_timestamp == e.timestamp
            &&& thread_in(sampled, pid, tid).context_switch_data.state == (ThreadState::On {
                last_seen: e.timestamp->0,
            })
            &&& state.after_sample(e).current_sample_time == e.timestamp->0
            &&& saved.entries == before + seq![check, add]
            &&& thread_in(saved, pid, tid).handle == n + 1
            &&& thread_in(saved, pid, tid).off_cpu_stack is Some
            &&& is_turned_around(turned, e.stack.stack(state.settings.fold_recursive_prefix))
                ==> thread_in(saved, pid, tid).off_cpu_stack == Some(user_only(turned))
            &&& marked.entries.take(n as int + 2) == before + seq![check, add]
            &&& marked.entries.len() == n + 3
            &&& match marked.entries.last() {
                EntryView::AddOtherEventMarker { thread, time, stack, attr_index } => {
                    &&& thread == n + 1 && time == e.timestamp->0 && attr_index == attr
                    &&& is_turned_around(
                        stack,
                        e.stack.stack(state.settings.fold_recursive_prefix),
                    )
                },
                _ => false,
            }
            &&& switched_in.entries == before + seq![add]
            &&& thread_in(switched_in, pid, tid).handle == n
            &&& thread_in(switched_in, pid, tid).context_switch_data.state == (ThreadState::On {
                last_seen: e.timestamp->0,
            })
            &&& switched_out.entries == before + seq![add]
            &&& thread_in(switched_out, pid, tid).handle == n
            &&& thread_in(switched_out, pid, tid).context_switch_data.state == (ThreadState::Off {
                since: e.timestamp->0,
            })
        }),
{
    let tid = e.tid->0;
    let process = state.recording.processes[e.pid->0].handle;
    let before = state.recording.entries;
    let n = before.len() as int;
    let stack = e.stack.stack(state.settings.fold_recursive_prefix);
    assert(is_turned_around(turned, stack) ==> stack.reverse() =~= turned);
    let check = EntryView::CheckJitdump { process };
    let add = EntryView::AddThread { process, tid, is_main: false };
    let sampled = state.after_sample(e).recording.entries;
    let saved = state.after_sched_switch(e).recording.entries;
    let marked = state.after_other_event_sample(e, attr).recording.entries;
    let switched_in = state.after_context_switch(ContextSwitchRecord::In, common).recording.entries;
    let switched_out = state.after_context_switch(
        ContextSwitchRecord::Out,
        common,
    ).recording.entries;
    assert(sampled.take(n + 2) =~= before + seq![check, add]);
    assert(saved =~= before + seq![check, add]);
    assert(marked.take(n + 2) =~= before + seq![check, add]);
    assert(switched_in =~= before + seq![add]);
    assert(switched_out =~= before + seq![add]);
}

/// The end of a main thread is the end of its process: the process is gone and
/// its end is put down. All other processes go on. Where threads are merged, a
/// process with a name is kept as the last one to be taken up again.
pub proof fn law_end_of_a_process(state: ConverterView, e: ForkOrExitRecord)
    requires
        e.tid == e.pid,
    ensures
        !state.recording.processes.dom().contains(e.pid) ==> state.after_thread_end(e) == state,
        state.recording.processes.dom().contains(e.pid) ==> {
            let process = state.recording.processes[e.pid];
            let after = state.after_thread_end(e).recording;
            &&& after.processes == state.recording.processes.remove(e.pid)
            &&& after.entries == state.recording.entries.push(
                EntryView::EndProcess { process: process.handle, time: e.timestamp },
            )
            &&& state.recording.merge_threads && process.name is Some ==> after.ended_processes
                == state.recording.ended_processes.push(
                EndedProcessView {
                    handle: process.handle,
                    main_thread: process.main_thread.handle,
                    name: process.name->0,
                },
            )
            &&& !(state.recording.merge_threads && process.name is Some) ==> after.ended_processes
                == state.recording.ended_processes
        },
        state.after_thread_end(e).current_sample_time == state.current_sample_time,
{
}

/// The end of another thread of a live process: the thread is gone and its end
/// is put down. The process and all of its other threads go on. Where threads
/// are merged, a thread with a name is kept as the last one to be taken up
/// again.
pub proof fn law_end_of_a_thread(state: ConverterView, e: ForkOrExitRecord)
    requires
        e.tid != e.pid,
        state.recording.processes.dom().contains(e.pid),
    ensures
        !knows_thread(state.recording, e.pid, e.tid) ==> state.after_thread_end(e) == state,
        knows_thread(state.recording, e.pid, e.tid) ==> {
            let process = state.recording.processes[e.pid];
            let thread = process.threads[e.tid];
            let after = state.after_thread_end(e).recording;
            let now = after.processes[e.pid];
            &&& after.entries == state.recording.entries.push(
                EntryView::EndThread { thread: thread.handle, time: e.timestamp },
            )
            &&& after.processes.dom().contains(e.pid)
            &&& differ_in_process(state.recording, after, e.pid)
            &&& after.ended_processes == state.recording.ended_processes
            &&& now.threads == process.threads.remove(e.tid)
            &&& differ_in_threads(process, now, e.tid)
            &&& state.recording.merge_threads && thread.name is Some ==> now.ended_threads
                == process.ended_threads.push(
                EndedThreadView { handle: thread.handle, name: thread.name->0 },
            )
            &&& !(state.recording.merge_threads && thread.name is Some) ==> now.ended_threads
                == process.ended_threads
        },
{
    let after = state.after_thread_end(e).recording;
    assert(after.processes.remove(e.pid) =~= state.recording.processes.remove(e.pid));
    let process = state.recording.processes[e.pid];
    assert(process.threads.remove(e.tid).remove(e.tid) =~= process.threads.remove(e.tid));
}

/// A process takes up the first one to end of its name, with the handles of
/// that one and nothing else of it, and no other one of the name. Without one
/// nothing is taken up.
pub proof fn law_first_ended_process_is_taken_up(
    recording: RecordingView,
    pid: i32,
    name: Seq<char>,
    at: int,
)
    ensures
        no_process_named(recording.ended_processes, name) ==> !recording.can_reuse_process(name)
            && recording.with_reused_process(pid, name) == recording,
        is_first_process(recording.ended_processes, name, at) ==> {
            let ended = recording.ended_processes[at];
            let after = recording.with_reused_process(pid, name);
            &&& recording.can_reuse_process(name)
            &&& after.entries == recording.entries
            &&& after.ended_processes == recording.ended_processes.remove(at)
            &&& after.processes.dom().contains(pid)
            &&& is_untouched_process(
                after.processes[pid],
                ended.handle,
                Some(name),
                ended.main_thread,
                None,
            )
            &&& differ_in_process(recording, after, pid)
        },
{
    lemma_first_process_named(recording.ended_processes, name);
    let after = recording.with_reused_process(pid, name);
    assert(after.processes.remove(pid) =~= recording.processes.remove(pid));
    if is_first_process(recording.ended_processes, name, at) {
        lemma_first_process(recording.ended_processes, name, at);
    }
}

proof fn lemma_first_process(ended: Seq<EndedProcessView>, name: Seq<char>, at: int)
    requires
        is_first_process(ended, name, at),
    ensures
        crate::processes::first_process_named(ended, name) == at,
{
    lemma_first_process_named(ended, name);
    let found = crate::processes::first_process_named(ended, name);
    if found < at {
        assert(ended[found].name != name);
    }
    if found > at {
        assert(ended[at].name != name);
    }
}

proof fn lemma_first_thread(ended: Seq<EndedThreadView>, name: Seq<char>, at: int)
    requires
        is_first_thread(ended, name, at),
    ensures
        crate::processes::first_thread_named(ended, name) == at,
{
    lemma_first_thread_named(ended, name);
    let found = crate::processes::first_thread_named(ended, name);
    if found < at {
        assert(ended[found].name != name);
    }
    if found > at {
        assert(ended[at].name != name);
    }
}

/// A thread other than the main thread takes up the first one of its process to
/// end of its name, with the handle of that one and nothing else of it. Without
/// one nothing is taken up, and never by a main thread.
pub proof fn law_first_ended_thread_is_taken_up(
    recording: RecordingView,
    pid: i32,
    tid: i32,
    name: Seq<char>,
    at: int,
)
    requires
        recording.processes.dom().contains(pid),
    ensures
        tid == pid || no_thread_named(recording.processes[pid].ended_threads, name)
            ==> !recording.can_reuse_thread(pid, tid, name) && recording.with_reused_thread(
            pid,
            tid,
            name,
        ) == recording,
        tid != pid && is_first_thread(recording.processes[pid].ended_threads, name, at) ==> {
            let process = recording.processes[pid];
            let after = recording.with_reused_thread(pid, tid, name);
            let now = after.processes[pid];
            &&& recording.can_reuse_thread(pid, tid, name)
            &&& after.entries == recording.entries
            &&& after.ended_processes == recording.ended_processes
            &&& now.ended_threads == process.ended_threads.remove(at)
            &&& now.threads.dom().contains(tid)
            &&& is_untouched_thread(
                now.threads[tid],
                process.ended_threads[at].handle,
                Some(name),
            )
            &&& differ_in_threads(process, now, tid)
            &&& after.processes.dom() == recording.processes.dom()
            &&& differ_in_process(recording, after, pid)
        },
{
    let ended = recording.processes[pid].ended_threads;
    lemma_first_thread_named(ended, name);
    let after = recording.with_reused_thread(pid, tid, name);
    assert(after.processes.remove(pid) =~= recording.processes.remove(pid));
    assert(after.processes.dom() =~= recording.processes.dom());
    if is_first_thread(ended, name, at) {
        lemma_first_thread(ended, name, at);
    }
    assert(after.processes[pid].threads.remove(tid) =~= recording.processes[pid].threads.remove(
        tid,
    ));
}

/// A process that is forked off has the names of its parent. Where no ended
/// process has its name it is new: it is added if it is not there, and it and
/// its main thread start at the time of the record. The parent stays as it is.
pub proof fn law_forked_process_starts(state: ConverterView, e: ForkOrExitRecord)
    requires
        e.pid != e.ppid,
        knows_thread(state.recording, e.ppid, e.ptid),
        state.recording.processes[e.ppid].name is Some ==> no_process_named(
            state.recording.ended_processes,
            state.recording.processes[e.ppid].name->0,
        ),
    ensures
        ({
            let before = state.recording;
            let n = before.entries.len();
            let is_there = before.processes.dom().contains(e.pid);
            let thread_name = thread_in(before, e.ppid, e.ptid).name;
            let after = state.after_thread_start(e).recording;
            let process = if is_there {
                before.processes[e.pid].handle
            } else {
                n
            };
            let thread = if is_there {
                before.processes[e.pid].main_thread.handle
            } else {
                n + 1
            };
            &&& after.entries == before.entries + maybe(
                !is_there,
                EntryView::AddProcess { pid: e.pid },
            ) + maybe(
                !is_there,
                EntryView::AddThread { process, tid: e.pid, is_main: true },
            ) + naming(thread, thread_name) + seq![
                EntryView::SetProcessStart { process, time: e.timestamp },
                EntryView::SetThreadStart { thread, time: e.timestamp },
            ]
            &&& after.processes.dom() == before.processes.dom().insert(e.pid)
            &&& after.processes[e.pid].handle == process
            &&& after.processes[e.pid].main_thread.handle == thread
            &&& after.processes[e.pid].name == before.processes[e.ppid].name
            &&& after.processes[e.pid].main_thread.name == thread_name
            &&& differ_in_process(before, after, e.pid)
            &&& after.ended_processes == before.ended_processes
        }),
{
    let before = state.recording;
    let after = state.after_thread_start(e).recording;
    if let Some(name) = before.processes[e.ppid].name {
        law_first_ended_process_is_taken_up(before, e.pid, name, 0);
    }
    let n = before.entries.len();
    let is_there = before.processes.dom().contains(e.pid);
    let thread_name = thread_in(before, e.ppid, e.ptid).name;
    let process = if is_there {
        before.processes[e.pid].handle
    } else {
        n
    };
    let thread = if is_there {
        before.processes[e.pid].main_thread.handle
    } else {
        n + 1
    };
    assert(after.entries =~= before.entries + maybe(
        !is_there,
        EntryView::AddProcess { pid: e.pid },
    ) + maybe(
        !is_there,
        EntryView::AddThread { process, tid: e.pid, is_main: true },
    ) + naming(thread, thread_name) + seq![
        EntryView::SetProcessStart { process, time: e.timestamp },
        EntryView::SetThreadStart { thread, time: e.timestamp },
    ]);
    assert(after.processes.dom() =~= before.processes.dom().insert(e.pid));
    assert(after.processes.remove(e.pid) =~= before.processes.remove(e.pid));
}

/// A process that is forked off under the name of an ended one takes up the
/// first of them: it has the handles of that one, and it does not start anew.
pub proof fn law_forked_process_takes_up_an_ended_one(
    state: ConverterView,
    e: ForkOrExitRecord,
    at: int,
)
    requires
        e.pid != e.ppid,
        knows_thread(state.recording, e.ppid, e.ptid),
        state.recording.processes[e.ppid].name is Some,
        is_first_process(
            state.recording.ended_processes,
            state.recording.processes[e.ppid].name->0,
            at,
        ),
    ensures
        ({
            let before = state.recording;
            let ended = before.ended_processes[at];
            let thread_name = thread_in(before, e.ppid, e.ptid).name;
            let after = state.after_thread_start(e).recording;
            &&& after.entries == before.entries + naming(ended.main_thread, thread_name)
            &&& after.processes.dom().contains(e.pid)
            &&& is_untouched_process(
                after.processes[e.pid],
                ended.handle,
                before.processes[e.ppid].name,
                ended.main_thread,
                thread_name,
            )
            &&& after.ended_processes == before.ended_processes.remove(at)
            &&& differ_in_process(before, after, e.pid)
        }),
{
    let before = state.recording;
    let name = before.processes[e.ppid].name->0;
    law_first_ended_process_is_taken_up(before, e.pid, name, at);
    let ended = before.ended_processes[at];
    let after = state.after_thread_start(e).recording;
    assert(after.entries =~= before.entries + naming(
        ended.main_thread,
        thread_in(before, e.ppid, e.ptid).name,
    ));
    assert(after.processes.remove(e.pid) =~= before.processes.remove(e.pid));
}

/// A thread that is forked off has the name of the thread that forked it. Where
/// no ended thread of the process has its name it is new: it is added if it is
/// not there, and it starts at the time of the record.
pub proof fn law_forked_thread_starts(state: ConverterView, e: ForkOrExitRecord)
    requires
        e.pid == e.ppid,
        knows_thread(state.recording, e.pid, e.ptid),
        e.tid != e.pid && thread_in(state.recording, e.pid, e.ptid).name is Some
            ==> no_thread_named(
            state.recording.processes[e.pid].ended_threads,
            thread_in(state.recording, e.pid, e.ptid).name->0,
        ),
    ensures
        ({
            let before = state.recording;
            let name = thread_in(before, e.pid, e.ptid).name;
            let is_there = knows_thread(before, e.pid, e.tid);
            let after = state.after_thread_start(e).recording;
            let thread = if is_there {
                thread_in(before, e.pid, e.tid).handle
            } else {
                before.entries.len()
            };
            &&& after.entries == before.entries + maybe(
                !is_there,
                EntryView::AddThread {
                    process: before.processes[e.pid].handle,
                    tid: e.tid,
                    is_main: false,
                },
            ) + naming(thread, name) + seq![
                EntryView::SetThreadStart { thread, time: e.timestamp },
            ]
            &&& knows_thread(after, e.pid, e.tid)
            &&& thread_in(after, e.pid, e.tid).handle == thread
            &&& thread_in(after, e.pid, e.tid).name == name
            &&& !is_there ==> is_untouched_thread(thread_in(after, e.pid, e.tid), thread, name)
            &&& e.tid != e.pid ==> differ_in_threads(
                before.processes[e.pid],
                after.processes[e.pid],
                e.tid,
            )
            &&& after.processes[e.pid].name == before.processes[e.pid].name
            &&& differ_in_process(before, after, e.pid)
        }),
{
    let before = state.recording;
    let after = state.after_thread_start(e).recording;
    let name = thread_in(before, e.pid, e.ptid).name;
    if let Some(name) = name {
        law_first_ended_thread_is_taken_up(before, e.pid, e.tid, name, 0);
    }
    let is_there = knows_thread(before, e.pid, e.tid);
    let thread = if is_there {
        thread_in(before, e.pid, e.tid).handle
    } else {
        before.entries.len()
    };
    assert(after.entries =~= before.entries + maybe(
        !is_there,
        EntryView::AddThread {
            process: before.processes[e.pid].handle,
            tid: e.tid,
            is_main: false,
        },
    ) + naming(thread, name) + seq![EntryView::SetThreadStart { thread, time: e.timestamp }]);
    assert(after.processes.remove(e.pid) =~= before.processes.remove(e.pid));
    assert(after.processes[e.pid].threads.remove(e.tid)
        =~= before.processes[e.pid].threads.remove(e.tid));
}

/// A thread that is forked off under the name of an ended one of its process
/// takes up the first of them: it has the handle of that one, and nothing is
/// put down.
pub proof fn law_forked_thread_takes_up_an_ended_one(
    state: ConverterView,
    e: ForkOrExitRecord,
    at: int,
)
    requires
        e.pid == e.ppid,
        e.tid != e.pid,
        knows_thread(state.recording, e.pid, e.ptid),
        thread_in(state.recording, e.pid, e.ptid).name is Some,
        is_first_thread(
            state.recording.processes[e.pid].ended_threads,
            thread_in(state.recording, e.pid, e.ptid).name->0,
            at,
        ),
    ensures
        ({
            let before = state.recording;
            let process = before.processes[e.pid];
            let after = state.after_thread_start(e).recording;
            &&& after.entries == before.entries
            &&& is_untouched_thread(
                thread_in(after, e.pid, e.tid),
                process.ended_threads[at].handle,
                thread_in(before, e.pid, e.ptid).name,
            )
            &&& after.processes[e.pid].ended_threads == process.ended_threads.remove(at)
            &&& differ_in_threads(process, after.processes[e.pid], e.tid)
            &&& differ_in_process(before, after, e.pid)
        }),
{
    let before = state.recording;
    let name = thread_in(before, e.pid, e.ptid).name->0;
    law_first_ended_thread_is_taken_up(before, e.pid, e.tid, name, at);
    let after = state.after_thread_start(e).recording;
    assert(after.processes.remove(e.pid) =~= before.processes.remove(e.pid));
    assert(after.processes[e.pid].threads.remove(e.tid)
        =~= before.processes[e.pid].threads.remove(e.tid));
}

impl ConverterView {
    /// The entry by which a thread's name names the product, or none: it takes
    /// a product that is still to be named, and another name than that of the
    /// wrapper that `perf` starts the product with.
    pub open spec fn naming_of_product(self, name: Seq<char>) -> Seq<EntryView> {
        maybe(
            self.product_name_pending && name != "perf-exec"@,
            EntryView::SetProductFromThread { thread_name: name },
        )
    }
}

/// A thread that gets a name has it, and with the main thread the process has
/// it. Where the thread is being created it starts at the time of the last
/// sample, and with the main thread the process does.
pub proof fn law_name_is_put_down(
    state: ConverterView,
    pid: i32,
    tid: i32,
    name: Seq<char>,
    is_thread_creation: bool,
)
    requires
        knows_thread(state.recording, pid, tid),
    ensures
        ({
            let before = state.recording;
            let process = before.processes[pid].handle;
            let thread = thread_in(before, pid, tid).handle;
            let time = state.current_sample_time;
            let after = state.with_name_set(pid, tid, name, is_thread_creation);
            let now = after.recording.processes[pid];
            &&& after.recording.entries == before.entries + seq![
                EntryView::SetThreadName { thread, name },
            ] + maybe(pid == tid, EntryView::SetProcessName { process, name }) + maybe(
                is_thread_creation,
                EntryView::SetThreadStart { thread, time },
            ) + maybe(
                is_thread_creation && pid == tid,
                EntryView::SetProcessStart { process, time },
            ) + state.naming_of_product(name)
            &&& thread_in(after.recording, pid, tid) == (ThreadView {
                name: Some(name),
                ..thread_in(before, pid, tid)
            })
            &&& pid == tid ==> now == (ProcessView {
                name: Some(name),
                main_thread: now.main_thread,
                ..before.processes[pid]
            })
            &&& pid != tid ==> differ_in_threads(before.processes[pid], now, tid)
                && now.ended_threads == before.processes[pid].ended_threads
            &&& differ_in_process(before, after.recording, pid)
            &&& after.recording.ended_processes == before.ended_processes
            &&& after.current_sample_time == state.current_sample_time
            &&& after.product_name_pending == (state.product_name_pending && name
                == "perf-exec"@)
            &&& state.product_name_pending && name != "perf-exec"@ ==> after.have_product_name
            &&& !state.product_name_pending ==> after.have_product_name == state.have_product_name
        }),
{
    let before = state.recording;
    let process = before.processes[pid].handle;
    let thread = thread_in(before, pid, tid).handle;
    let time = state.current_sample_time;
    let after = state.with_name_set(pid, tid, name, is_thread_creation).recording;
    assert(after.entries =~= before.entries + seq![EntryView::SetThreadName { thread, name }]
        + maybe(pid == tid, EntryView::SetProcessName { process, name }) + maybe(
        is_thread_creation,
        EntryView::SetThreadStart { thread, time },
    ) + maybe(is_thread_creation && pid == tid, EntryView::SetProcessStart { process, time })
        + state.naming_of_product(name));
    assert(after.processes.remove(pid) =~= before.processes.remove(pid));
    assert(after.processes[pid].threads.remove(tid) =~= before.processes[pid].threads.remove(tid));
    assert(thread_in(after, pid, tid) =~= (ThreadView {
        name: Some(name),
        ..thread_in(before, pid, tid)
    }));
    if pid == tid {
        assert(after.processes[pid] =~= (ProcessView {
            name: Some(name),
            main_thread: after.processes[pid].main_thread,
            ..before.processes[pid]
        }));
    }
}

/// A new name alone does not end anything: neither that of a main thread, nor
/// that of any thread where threads are not merged.
pub proof fn law_renamed_thread_goes_on(
    state: ConverterView,
    pid: i32,
    tid: i32,
    name: Seq<char>,
    timestamp: Option<u64>,
)
    requires
        knows_thread(state.recording, pid, tid),
        pid == tid || !state.recording.merge_threads,
    ensures
        ({
            let before = state.recording;
            let after = state.after_thread_name_update(pid, tid, name, false, timestamp);
            &&& after.recording.entries == before.entries + seq![
                EntryView::SetThreadName { thread: thread_in(before, pid, tid).handle, name },
            ] + maybe(
                pid == tid,
                EntryView::SetProcessName { process: before.processes[pid].handle, name },
            ) + state.naming_of_product(name)
            &&& thread_in(after.recording, pid, tid) == (ThreadView {
                name: Some(name),
                ..thread_in(before, pid, tid)
            })
            &&& after.recording.ended_processes == before.ended_processes
            &&& after.recording.processes[pid].ended_threads
                == before.processes[pid].ended_threads
        }),
{
    law_name_is_put_down(state, pid, tid, name, false);
    let before = state.recording;
    let after = state.after_thread_name_update(pid, tid, name, false, timestamp).recording;
    assert(after.entries =~= before.entries + seq![
        EntryView::SetThreadName { thread: thread_in(before, pid, tid).handle, name },
    ] + maybe(
        pid == tid,
        EntryView::SetProcessName { process: before.processes[pid].handle, name },
    ) + state.naming_of_product(name));
}

/// Whether a moment is that of a record: the time of the last sample where the
/// record has no time, or zero.
pub open spec fn is_time_of(state: ConverterView, timestamp: Option<u64>, time: u64) -> bool {
    match timestamp {
        Some(stamp) => time == if stamp == 0 {
            state.current_sample_time
        } else {
            stamp
        },
        None => time == state.current_sample_time,
    }
}

/// Where a process is replaced by that of another executable, the old one ends
/// at the time of the record and, where no ended process has the new name, a
/// new one starts at the time of the last sample.
pub proof fn law_replaced_process_ends_and_starts(
    state: ConverterView,
    pid: i32,
    name: Seq<char>,
    timestamp: Option<u64>,
    time: u64,
)
    requires
        state.recording.processes.dom().contains(pid),
        no_process_named(state.recording.ended_processes, name),
        state.recording.merge_threads ==> state.recording.processes[pid].name != Some(name),
        is_time_of(state, timestamp, time),
    ensures
        ({
            let before = state.recording;
            let n = before.entries.len();
            let start = state.current_sample_time;
            let after = state.after_thread_name_update(pid, pid, name, true, timestamp).recording;
            &&& after.entries == before.entries + seq![
                EntryView::EndProcess { process: before.processes[pid].handle, time },
                EntryView::AddProcess { pid },
                EntryView::AddThread { process: n + 1, tid: pid, is_main: true },
                EntryView::SetThreadName { thread: n + 2, name },
                EntryView::SetProcessName { process: n + 1, name },
                EntryView::SetThreadStart { thread: n + 2, time: start },
                EntryView::SetProcessStart { process: n + 1, time: start },
            ] + state.naming_of_product(name)
            &&& is_untouched_process(after.processes[pid], n + 1, Some(name), n + 2, Some(name))
            &&& differ_in_process(before, after, pid)
        }),
{
    let before = state.recording;
    let ended = before.without_process(pid, time);
    law_first_ended_process_is_taken_up(ended, pid, name, 0);
    assert(no_process_named(ended.ended_processes, name));
    let n = before.entries.len();
    let start = state.current_sample_time;
    let after = state.after_thread_name_update(pid, pid, name, true, timestamp).recording;
    assert(after.entries =~= before.entries + seq![
        EntryView::EndProcess { process: before.processes[pid].handle, time },
        EntryView::AddProcess { pid },
        EntryView::AddThread { process: n + 1, tid: pid, is_main: true },
        EntryView::SetThreadName { thread: n + 2, name },
        EntryView::SetProcessName { process: n + 1, name },
        EntryView::SetThreadStart { thread: n + 2, time: start },
        EntryView::SetProcessStart { process: n + 1, time: start },
    ] + state.naming_of_product(name));
    assert(after.processes.remove(pid) =~= before.processes.remove(pid));
}

/// Where a process is replaced by that of another executable and an ended
/// process has the new name, the first of them is taken up: the old process
/// ends, if it is there, and the one that was taken up does not start anew.
pub proof fn law_replaced_process_takes_up_an_ended_one(
    state: ConverterView,
    pid: i32,
    name: Seq<char>,
    timestamp: Option<u64>,
    time: u64,
    at: int,
)
    requires
        is_first_process(state.recording.ended_processes, name, at),
        is_time_of(state, timestamp, time),
    ensures
        ({
            let before = state.recording;
            let ended = before.ended_processes[at];
            let after = state.after_thread_name_update(pid, pid, name, true, timestamp).recording;
            &&& after.entries == before.entries + maybe(
                before.processes.dom().contains(pid),
                EntryView::EndProcess { process: before.processes[pid].handle, time },
            ) + seq![
                EntryView::SetThreadName { thread: ended.main_thread, name },
                EntryView::SetProcessName { process: ended.handle, name },
            ] + state.naming_of_product(name)
            &&& is_untouched_process(
                after.processes[pid],
                ended.handle,
                Some(name),
                ended.main_thread,
                Some(name),
            )
            &&& differ_in_process(before, after, pid)
        }),
{
    let before = state.recording;
    let gone = before.without_process(pid, time);
    assert(is_first_process(gone.ended_processes, name, at)) by {
        assert forall|i: int| 0 <= i < at implies (#[trigger] gone.ended_processes[i]).name
            != name by {
            assert(gone.ended_processes[i] == before.ended_processes[i]);
        }
    }
    law_first_ended_process_is_taken_up(gone, pid, name, at);
    let ended = before.ended_processes[at];
    let after = state.after_thread_name_update(pid, pid, name, true, timestamp).recording;
    assert(after.entries =~= before.entries + maybe(
        before.processes.dom().contains(pid),
        EntryView::EndProcess { process: before.processes[pid].handle, time },
    ) + seq![
        EntryView::SetThreadName { thread: ended.main_thread, name },
        EntryView::SetProcessName { process: ended.handle, name },
    ] + state.naming_of_product(name));
    assert(after.processes.remove(pid) =~= before.processes.remove(pid));
}

/// Where threads are merged and a process is replaced by one of its own name,
/// with no other ended process of the name, it takes itself up again: it ends,
/// but keeps its handles and does not start anew.
pub proof fn law_process_of_the_same_name_takes_itself_up(
    state: ConverterView,
    pid: i32,
    name: Seq<char>,
    timestamp: Option<u64>,
    time: u64,
)
    requires
        state.recording.merge_threads,
        state.recording.processes.dom().contains(pid),
        state.recording.processes[pid].name == Some(name),
        no_process_named(state.recording.ended_processes, name),
        is_time_of(state, timestamp, time),
    ensures
        ({
            let before = state.recording;
            let process = before.processes[pid].handle;
            let thread = before.processes[pid].main_thread.handle;
            let after = state.after_thread_name_update(pid, pid, name, true, timestamp).recording;
            &&& after.entries == before.entries + seq![
                EntryView::EndProcess { process, time },
                EntryView::SetThreadName { thread, name },
                EntryView::SetProcessName { process, name },
            ] + state.naming_of_product(name)
            &&& is_untouched_process(
                after.processes[pid],
                process,
                Some(name),
                thread,
                Some(name),
            )
            &&& differ_in_process(before, after, pid)
            &&& after.ended_processes == before.ended_processes
        }),
{
    let before = state.recording;
    let process = before.processes[pid].handle;
    let thread = before.processes[pid].main_thread.handle;
    let gone = before.without_process(pid, time);
    let at = before.ended_processes.len() as int;
    assert(is_first_process(gone.ended_processes, name, at)) by {
        assert forall|i: int| 0 <= i < at implies (#[trigger] gone.ended_processes[i]).name
            != name by {
            assert(gone.ended_processes[i] == before.ended_processes[i]);
        }
    }
    law_first_ended_process_is_taken_up(gone, pid, name, at);
    let after = state.after_thread_name_update(pid, pid, name, true, timestamp).recording;
    assert(after.entries =~= before.entries + seq![
        EntryView::EndProcess { process, time },
        EntryView::SetThreadName { thread, name },
        EntryView::SetProcessName { process, name },
    ] + state.naming_of_product(name));
    assert(after.processes.remove(pid) =~= before.processes.remove(pid));
    assert(after.ended_processes =~= before.ended_processes);
}

/// Where threads are merged and another thread gets the name that it has, with
/// no other ended thread of the name, it takes itself up again.
pub proof fn law_thread_of_the_same_name_takes_itself_up(
    state: ConverterView,
    pid: i32,
    tid: i32,
    name: Seq<char>,
    is_execve: bool,
    timestamp: Option<u64>,
    time: u64,
)
    requires
        state.recording.merge_threads,
        tid != pid,
        knows_thread(state.recording, pid, tid),
        thread_in(state.recording, pid, tid).name == Some(name),
        no_thread_named(state.recording.processes[pid].ended_threads, name),
        is_time_of(state, timestamp, time),
    ensures
        ({
            let before = state.recording;
            let thread = thread_in(before, pid, tid).handle;
            let after = state.after_thread_name_update(
                pid,
                tid,
                name,
                is_execve,
                timestamp,
            ).recording;
            &&& after.entries == before.entries + seq![
                EntryView::EndThread { thread, time },
                EntryView::SetThreadName { thread, name },
            ] + state.naming_of_product(name)
            &&& is_untouched_thread(thread_in(after, pid, tid), thread, Some(name))
            &&& differ_in_threads(before.processes[pid], after.processes[pid], tid)
            &&& differ_in_process(before, after, pid)
            &&& after.processes[pid].ended_threads == before.processes[pid].ended_threads
        }),
{
    let before = state.recording;
    let thread = thread_in(before, pid, tid).handle;
    let gone = before.without_thread(pid, tid, time);
    let list = gone.processes[pid].ended_threads;
    let at = before.processes[pid].ended_threads.len() as int;
    assert(is_first_thread(list, name, at)) by {
        assert forall|i: int| 0 <= i < at implies (#[trigger] list[i]).name != name by {
            assert(list[i] == before.processes[pid].ended_threads[i]);
        }
    }
    law_first_ended_thread_is_taken_up(gone, pid, tid, name, at);
    let after = state.after_thread_name_update(pid, tid, name, is_execve, timestamp).recording;
    assert(after.entries =~= before.entries + seq![
        EntryView::EndThread { thread, time },
        EntryView::SetThreadName { thread, name },
    ] + state.naming_of_product(name));
    assert(after.processes.remove(pid) =~= before.processes.remove(pid));
    assert(after.processes[pid].threads.remove(tid) =~= before.processes[pid].threads.remove(tid));
    assert(after.processes[pid].ended_threads =~= before.processes[pid].ended_threads);
}

/// Where threads are merged, another thread with a new name ends and, where no
/// ended thread of the process has the name, starts anew. The same goes for a
/// thread that is replaced, whether threads are merged or not.
pub proof fn law_renamed_thread_ends_and_starts(
    state: ConverterView,
    pid: i32,
    tid: i32,
    name: Seq<char>,
    is_execve: bool,
    timestamp: Option<u64>,
    time: u64,
)
    requires
        tid != pid,
        knows_thread(state.recording, pid, tid),
        state.recording.merge_threads || is_execve,
        no_thread_named(state.recording.processes[pid].ended_threads, name),
        state.recording.merge_threads ==> thread_in(state.recording, pid, tid).name != Some(name),
        is_time_of(state, timestamp, time),
    ensures
        ({
            let before = state.recording;
            let n = before.entries.len();
            let after = state.after_thread_name_update(
                pid,
                tid,
                name,
                is_execve,
                timestamp,
            ).recording;
            &&& after.entries == before.entries + seq![
                EntryView::EndThread { thread: before.processes[pid].threads[tid].handle, time },
                EntryView::AddThread {
                    process: before.processes[pid].handle,
                    tid,
                    is_main: false,
                },
                EntryView::SetThreadName { thread: n + 1, name },
                EntryView::SetThreadStart { thread: n + 1, time: state.current_sample_time },
            ] + state.naming_of_product(name)
            &&& is_untouched_thread(thread_in(after, pid, tid), n + 1, Some(name))
            &&& differ_in_threads(before.processes[pid], after.processes[pid], tid)
            &&& differ_in_process(before, after, pid)
        }),
{
    let before = state.recording;
    let n = before.entries.len();
    let ended = before.without_thread(pid, tid, time);
    assert(no_thread_named(ended.processes[pid].ended_threads, name));
    law_first_ended_thread_is_taken_up(ended, pid, tid, name, 0);
    let after = state.after_thread_name_update(pid, tid, name, is_execve, timestamp).recording;
    assert(after.entries =~= before.entries + seq![
        EntryView::EndThread { thread: before.processes[pid].threads[tid].handle, time },
        EntryView::AddThread { process: before.processes[pid].handle, tid, is_main: false },
        EntryView::SetThreadName { thread: n + 1, name },
        EntryView::SetThreadStart { thread: n + 1, time: state.current_sample_time },
    ] + state.naming_of_product(name));
    assert(after.processes.remove(pid) =~= before.processes.remove(pid));
    assert(after.processes[pid].threads.remove(tid) =~= before.processes[pid].threads.remove(tid));
}

/// Where another thread ends because of its new name and an ended thread of
/// the process has the name, the first of them is taken up, and does not start
/// anew.
pub proof fn law_renamed_thread_takes_up_an_ended_one(
    state: ConverterView,
    pid: i32,
    tid: i32,
    name: Seq<char>,
    is_execve: bool,
    timestamp: Option<u64>,
    time: u64,
    at: int,
)
    requires
        tid != pid,
        state.recording.processes.dom().contains(pid),
        state.recording.merge_threads || is_execve,
        is_first_thread(state.recording.processes[pid].ended_threads, name, at),
        is_time_of(state, timestamp, time),
    ensures
        ({
            let before = state.recording;
            let ended = before.processes[pid].ended_threads[at];
            let after = state.after_thread_name_update(
                pid,
                tid,
                name,
                is_execve,
                timestamp,
            ).recording;
            &&& after.entries == before.entries + maybe(
                knows_thread(before, pid, tid),
                EntryView::EndThread { thread: before.processes[pid].threads[tid].handle, time },
            ) + seq![
                EntryView::SetThreadName { thread: ended.handle, name },
            ] + state.naming_of_product(name)
            &&& is_untouched_thread(thread_in(after, pid, tid), ended.handle, Some(name))
            &&& differ_in_threads(before.processes[pid], after.processes[pid], tid)
            &&& differ_in_process(before, after, pid)
        }),
{
    let before = state.recording;
    let gone = before.without_thread(pid, tid, time);
    let list = gone.processes[pid].ended_threads;
    assert(is_first_thread(list, name, at)) by {
        assert forall|i: int| 0 <= i < at implies (#[trigger] list[i]).name != name by {
            assert(list[i] == before.processes[pid].ended_threads[i]);
        }
    }
    law_first_ended_thread_is_taken_up(gone, pid, tid, name, at);
    let ended = before.processes[pid].ended_threads[at];
    let after = state.after_thread_name_update(pid, tid, name, is_execve, timestamp).recording;
    assert(after.entries =~= before.entries + maybe(
        knows_thread(before, pid, tid),
        EntryView::EndThread { thread: before.processes[pid].threads[tid].handle, time },
    ) + seq![
        EntryView::SetThreadName { thread: ended.handle, name },
    ] + state.naming_of_product(name));
    assert(after.processes.remove(pid) =~= before.processes.remove(pid));
    assert(after.processes[pid].threads.remove(tid) =~= before.processes[pid].threads.remove(tid));
}

/// Where there is no process or thread to end, a replaced one is just created:
/// it starts at the time of the last sample.
pub proof fn law_nothing_is_ended_that_was_not_there(
    state: ConverterView,
    pid: i32,
    tid: i32,
    name: Seq<char>,
    is_execve: bool,
    timestamp: Option<u64>,
)
    requires
        is_execve || (tid != pid && state.recording.merge_threads),
        !knows_thread(state.recording, pid, tid),
        tid == pid ==> no_process_named(state.recording.ended_processes, name),
        tid != pid ==> state.recording.processes.dom().contains(pid) && no_thread_named(
            state.recording.processes[pid].ended_threads,
            name,
        ),
    ensures
        ({
            let before = state.recording;
            let n = before.entries.len();
            let time = state.current_sample_time;
            let after = state.after_thread_name_update(
                pid,
                tid,
                name,
                is_execve,
                timestamp,
            ).recording;
            &&& tid == pid ==> after.entries == before.entries + seq![
                EntryView::AddProcess { pid },
                EntryView::AddThread { process: n, tid: pid, is_main: true },
                EntryView::SetThreadName { thread: n + 1, name },
                EntryView::SetProcessName { process: n, name },
                EntryView::SetThreadStart { thread: n + 1, time },
                EntryView::SetProcessStart { process: n, time },
            ] + state.naming_of_product(name)
            &&& tid != pid ==> after.entries == before.entries + seq![
                EntryView::AddThread {
                    process: before.processes[pid].handle,
                    tid,
                    is_main: false,
                },
                EntryView::SetThreadName { thread: n, name },
                EntryView::SetThreadStart { thread: n, time },
            ] + state.naming_of_product(name)
        }),
{
    let before = state.recording;
    let n = before.entries.len();
    let time = state.current_sample_time;
    let after = state.after_thread_name_update(
                pid,
                tid,
                name,
                is_execve,
                timestamp,
            ).recording;
    if tid == pid {
        law_first_ended_process_is_taken_up(before, pid, name, 0);
        assert(after.entries =~= before.entries + seq![
            EntryView::AddProcess { pid },
            EntryView::AddThread { process: n, tid: pid, is_main: true },
            EntryView::SetThreadName { thread: n + 1, name },
            EntryView::SetProcessName { process: n, name },
            EntryView::SetThreadStart { thread: n + 1, time },
            EntryView::SetProcessStart { process: n, time },
        ] + state.naming_of_product(name));
    } else {
        law_first_ended_thread_is_taken_up(before, pid, tid, name, 0);
        assert(after.entries =~= before.entries + seq![
            EntryView::AddThread { process: before.processes[pid].handle, tid, is_main: false },
            EntryView::SetThreadName { thread: n, name },
            EntryView::SetThreadStart { thread: n, time },
        ] + state.naming_of_product(name));
    }
}

} // verus!
