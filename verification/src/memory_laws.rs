//! What holds of the memory changes of a process, whatever else is recorded.

use crate::converter::{ConverterView, SampleRecord};
use crate::laws::{entries_ok, law_records_keep_the_order, refers_back, Record};
use crate::processes::{RecordingView, RssSizes};
use crate::profile::{EntryView, RssStatMember};
use crate::samples::{CommonData, ContextSwitchRecord, RssStat};
use crate::threads::ForkOrExitRecord;
use vstd::prelude::*;

verus! {

/// What a marker says of a change of memory.
pub struct RssChange {
    /// The new size.
    pub size: i64,
    /// The new size less the one before.
    pub delta: i64,
}

/// What the markers of a thread say of one kind of memory.
pub open spec fn marked_changes(
    entries: Seq<EntryView>,
    thread: nat,
    member: RssStatMember,
) -> Seq<RssChange>
    decreases entries.len(),
{
    if entries.len() == 0 {
        Seq::empty()
    } else {
        let before = marked_changes(entries.drop_last(), thread, member);
        match entries.last() {
            EntryView::AddRssStatMarker { thread: t, member: m, size, delta, .. } => {
                if t == thread && m == member {
                    before.push(RssChange { size, delta })
                } else {
                    before
                }
            },
            _ => before,
        }
    }
}

impl RecordingView {
    /// The size of one kind of a process's memory, zero if nothing is known of
    /// the process.
    pub open spec fn memory_size(self, pid: i32, member: RssStatMember) -> i64 {
        self.with_live_process(pid).processes[pid].rss.size_of(member)
    }

    /// What the markers of a process say of one kind of memory.
    pub open spec fn memory_changes(self, pid: i32, member: RssStatMember) -> Seq<RssChange> {
        let live = self.with_live_process(pid);
        marked_changes(live.entries, live.processes[pid].main_thread.handle, member)
    }
}

impl Record {
    /// The new size of one kind of a process's memory, if that is what the
    /// record is about.
    pub open spec fn new_size(self, pid: i32, member: RssStatMember) -> Option<i64> {
        match self {
            Record::RssStat(e, Some(stat)) => {
                if e.pid->0 == pid && e.timestamp is Some && stat.kind() == Some(member) {
                    Some(stat.size)
                } else {
                    None
                }
            },
            _ => None,
        }
    }

    /// Whether a change of memory fits its counter.
    pub open spec fn fits(self, state: ConverterView) -> bool {
        match self {
            Record::RssStat(e, Some(stat)) => e.timestamp is Some && stat.kind() is Some
                ==> i64::MIN <= state.recording.rss_delta(e.pid->0, stat.kind()->0, stat.size)
                <= i64::MAX,
            _ => true,
        }
    }

    /// Whether a process goes on after the record, if it is live: it does not
    /// end, is not replaced by that of another executable, and is not forked.
    pub open spec fn lets_go_on(self, pid: i32) -> bool {
        match self {
            Record::ThreadStart(e) => e.pid != pid || e.ppid == pid,
            Record::ThreadEnd(e) => e.pid != pid || e.tid != pid,
            Record::ThreadNameUpdate { pid: p, tid, is_execve, .. } => p != pid || tid != pid
                || !is_execve,
            _ => true,
        }
    }
}

/// The sizes that one kind of a process's memory gets, one after the other.
pub open spec fn new_sizes(records: Seq<Record>, pid: i32, member: RssStatMember) -> Seq<i64>
    decreases records.len(),
{
    if records.len() == 0 {
        Seq::empty()
    } else {
        let before = new_sizes(records.drop_last(), pid, member);
        match records.last().new_size(pid, member) {
            Some(size) => before.push(size),
            None => before,
        }
    }
}

/// Whether all changes of memory fit their counters.
pub open spec fn all_fit(state: ConverterView, records: Seq<Record>) -> bool
    decreases records.len(),
{
    records.len() > 0 ==> all_fit(state, records.drop_last()) && records.last().fits(
        state.after_all(records.drop_last()),
    )
}

/// The last of several sizes, or the first one if there are no others.
pub open spec fn last_size(first: i64, sizes: Seq<i64>) -> i64 {
    if sizes.len() == 0 {
        first
    } else {
        sizes.last()
    }
}

/// The changes from size to size.
pub open spec fn changes_between(first: i64, sizes: Seq<i64>) -> Seq<RssChange> {
    Seq::new(
        sizes.len(),
        |i: int|
            RssChange {
                size: sizes[i],
                delta: (sizes[i] - last_size(first, sizes.take(i))) as i64,
            },
    )
}

/// The sum of several changes.
pub open spec fn total_change(changes: Seq<RssChange>) -> int
    decreases changes.len(),
{
    if changes.len() == 0 {
        0
    } else {
        total_change(changes.drop_last()) + changes.last().delta
    }
}

/// Whether a recording went on without a change of a process's memory.
spec fn is_calm(a: RecordingView, b: RecordingView, pid: i32) -> bool {
    &&& a.entries.is_prefix_of(b.entries)
    &&& forall|i: int|
        a.entries.len() <= i < b.entries.len() ==> !((
        #[trigger] b.entries[i]) is AddRssStatMarker)
    &&& a.processes.dom().contains(pid) ==> {
        &&& b.processes.dom().contains(pid)
        &&& b.processes[pid].main_thread.handle == a.processes[pid].main_thread.handle
        &&& b.processes[pid].rss == a.processes[pid].rss
    }
    &&& !a.processes.dom().contains(pid) && b.processes.dom().contains(pid) ==> {
        &&& b.processes[pid].main_thread.handle >= a.entries.len()
        &&& b.processes[pid].rss == RssSizes::zero()
    }
}

proof fn lemma_sample_is_calm(state: ConverterView, e: SampleRecord, pid: i32)
    ensures
        is_calm(state.recording, state.after_sample(e).recording, pid),
{
}

proof fn lemma_sched_switch_is_calm(state: ConverterView, e: SampleRecord, pid: i32)
    ensures
        is_calm(state.recording, state.after_sched_switch(e).recording, pid),
{
}

proof fn lemma_other_event_is_calm(state: ConverterView, e: SampleRecord, attr: usize, pid: i32)
    ensures
        is_calm(state.recording, state.after_other_event_sample(e, attr).recording, pid),
{
}

proof fn lemma_switch_is_calm(
    state: ConverterView,
    e: ContextSwitchRecord,
    common: CommonData,
    pid: i32,
)
    ensures
        is_calm(state.recording, state.after_context_switch(e, common).recording, pid),
{
}

proof fn lemma_forked_process_is_calm(a: RecordingView, e: ForkOrExitRecord, pid: i32)
    requires
        e.pid != pid,
    ensures
        is_calm(a, a.with_forked_process(e), pid),
{
}

proof fn lemma_forked_thread_is_calm(a: RecordingView, e: ForkOrExitRecord, pid: i32)
    ensures
        is_calm(a, a.with_forked_thread(e), pid),
{
}

proof fn lemma_end_is_calm(a: RecordingView, p: i32, tid: i32, time: u64, pid: i32)
    requires
        p != pid || tid != pid,
    ensures
        is_calm(a, a.with_ended_thread(p, tid, time), pid),
{
}

proof fn lemma_name_is_calm(
    state: ConverterView,
    p: i32,
    tid: i32,
    name: Seq<char>,
    is_thread_creation: bool,
    pid: i32,
)
    ensures
        is_calm(
            state.recording,
            state.with_name_set(p, tid, name, is_thread_creation).recording,
            pid,
        ),
{
}

proof fn lemma_mapping_is_calm(state: ConverterView, record: Record, pid: i32)
    requires
        record is Mapping || record is KernelModule || record is Module || record is MissingModule,
    ensures
        is_calm(state.recording, state.after(record).recording, pid),
{
}

proof fn lemma_calm_trans(a: RecordingView, b: RecordingView, c: RecordingView, pid: i32)
    requires
        is_calm(a, b, pid),
        is_calm(b, c, pid),
    ensures
        is_calm(a, c, pid),
{
    assert forall|i: int| a.entries.len() <= i < c.entries.len() implies !((
    #[trigger] c.entries[i]) is AddRssStatMarker) by {
        if i < b.entries.len() {
            assert(b.entries[i] == c.entries[i]);
        }
    }
}

proof fn lemma_name_update_is_calm(
    state: ConverterView,
    p: i32,
    tid: i32,
    name: Seq<char>,
    is_execve: bool,
    timestamp: Option<u64>,
    pid: i32,
)
    requires
        p != pid || tid != pid || !is_execve,
    ensures
        is_calm(
            state.recording,
            state.after_thread_name_update(p, tid, name, is_execve, timestamp).recording,
            pid,
        ),
{
    let a = state.recording;
    if is_execve || (a.merge_threads && p != tid) {
        let ended = a.with_ended_thread(p, tid, state.time_of(timestamp));
        lemma_end_is_calm(a, p, tid, state.time_of(timestamp), pid);
        let reused = if p == tid {
            ended.with_reused_process(p, name)
        } else {
            ended.with_reused_thread(p, tid, name)
        };
        assert(is_calm(ended, reused, pid));
        lemma_calm_trans(a, ended, reused, pid);
        let mid = ConverterView { recording: reused, ..state };
        let is_creation = if p == tid {
            !ended.can_reuse_process(name)
        } else {
            !ended.can_reuse_thread(p, tid, name)
        };
        lemma_name_is_calm(mid, p, tid, name, is_creation, pid);
        lemma_calm_trans(a, reused, mid.with_name_set(p, tid, name, is_creation).recording, pid);
    } else {
        lemma_name_is_calm(state, p, tid, name, false, pid);
    }
}

proof fn lemma_other_records_are_calm(state: ConverterView, record: Record, pid: i32)
    requires
        !(record is RssStat),
        record.lets_go_on(pid),
    ensures
        is_calm(state.recording, state.after(record).recording, pid),
{
    match record {
        Record::Sample(e) => lemma_sample_is_calm(state, e, pid),
        Record::SchedSwitch(e) => lemma_sched_switch_is_calm(state, e, pid),
        Record::OtherEvent(e, attr_index) => lemma_other_event_is_calm(state, e, attr_index, pid),
        Record::ContextSwitch(e, common) => lemma_switch_is_calm(state, e, common, pid),
        Record::ThreadStart(e) => {
            if e.pid != e.ppid {
                lemma_forked_process_is_calm(state.recording, e, pid);
            } else {
                lemma_forked_thread_is_calm(state.recording, e, pid);
            }
        },
        Record::ThreadEnd(e) => lemma_end_is_calm(state.recording, e.pid, e.tid, e.timestamp, pid),
        Record::ThreadName { pid: p, tid, name, is_thread_creation } => {
            lemma_name_is_calm(state, p, tid, name, is_thread_creation, pid)
        },
        Record::ThreadNameUpdate { pid: p, tid, name, is_execve, timestamp } => {
            lemma_name_update_is_calm(state, p, tid, name, is_execve, timestamp, pid)
        },
        _ => lemma_mapping_is_calm(state, record, pid),
    }
}

/// Entries that are no markers of the thread change nothing.
proof fn lemma_unmarked(
    a: Seq<EntryView>,
    b: Seq<EntryView>,
    thread: nat,
    member: RssStatMember,
)
    requires
        a.is_prefix_of(b),
        forall|i: int|
            a.len() <= i < b.len() ==> match #[trigger] b[i] {
                EntryView::AddRssStatMarker { thread: t, member: m, .. } => t != thread || m
                    != member,
                _ => true,
            },
    ensures
        marked_changes(b, thread, member) == marked_changes(a, thread, member),
    decreases b.len(),
{
    if a.len() == b.len() {
        assert(a =~= b);
    } else {
        let c = b.drop_last();
        assert(a.is_prefix_of(c));
        assert forall|i: int| a.len() <= i < c.len() implies match #[trigger] c[i] {
            EntryView::AddRssStatMarker { thread: t, member: m, .. } => t != thread || m != member,
            _ => true,
        } by {
            assert(c[i] == b[i]);
        }
        lemma_unmarked(a, c, thread, member);
        assert(b.last() == b[b.len() - 1]);
    }
}

/// A thread that is not added yet has no markers.
proof fn lemma_unknown_thread(entries: Seq<EntryView>, thread: nat, member: RssStatMember)
    requires
        entries_ok(entries),
        thread >= entries.len(),
    ensures
        marked_changes(entries, thread, member) == Seq::<RssChange>::empty(),
{
    assert forall|i: int| 0 <= i < entries.len() implies match #[trigger] entries[i] {
        EntryView::AddRssStatMarker { thread: t, member: m, .. } => t != thread || m != member,
        _ => true,
    } by {
        assert(refers_back(entries.take(i), entries[i]));
    }
    lemma_unmarked(Seq::empty(), entries, thread, member);
}

/// Looking a process up does not change its markers.
proof fn lemma_changes_of_unknown_process(a: RecordingView, pid: i32, member: RssStatMember)
    requires
        entries_ok(a.entries),
        !a.processes.dom().contains(pid),
    ensures
        a.memory_changes(pid, member) == Seq::<RssChange>::empty(),
        a.memory_size(pid, member) == 0,
{
    let live = a.with_live_process(pid);
    let thread = live.processes[pid].main_thread.handle;
    lemma_unknown_thread(a.entries, thread, member);
    lemma_unmarked(a.entries, live.entries, thread, member);
}

proof fn lemma_calm_keeps_memory(
    a: RecordingView,
    b: RecordingView,
    pid: i32,
    member: RssStatMember,
)
    requires
        is_calm(a, b, pid),
        entries_ok(a.entries),
        entries_ok(b.entries),
    ensures
        b.memory_changes(pid, member) == a.memory_changes(pid, member),
        b.memory_size(pid, member) == a.memory_size(pid, member),
{
    if a.processes.dom().contains(pid) {
        lemma_unmarked(a.entries, b.entries, a.processes[pid].main_thread.handle, member);
    } else {
        lemma_changes_of_unknown_process(a, pid, member);
        if b.processes.dom().contains(pid) {
            let thread = b.processes[pid].main_thread.handle;
            lemma_unknown_thread(a.entries, thread, member);
            lemma_unmarked(a.entries, b.entries, thread, member);
        } else {
            lemma_changes_of_unknown_process(b, pid, member);
        }
    }
}

/// The main threads of two live processes are two threads.
proof fn lemma_main_threads_differ(a: RecordingView, p: i32, q: i32)
    requires
        a.handles_ok(),
        a.processes.dom().contains(p),
        a.processes.dom().contains(q),
        p != q,
    ensures
        a.processes[p].main_thread.handle != a.processes[q].main_thread.handle,
{
    assert(a.processes[p].handles_ok(a.entries));
    assert(a.processes[q].handles_ok(a.entries));
}

/// A change of memory is marked on the process that it is about, and nothing
/// changes for other processes and other kinds of memory.
proof fn lemma_rss_stat(
    state: ConverterView,
    e: SampleRecord,
    rss_stat: Option<RssStat>,
    pid: i32,
    member: RssStatMember,
)
    requires
        state.is_in_order(),
        state.after_rss_stat(e, rss_stat).is_in_order(),
    ensures
        ({
            let a = state.recording;
            let b = state.after_rss_stat(e, rss_stat).recording;
            match Record::RssStat(e, rss_stat).new_size(pid, member) {
                Some(size) => {
                    &&& b.memory_size(pid, member) == size
                    &&& b.memory_changes(pid, member) == a.memory_changes(pid, member).push(
                        RssChange { size, delta: (size - a.memory_size(pid, member)) as i64 },
                    )
                },
                None => {
                    &&& b.memory_size(pid, member) == a.memory_size(pid, member)
                    &&& b.memory_changes(pid, member) == a.memory_changes(pid, member)
                },
            }
        }),
{
    let a = state.recording;
    let b = state.after_rss_stat(e, rss_stat).recording;
    let p = e.pid->0;
    let live = a.with_live_process(p);
    if rss_stat is Some && e.timestamp is Some && rss_stat->0.kind() is Some {
        let kind = rss_stat->0.kind()->0;
        assert(b.processes.dom().contains(p));
        if p == pid {
            let thread = live.processes[pid].main_thread.handle;
            assert(b.with_live_process(pid) == b);
            if kind == member {
                lemma_unmarked(live.entries, b.entries.drop_last(), thread, member);
            } else {
                lemma_unmarked(live.entries, b.entries, thread, member);
            }
        } else if a.processes.dom().contains(pid) {
            lemma_main_threads_differ(b, p, pid);
            lemma_unmarked(a.entries, b.entries, a.processes[pid].main_thread.handle, member);
        } else {
            lemma_changes_of_unknown_process(a, pid, member);
            lemma_changes_of_unknown_process(b, pid, member);
        }
    } else {
        lemma_calm_keeps_memory(a, b, pid, member);
    }
}

/// The sizes of a process's memory and the markers of their changes depend on
/// nothing but the changes of that process and that kind of memory, whatever
/// is recorded in between, as long as the process goes on.
///
/// The size is the one that was last stated. There is one marker for each
/// change, in the order of the changes, with the new size and the difference
/// to the size before. The differences add up to the difference of the last
/// and the first size.
pub proof fn law_memory_changes_add_up(
    state: ConverterView,
    records: Seq<Record>,
    pid: i32,
    member: RssStatMember,
)
    requires
        state.is_in_order(),
        forall|i: int| 0 <= i < records.len() ==> (#[trigger] records[i]).lets_go_on(pid),
        all_fit(state, records),
    ensures
        ({
            let first = state.recording.memory_size(pid, member);
            let sizes = new_sizes(records, pid, member);
            let after = state.after_all(records).recording;
            &&& after.memory_size(pid, member) == last_size(first, sizes)
            &&& after.memory_changes(pid, member) == state.recording.memory_changes(pid, member)
                + changes_between(first, sizes)
            &&& total_change(changes_between(first, sizes)) == last_size(first, sizes) - first
        }),
        state.after_all(records).is_in_order(),
    decreases records.len(),
{
    let first = state.recording.memory_size(pid, member);
    let sizes = new_sizes(records, pid, member);
    if records.len() == 0 {
        assert(changes_between(first, sizes) =~= Seq::empty());
        assert(state.recording.memory_changes(pid, member) + Seq::<RssChange>::empty()
            =~= state.recording.memory_changes(pid, member));
    } else {
        let fewer = records.drop_last();
        let record = records.last();
        assert forall|i: int| 0 <= i < fewer.len() implies (#[trigger] fewer[i]).lets_go_on(
            pid,
        ) by {
            assert(fewer[i] == records[i]);
        }
        assert(records[records.len() - 1].lets_go_on(pid));
        law_memory_changes_add_up(state, fewer, pid, member);
        let before = state.after_all(fewer);
        law_records_keep_the_order(before, record);
        let fewer_sizes = new_sizes(fewer, pid, member);
        match record {
            Record::RssStat(e, rss_stat) => lemma_rss_stat(before, e, rss_stat, pid, member),
            _ => {
                lemma_other_records_are_calm(before, record, pid);
                lemma_calm_keeps_memory(
                    before.recording,
                    before.after(record).recording,
                    pid,
                    member,
                );
            },
        }
        if let Some(size) = record.new_size(pid, member) {
            lemma_changes_pushed(first, fewer_sizes, size);
            let change = RssChange {
                size,
                delta: (size - last_size(first, fewer_sizes)) as i64,
            };
            assert(state.recording.memory_changes(pid, member) + changes_between(first, sizes)
                =~= (state.recording.memory_changes(pid, member) + changes_between(
                first,
                fewer_sizes,
            )).push(change));
            assert(changes_between(first, sizes).drop_last() =~= changes_between(
                first,
                fewer_sizes,
            ));
        }
    }
}

proof fn lemma_changes_pushed(first: i64, sizes: Seq<i64>, size: i64)
    ensures
        changes_between(first, sizes.push(size)) == changes_between(first, sizes).push(
            RssChange { size, delta: (size - last_size(first, sizes)) as i64 },
        ),
{
    let more = sizes.push(size);
    assert forall|i: int| 0 <= i < sizes.len() implies #[trigger] more.take(i) == sizes.take(i) by {
        assert(more.take(i) =~= sizes.take(i));
    }
    assert(more.take(sizes.len() as int) =~= sizes);
    assert(changes_between(first, more) =~= changes_between(first, sizes).push(
        RssChange { size, delta: (size - last_size(first, sizes)) as i64 },
    ));
}

} // verus!
