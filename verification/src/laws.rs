//! What holds of a conversion as a whole.

use crate::context_switch::OffCpuSampleGroup;
use crate::converter::{ConverterView, SampleRecord, Settings};
use crate::jit::{is_injected_name, jitdump_path};
use crate::kernel_modules::debug_id_of;
use crate::mappings::{has_pe_extension, KernelModuleView, UserModuleView};
use crate::modules::ModuleFactsView;
use crate::pe_mappings::{keyed_by_start, law_remembered_image_is_found, PeMappingView};
use crate::processes::{
    first_process_named, first_thread_named, EndedProcessView, EndedThreadView, ProcessView,
    RecordingView, ThreadView,
};
use crate::profile::{EntryView, LibDebugIdView, LibraryRecordView};
use crate::samples::{off_cpu_entries, CommonData, ContextSwitchRecord, RssStat};
use crate::stack::{is_kernel_frame, StackFrame};
use crate::threads::ForkOrExitRecord;
use crate::user_modules::{library_name, relative_address, FileInfo};
use vstd::prelude::*;
use vstd::utf8::{decode_utf8, valid_utf8};

verus! {

/// Anything that a converter can be told.
pub enum Record {
    Sample(SampleRecord),
    SchedSwitch(SampleRecord),
    RssStat(SampleRecord, Option<RssStat>),
    OtherEvent(SampleRecord, usize),
    ContextSwitch(ContextSwitchRecord, CommonData),
    ThreadStart(ForkOrExitRecord),
    ThreadEnd(ForkOrExitRecord),
    ThreadName { pid: i32, tid: i32, name: Seq<char>, is_thread_creation: bool },
    ThreadNameUpdate {
        pid: i32,
        tid: i32,
        name: Seq<char>,
        is_execve: bool,
        timestamp: Option<u64>,
    },
    Mapping { pid: i32, path: Seq<u8>, page_offset: u64, address: u64, image: Option<Seq<u8>> },
    KernelModule { kernel_module: KernelModuleView, file_build_id: Option<Seq<u8>> },
    Module {
        module: UserModuleView,
        info: FileInfo,
        facts: Option<ModuleFactsView>,
        jit_symbol: Option<Seq<char>>,
    },
    MissingModule { module: UserModuleView },
}

impl ConverterView {
    /// The state after a record.
    pub open spec fn after(self, record: Record) -> ConverterView {
        match record {
            Record::Sample(e) => self.after_sample(e),
            Record::SchedSwitch(e) => self.after_sched_switch(e),
            Record::RssStat(e, rss_stat) => self.after_rss_stat(e, rss_stat),
            Record::OtherEvent(e, attr_index) => self.after_other_event_sample(e, attr_index),
            Record::ContextSwitch(e, common) => self.after_context_switch(e, common),
            Record::ThreadStart(e) => self.after_thread_start(e),
            Record::ThreadEnd(e) => self.after_thread_end(e),
            Record::ThreadName { pid, tid, name, is_thread_creation } => self.with_name_set(
                pid,
                tid,
                name,
                is_thread_creation,
            ),
            Record::ThreadNameUpdate { pid, tid, name, is_execve, timestamp } => {
                self.after_thread_name_update(pid, tid, name, is_execve, timestamp)
            },
            Record::Mapping { pid, path, page_offset, address, image } => self.after_mapping(
                pid,
                path,
                page_offset,
                address,
                image,
            ),
            Record::KernelModule { kernel_module, file_build_id } => self.with_kernel_module(
                kernel_module,
                file_build_id,
            ),
            Record::Module { module, info, facts, jit_symbol } => self.with_module(
                module,
                info,
                facts,
                jit_symbol,
            ),
            Record::MissingModule { module } => self.with_missing_module(module),
        }
    }
}

/// No record changes the settings of a conversion or whether threads are
/// merged.
pub proof fn law_settings_stay_the_same(state: ConverterView, record: Record)
    ensures
        state.after(record).settings == state.settings,
        state.after(record).recording.merge_threads == state.recording.merge_threads,
{
}

/// Only mappings change what is known of PE images, only samples set the time
/// of the last sample, and only names change whether the product is named.
/// Mappings and modules leave all processes as they are that are there.
pub proof fn law_records_change_their_own_part(state: ConverterView, record: Record)
    ensures
        !(record is Mapping) ==> state.after(record).suspected_pe_mappings
            == state.suspected_pe_mappings,
        !(record is Sample) ==> state.after(record).current_sample_time
            == state.current_sample_time,
        !(record is ThreadName) && !(record is ThreadNameUpdate) ==> {
            &&& state.after(record).have_product_name == state.have_product_name
            &&& state.after(record).product_name_pending == state.product_name_pending
        },
        record is Mapping || record is KernelModule || record is Module || record is MissingModule
            ==> forall|pid: i32| #[trigger]
            state.recording.processes.dom().contains(pid) ==> state.after(
                record,
            ).recording.processes.dom().contains(pid) && state.after(
                record,
            ).recording.processes[pid] == state.recording.processes[pid],
{
}

/// Whether an entry adds a process.
pub open spec fn adds_process(entries: Seq<EntryView>, handle: nat) -> bool {
    handle < entries.len() && entries[handle as int] is AddProcess
}

/// Whether an entry adds a thread to a process.
pub open spec fn adds_thread(
    entries: Seq<EntryView>,
    handle: nat,
    process: nat,
    is_main: bool,
) -> bool {
    handle < entries.len() && match entries[handle as int] {
        EntryView::AddThread { process: p, tid: _, is_main: m } => p == process && m == is_main,
        _ => false,
    }
}

/// Whether an entry adds a thread.
pub open spec fn is_thread(entries: Seq<EntryView>, handle: nat) -> bool {
    handle < entries.len() && entries[handle as int] is AddThread
}

/// Whether an entry adds a library.
pub open spec fn is_lib(entries: Seq<EntryView>, handle: nat) -> bool {
    handle < entries.len() && entries[handle as int] is AddLib
}

/// Whether an entry that follows the given ones speaks of processes, threads
/// and libraries that they add.
pub open spec fn refers_back(entries: Seq<EntryView>, entry: EntryView) -> bool {
    match entry {
        EntryView::AddProcess { .. } => true,
        EntryView::AddThread { process, .. } => adds_process(entries, process),
        EntryView::SetProcessName { process, .. } => adds_process(entries, process),
        EntryView::SetThreadName { thread, .. } => is_thread(entries, thread),
        EntryView::SetProcessStart { process, .. } => adds_process(entries, process),
        EntryView::SetThreadStart { thread, .. } => is_thread(entries, thread),
        EntryView::EndProcess { process, .. } => adds_process(entries, process),
        EntryView::EndThread { thread, .. } => is_thread(entries, thread),
        EntryView::SetProductFromThread { .. } => true,
        EntryView::AddSample { thread, .. } => is_thread(entries, thread),
        EntryView::AddRssStatMarker { thread, .. } => is_thread(entries, thread),
        EntryView::AddOtherEventMarker { thread, .. } => is_thread(entries, thread),
        EntryView::AddMemoryCounterSample { process, .. } => adds_process(entries, process),
        EntryView::CheckJitdump { process } => adds_process(entries, process),
        EntryView::AddJitdumpPath { process, .. } => adds_process(entries, process),
        EntryView::AddLib { .. } => true,
        EntryView::AddKernelLibMapping { lib, .. } => is_lib(entries, lib),
        EntryView::AddLibMapping { process, lib, .. } => adds_process(entries, process) && is_lib(
            entries,
            lib,
        ),
        EntryView::AddJitLibMapping { process, lib, .. } => adds_process(entries, process)
            && is_lib(entries, lib),
    }
}

/// Whether every entry speaks of processes, threads and libraries that earlier
/// entries add.
pub open spec fn entries_ok(entries: Seq<EntryView>) -> bool {
    forall|i: int|
        0 <= i < entries.len() ==> refers_back(entries.take(i), #[trigger] entries[i])
}

/// Whether no frame of a stack lies in the kernel.
pub open spec fn has_no_kernel_frames(stack: Seq<StackFrame>) -> bool {
    forall|i: int| 0 <= i < stack.len() ==> !is_kernel_frame(#[trigger] stack[i])
}

impl ThreadView {
    /// Whether no frame of a thread's saved stack lies in the kernel.
    pub open spec fn stack_ok(self) -> bool {
        self.off_cpu_stack is Some ==> has_no_kernel_frames(self.off_cpu_stack->0)
    }
}

impl ProcessView {
    /// Whether no frame of the threads' saved stacks lies in the kernel.
    pub open spec fn stacks_ok(self) -> bool {
        &&& self.main_thread.stack_ok()
        &&& forall|tid: i32| #[trigger]
            self.threads.dom().contains(tid) ==> self.threads[tid].stack_ok()
    }

    /// Whether the handles of a process and its threads are those of entries
    /// that add them, and no two of its threads have the same one.
    pub open spec fn handles_ok(self, entries: Seq<EntryView>) -> bool {
        &&& adds_process(entries, self.handle)
        &&& adds_thread(entries, self.main_thread.handle, self.handle, true)
        &&& forall|tid: i32| #[trigger]
            self.threads.dom().contains(tid) ==> adds_thread(
                entries,
                self.threads[tid].handle,
                self.handle,
                false,
            )
        &&& forall|i: int|
            0 <= i < self.ended_threads.len() ==> adds_thread(
                entries,
                (#[trigger] self.ended_threads[i]).handle,
                self.handle,
                false,
            )
        &&& forall|s: i32, t: i32| #[trigger]
            self.threads.dom().contains(s) && #[trigger] self.threads.dom().contains(t) && s != t
                ==> self.threads[s].handle != self.threads[t].handle
        &&& forall|t: i32, i: int| #[trigger]
            self.threads.dom().contains(t) && 0 <= i < self.ended_threads.len()
                ==> self.threads[t].handle != (#[trigger] self.ended_threads[i]).handle
        &&& forall|i: int, j: int|
            0 <= i < j < self.ended_threads.len() ==> (#[trigger] self.ended_threads[i]).handle != (
            #[trigger] self.ended_threads[j]).handle
    }
}

impl RecordingView {
    /// Whether the handles of all processes and threads are those of entries
    /// that add them, and no two of them have the same one.
    pub open spec fn handles_ok(self) -> bool {
        &&& forall|pid: i32| #[trigger]
            self.processes.dom().contains(pid) ==> self.processes[pid].handles_ok(self.entries)
        &&& forall|i: int|
            0 <= i < self.ended_processes.len() ==> adds_process(
                self.entries,
                (#[trigger] self.ended_processes[i]).handle,
            ) && adds_thread(
                self.entries,
                self.ended_processes[i].main_thread,
                self.ended_processes[i].handle,
                true,
            )
        &&& forall|p: i32, q: i32| #[trigger]
            self.processes.dom().contains(p) && #[trigger] self.processes.dom().contains(q) && p
                != q ==> self.processes[p].handle != self.processes[q].handle
        &&& forall|p: i32, i: int| #[trigger]
            self.processes.dom().contains(p) && 0 <= i < self.ended_processes.len()
                ==> self.processes[p].handle != (#[trigger] self.ended_processes[i]).handle
        &&& forall|i: int, j: int|
            0 <= i < j < self.ended_processes.len() ==> (#[trigger] self.ended_processes[i]).handle
                != (#[trigger] self.ended_processes[j]).handle
    }

    /// Whether no frame of the threads' saved stacks lies in the kernel.
    pub open spec fn stacks_ok(self) -> bool {
        forall|pid: i32| #[trigger]
            self.processes.dom().contains(pid) ==> self.processes[pid].stacks_ok()
    }

    /// Whether nothing can be taken up again.
    pub open spec fn nothing_ended(self) -> bool {
        &&& self.ended_processes.len() == 0
        &&& forall|pid: i32| #[trigger]
            self.processes.dom().contains(pid) ==> self.processes[pid].ended_threads.len() == 0
    }
}

/// The thread names that the product was named after.
pub open spec fn product_names(entries: Seq<EntryView>) -> Seq<Seq<char>>
    decreases entries.len(),
{
    if entries.len() == 0 {
        Seq::empty()
    } else {
        let before = product_names(entries.drop_last());
        match entries.last() {
            EntryView::SetProductFromThread { thread_name } => before.push(thread_name),
            _ => before,
        }
    }
}

/// Whether a recording moved on: entries were only appended, the product was
/// not named, handles still belong to what they stand for, saved stacks have
/// no kernel frames, and what ended is only kept for later where threads are
/// merged.
spec fn moves_on(a: RecordingView, b: RecordingView) -> bool {
    &&& a.merge_threads == b.merge_threads
    &&& a.entries.is_prefix_of(b.entries)
    &&& product_names(a.entries) == product_names(b.entries)
    &&& a.handles_ok() ==> b.handles_ok()
    &&& a.stacks_ok() ==> b.stacks_ok()
    &&& !a.merge_threads && a.nothing_ended() ==> b.nothing_ended()
}

/// Whether a recording moved on, and new entries speak of what was added
/// before.
spec fn goes_on(a: RecordingView, b: RecordingView) -> bool {
    &&& moves_on(a, b)
    &&& a.handles_ok() && entries_ok(a.entries) ==> entries_ok(b.entries)
}

proof fn lemma_goes_on_trans(a: RecordingView, b: RecordingView, c: RecordingView)
    requires
        goes_on(a, b),
        goes_on(b, c),
    ensures
        goes_on(a, c),
{
}

proof fn lemma_entry_pushed(entries: Seq<EntryView>, entry: EntryView)
    requires
        entries_ok(entries),
        refers_back(entries, entry),
    ensures
        entries_ok(entries.push(entry)),
{
    let after = entries.push(entry);
    assert forall|i: int| 0 <= i < after.len() implies refers_back(
        after.take(i),
        #[trigger] after[i],
    ) by {
        if i < entries.len() {
            assert(after.take(i) =~= entries.take(i));
            assert(after[i] == entries[i]);
        } else {
            assert(after.take(i) =~= entries);
        }
    }
}

proof fn lemma_logged(a: RecordingView, entry: EntryView)
    requires
        !(entry is SetProductFromThread),
        a.handles_ok() ==> refers_back(a.entries, entry),
    ensures
        goes_on(a, a.logged(entry)),
{
    lemma_moved_on(a, entry);
    if a.handles_ok() && entries_ok(a.entries) {
        lemma_entry_pushed(a.entries, entry);
    }
}

proof fn lemma_moved_on(a: RecordingView, entry: EntryView)
    requires
        !(entry is SetProductFromThread),
    ensures
        moves_on(a, a.logged(entry)),
{
    let b = a.logged(entry);
    assert(b.entries.drop_last() =~= a.entries);
    if a.handles_ok() {
        assert forall|pid: i32| #[trigger]
            b.processes.dom().contains(pid) implies b.processes[pid].handles_ok(b.entries) by {
            assert(a.processes[pid].handles_ok(a.entries));
        }
    }
}

proof fn lemma_live_process(a: RecordingView, pid: i32)
    ensures
        goes_on(a, a.with_live_process(pid)),
        a.with_live_process(pid).processes.dom().contains(pid),
{
    if !a.processes.dom().contains(pid) {
        let handle = a.entries.len();
        let one = a.logged(EntryView::AddProcess { pid });
        lemma_logged(a, EntryView::AddProcess { pid });
        let thread = EntryView::AddThread { process: handle, tid: pid, is_main: true };
        lemma_logged(one, thread);
        let two = one.logged(thread);
        lemma_goes_on_trans(a, one, two);
        let b = a.with_live_process(pid);
        if a.handles_ok() {
            assert forall|p: i32| #[trigger]
                b.processes.dom().contains(p) implies b.processes[p].handles_ok(b.entries) by {
                if p != pid {
                    assert(two.processes.dom().contains(p));
                }
            }
            assert forall|p: i32, q: i32| #[trigger]
                b.processes.dom().contains(p) && #[trigger] b.processes.dom().contains(q) && p
                    != q implies b.processes[p].handle != b.processes[q].handle by {
                assert(p != pid ==> a.processes[p].handles_ok(a.entries));
                assert(q != pid ==> a.processes[q].handles_ok(a.entries));
            }
        }
    }
}

proof fn lemma_live_thread(a: RecordingView, pid: i32, tid: i32)
    requires
        a.processes.dom().contains(pid),
    ensures
        goes_on(a, a.with_live_thread(pid, tid)),
        a.with_live_thread(pid, tid).processes.dom().contains(pid),
        a.with_live_thread(pid, tid).processes[pid].has_thread(pid, tid),
{
    let process = a.processes[pid];
    if !process.has_thread(pid, tid) {
        let entry = EntryView::AddThread { process: process.handle, tid, is_main: false };
        lemma_logged(a, entry);
        let one = a.logged(entry);
        let b = a.with_live_thread(pid, tid);
        if a.handles_ok() {
            assert(process.handles_ok(a.entries));
            assert(one.processes[pid].handles_ok(one.entries));
            assert(b.processes[pid].handles_ok(b.entries));
            assert forall|p: i32| #[trigger]
                b.processes.dom().contains(p) implies b.processes[p].handles_ok(b.entries) by {
                assert(one.processes.dom().contains(p));
            }
        }
    }
}

/// Whether two states of a process differ in nothing that concerns handles.
spec fn same_handles(a: ProcessView, b: ProcessView) -> bool {
    &&& a.handle == b.handle
    &&& a.main_thread.handle == b.main_thread.handle
    &&& a.threads.dom() == b.threads.dom()
    &&& forall|tid: i32| #[trigger]
        a.threads.dom().contains(tid) ==> a.threads[tid].handle == b.threads[tid].handle
    &&& a.ended_threads == b.ended_threads
}

proof fn lemma_process_changed(a: RecordingView, pid: i32, process: ProcessView)
    requires
        a.processes.dom().contains(pid),
        same_handles(a.processes[pid], process),
        a.stacks_ok() ==> process.stacks_ok(),
    ensures
        goes_on(a, a.with_process(pid, process)),
        a.with_process(pid, process).processes.dom().contains(pid),
{
    let b = a.with_process(pid, process);
    if a.handles_ok() {
        assert(a.processes[pid].handles_ok(a.entries));
        assert(process.handles_ok(a.entries)) by {
            assert forall|t: i32, i: int| #[trigger]
                process.threads.dom().contains(t) && 0 <= i
                    < process.ended_threads.len() implies process.threads[t].handle != (
            #[trigger] process.ended_threads[i]).handle by {
                assert(a.processes[pid].threads.dom().contains(t));
                assert(a.processes[pid].ended_threads[i] == process.ended_threads[i]);
            }
        }
        assert forall|p: i32| #[trigger]
            b.processes.dom().contains(p) implies b.processes[p].handles_ok(b.entries) by {
            assert(a.processes.dom().contains(p));
        }
    }
}

proof fn lemma_thread_changed(a: RecordingView, pid: i32, tid: i32, thread: ThreadView)
    requires
        a.processes.dom().contains(pid),
        a.processes[pid].has_thread(pid, tid),
        a.thread(pid, tid).handle == thread.handle,
        a.stacks_ok() ==> thread.stack_ok(),
    ensures
        goes_on(a, a.with_thread(pid, tid, thread)),
        a.with_thread(pid, tid, thread).processes.dom().contains(pid),
        a.with_thread(pid, tid, thread).processes[pid].has_thread(pid, tid),
{
    let process = a.processes[pid].with_thread(pid, tid, thread);
    assert(a.processes[pid].threads.dom() =~= process.threads.dom());
    lemma_process_changed(a, pid, process);
}

proof fn lemma_process_ended(a: RecordingView, pid: i32, time: u64)
    ensures
        goes_on(a, a.without_process(pid, time)),
{
    if a.processes.dom().contains(pid) {
        let process = a.processes[pid];
        let entry = EntryView::EndProcess { process: process.handle, time };
        lemma_logged(a, entry);
        let one = a.logged(entry);
        let b = a.without_process(pid, time);
        if a.handles_ok() {
            assert(one.processes[pid].handles_ok(one.entries));
            assert forall|p: i32| #[trigger]
                b.processes.dom().contains(p) implies b.processes[p].handles_ok(b.entries) by {
                assert(one.processes.dom().contains(p));
            }
            assert forall|p: i32, i: int| #[trigger]
                b.processes.dom().contains(p) && 0 <= i
                    < b.ended_processes.len() implies b.processes[p].handle != (
            #[trigger] b.ended_processes[i]).handle by {
                assert(a.processes.dom().contains(p));
                if i < a.ended_processes.len() {
                    assert(b.ended_processes[i] == a.ended_processes[i]);
                }
            }
            assert forall|i: int| 0 <= i < b.ended_processes.len() implies adds_process(
                b.entries,
                (#[trigger] b.ended_processes[i]).handle,
            ) && adds_thread(
                b.entries,
                b.ended_processes[i].main_thread,
                b.ended_processes[i].handle,
                true,
            ) by {
                if i < a.ended_processes.len() {
                    assert(b.ended_processes[i] == one.ended_processes[i]);
                }
            }
            assert forall|i: int, j: int| 0 <= i < j < b.ended_processes.len() implies (
            #[trigger] b.ended_processes[i]).handle != (#[trigger] b.ended_processes[j]).handle by {
                assert(b.ended_processes[i] == a.ended_processes[i]);
                if j < a.ended_processes.len() {
                    assert(b.ended_processes[j] == a.ended_processes[j]);
                }
            }
        }
    }
}

pub(crate) proof fn lemma_first_process_named(ended: Seq<EndedProcessView>, name: Seq<char>)
    ensures
        0 <= first_process_named(ended, name) <= ended.len(),
        first_process_named(ended, name) < ended.len() ==> ended[first_process_named(
            ended,
            name,
        )].name == name,
        forall|i: int|
            0 <= i < first_process_named(ended, name) ==> (#[trigger] ended[i]).name != name,
    decreases ended.len(),
{
    if ended.len() > 0 && ended[0].name != name {
        let rest = ended.skip(1);
        lemma_first_process_named(rest, name);
        assert forall|i: int| 0 <= i < first_process_named(ended, name) implies (
        #[trigger] ended[i]).name != name by {
            if i > 0 {
                assert(rest[i - 1] == ended[i]);
            }
        }
    }
}

pub(crate) proof fn lemma_first_thread_named(ended: Seq<EndedThreadView>, name: Seq<char>)
    ensures
        0 <= first_thread_named(ended, name) <= ended.len(),
        first_thread_named(ended, name) < ended.len() ==> ended[first_thread_named(
            ended,
            name,
        )].name == name,
        forall|i: int|
            0 <= i < first_thread_named(ended, name) ==> (#[trigger] ended[i]).name != name,
    decreases ended.len(),
{
    if ended.len() > 0 && ended[0].name != name {
        let rest = ended.skip(1);
        lemma_first_thread_named(rest, name);
        assert forall|i: int| 0 <= i < first_thread_named(ended, name) implies (
        #[trigger] ended[i]).name != name by {
            if i > 0 {
                assert(rest[i - 1] == ended[i]);
            }
        }
    }
}

proof fn lemma_process_reused(a: RecordingView, pid: i32, name: Seq<char>)
    ensures
        goes_on(a, a.with_reused_process(pid, name)),
        a.can_reuse_process(name) ==> a.with_reused_process(pid, name).processes.dom().contains(
            pid,
        ),
{
    lemma_first_process_named(a.ended_processes, name);
    if a.can_reuse_process(name) {
        let at = first_process_named(a.ended_processes, name);
        let b = a.with_reused_process(pid, name);
        if a.handles_ok() {
            assert forall|p: i32| #[trigger]
                b.processes.dom().contains(p) implies b.processes[p].handles_ok(b.entries) by {
                if p != pid {
                    assert(a.processes.dom().contains(p));
                } else {
                    assert(adds_process(a.entries, a.ended_processes[at].handle));
                }
            }
            assert forall|i: int| 0 <= i < b.ended_processes.len() implies adds_process(
                b.entries,
                (#[trigger] b.ended_processes[i]).handle,
            ) && adds_thread(
                b.entries,
                b.ended_processes[i].main_thread,
                b.ended_processes[i].handle,
                true,
            ) by {
                let k = if i < at {
                    i
                } else {
                    i + 1
                };
                assert(b.ended_processes[i] == a.ended_processes[k]);
            }
            assert forall|p: i32, q: i32| #[trigger]
                b.processes.dom().contains(p) && #[trigger] b.processes.dom().contains(q) && p
                    != q implies b.processes[p].handle != b.processes[q].handle by {
                let other = if p == pid {
                    q
                } else {
                    p
                };
                assert(a.processes.dom().contains(other));
                assert(a.processes[other].handle != a.ended_processes[at].handle);
                if p != pid && q != pid {
                    assert(a.processes.dom().contains(p) && a.processes.dom().contains(q));
                }
            }
            assert forall|p: i32, i: int| #[trigger]
                b.processes.dom().contains(p) && 0 <= i
                    < b.ended_processes.len() implies b.processes[p].handle != (
            #[trigger] b.ended_processes[i]).handle by {
                let k = if i < at {
                    i
                } else {
                    i + 1
                };
                assert(b.ended_processes[i] == a.ended_processes[k]);
                if p != pid {
                    assert(a.processes.dom().contains(p));
                } else if k < at {
                    assert(a.ended_processes[k].handle != a.ended_processes[at].handle);
                } else {
                    assert(a.ended_processes[at].handle != a.ended_processes[k].handle);
                }
            }
            assert forall|i: int, j: int| 0 <= i < j < b.ended_processes.len() implies (
            #[trigger] b.ended_processes[i]).handle != (#[trigger] b.ended_processes[j]).handle by {
                let k = if i < at {
                    i
                } else {
                    i + 1
                };
                let l = if j < at {
                    j
                } else {
                    j + 1
                };
                assert(b.ended_processes[i] == a.ended_processes[k]);
                assert(b.ended_processes[j] == a.ended_processes[l]);
            }
        }
    }
}

proof fn lemma_thread_ended(a: RecordingView, pid: i32, tid: i32, time: u64)
    requires
        a.processes.dom().contains(pid),
    ensures
        goes_on(a, a.without_thread(pid, tid, time)),
        a.without_thread(pid, tid, time).processes.dom().contains(pid),
{
    let process = a.processes[pid];
    if tid != pid && process.threads.dom().contains(tid) {
        let entry = EntryView::EndThread { thread: process.threads[tid].handle, time };
        lemma_logged(a, entry);
        let one = a.logged(entry);
        let b = a.without_thread(pid, tid, time);
        let after = b.processes[pid];
        if a.handles_ok() {
            assert(one.processes[pid].handles_ok(one.entries));
            assert(after.handles_ok(b.entries)) by {
                assert forall|i: int| 0 <= i < after.ended_threads.len() implies adds_thread(
                    b.entries,
                    (#[trigger] after.ended_threads[i]).handle,
                    after.handle,
                    false,
                ) by {
                    if i < process.ended_threads.len() {
                        assert(after.ended_threads[i] == one.processes[pid].ended_threads[i]);
                    }
                }
                assert forall|t: i32, i: int| #[trigger]
                    after.threads.dom().contains(t) && 0 <= i
                        < after.ended_threads.len() implies after.threads[t].handle != (
                #[trigger] after.ended_threads[i]).handle by {
                    assert(process.threads.dom().contains(t));
                    if i < process.ended_threads.len() {
                        assert(after.ended_threads[i] == one.processes[pid].ended_threads[i]);
                    }
                }
                assert forall|i: int, j: int| 0 <= i < j < after.ended_threads.len() implies (
                #[trigger] after.ended_threads[i]).handle != (
                #[trigger] after.ended_threads[j]).handle by {
                    assert(after.ended_threads[i] == one.processes[pid].ended_threads[i]);
                    if j < process.ended_threads.len() {
                        assert(after.ended_threads[j] == one.processes[pid].ended_threads[j]);
                    }
                }
            }
            assert forall|p: i32| #[trigger]
                b.processes.dom().contains(p) implies b.processes[p].handles_ok(b.entries) by {
                assert(one.processes.dom().contains(p));
            }
        }
    }
}

proof fn lemma_thread_reused(a: RecordingView, pid: i32, tid: i32, name: Seq<char>)
    requires
        a.processes.dom().contains(pid),
    ensures
        goes_on(a, a.with_reused_thread(pid, tid, name)),
        a.with_reused_thread(pid, tid, name).processes.dom().contains(pid),
{
    let process = a.processes[pid];
    lemma_first_thread_named(process.ended_threads, name);
    if a.can_reuse_thread(pid, tid, name) {
        let at = first_thread_named(process.ended_threads, name);
        let b = a.with_reused_thread(pid, tid, name);
        let after = b.processes[pid];
        if a.handles_ok() {
            assert(process.handles_ok(a.entries));
            assert(adds_thread(a.entries, process.ended_threads[at].handle, process.handle, false));
            assert(after.handles_ok(b.entries)) by {
                assert forall|t: i32| #[trigger] after.threads.dom().contains(t) implies adds_thread(
                    b.entries,
                    after.threads[t].handle,
                    after.handle,
                    false,
                ) by {
                    if t != tid {
                        assert(process.threads.dom().contains(t));
                    }
                }
                assert forall|i: int| 0 <= i < after.ended_threads.len() implies adds_thread(
                    b.entries,
                    (#[trigger] after.ended_threads[i]).handle,
                    after.handle,
                    false,
                ) by {
                    let k = if i < at {
                        i
                    } else {
                        i + 1
                    };
                    assert(after.ended_threads[i] == process.ended_threads[k]);
                }
                assert forall|s: i32, t: i32| #[trigger]
                    after.threads.dom().contains(s) && #[trigger] after.threads.dom().contains(t)
                        && s != t implies after.threads[s].handle != after.threads[t].handle by {
                    let other = if s == tid {
                        t
                    } else {
                        s
                    };
                    assert(process.threads.dom().contains(other));
                    assert(process.threads[other].handle != process.ended_threads[at].handle);
                    if s != tid && t != tid {
                        assert(process.threads.dom().contains(s) && process.threads.dom().contains(
                            t,
                        ));
                    }
                }
                assert forall|t: i32, i: int| #[trigger]
                    after.threads.dom().contains(t) && 0 <= i
                        < after.ended_threads.len() implies after.threads[t].handle != (
                #[trigger] after.ended_threads[i]).handle by {
                    let k = if i < at {
                        i
                    } else {
                        i + 1
                    };
                    assert(after.ended_threads[i] == process.ended_threads[k]);
                    if t != tid {
                        assert(process.threads.dom().contains(t));
                    } else if k < at {
                        assert(process.ended_threads[k].handle != process.ended_threads[at].handle);
                    } else {
                        assert(process.ended_threads[at].handle != process.ended_threads[k].handle);
                    }
                }
                assert forall|i: int, j: int| 0 <= i < j < after.ended_threads.len() implies (
                #[trigger] after.ended_threads[i]).handle != (
                #[trigger] after.ended_threads[j]).handle by {
                    let k = if i < at {
                        i
                    } else {
                        i + 1
                    };
                    let l = if j < at {
                        j
                    } else {
                        j + 1
                    };
                    assert(after.ended_threads[i] == process.ended_threads[k]);
                    assert(after.ended_threads[j] == process.ended_threads[l]);
                }
            }
            assert forall|p: i32| #[trigger]
                b.processes.dom().contains(p) implies b.processes[p].handles_ok(b.entries) by {
                assert(a.processes.dom().contains(p));
            }
        }
    }
}

proof fn lemma_logged_all(a: RecordingView, entries: Seq<EntryView>)
    requires
        forall|i: int| 0 <= i < entries.len() ==> !((#[trigger] entries[i]) is SetProductFromThread),
        a.handles_ok() ==> forall|i: int|
            0 <= i < entries.len() ==> refers_back(a.entries, #[trigger] entries[i]),
    ensures
        goes_on(a, a.logged_all(entries)),
    decreases entries.len(),
{
    if entries.len() == 0 {
        assert(a.logged_all(entries) =~= a);
    } else {
        let rest = entries.drop_last();
        assert forall|i: int| 0 <= i < rest.len() implies !((
        #[trigger] rest[i]) is SetProductFromThread) by {
            assert(rest[i] == entries[i]);
        }
        if a.handles_ok() {
            assert forall|i: int| 0 <= i < rest.len() implies refers_back(
                a.entries,
                #[trigger] rest[i],
            ) by {
                assert(rest[i] == entries[i]);
            }
        }
        lemma_logged_all(a, rest);
        let b = a.logged_all(rest);
        let last = entries.last();
        lemma_moved_on(b, last);
        assert(b.logged(last) =~= a.logged_all(entries));
        if a.handles_ok() {
            assert(refers_back(a.entries, entries[entries.len() - 1]));
            assert(refers_back(b.entries, last));
            lemma_logged(b, last);
            lemma_goes_on_trans(a, b, a.logged_all(entries));
        }
    }
}

proof fn lemma_seen(a: RecordingView, pid: i32, tid: i32)
    ensures
        ({
            let b = a.with_live_process(pid).with_live_thread(pid, tid);
            &&& goes_on(a, b)
            &&& b.processes.dom().contains(pid)
            &&& b.processes[pid].has_thread(pid, tid)
        }),
{
    let live = a.with_live_process(pid);
    lemma_live_process(a, pid);
    lemma_live_thread(live, pid, tid);
    lemma_goes_on_trans(a, live, live.with_live_thread(pid, tid));
}

proof fn lemma_checked_and_seen(a: RecordingView, pid: i32, tid: i32)
    ensures
        ({
            let b = a.jitdump_checked(pid).with_live_thread(pid, tid);
            &&& goes_on(a, b)
            &&& b.processes.dom().contains(pid)
            &&& b.processes[pid].has_thread(pid, tid)
        }),
{
    let live = a.with_live_process(pid);
    lemma_live_process(a, pid);
    lemma_logged(live, EntryView::CheckJitdump { process: live.processes[pid].handle });
    let checked = a.jitdump_checked(pid);
    lemma_goes_on_trans(a, live, checked);
    lemma_live_thread(checked, pid, tid);
    lemma_goes_on_trans(a, checked, checked.with_live_thread(pid, tid));
}

proof fn lemma_sample(state: ConverterView, e: SampleRecord)
    ensures
        goes_on(state.recording, state.after_sample(e).recording),
{
    let a = state.recording;
    let pid = e.pid->0;
    let tid = e.tid->0;
    let timestamp = e.timestamp->0;
    let seen = a.jitdump_checked(pid).with_live_thread(pid, tid);
    lemma_checked_and_seen(a, pid, tid);
    let thread = seen.thread(pid, tid);
    if thread.last_sample_timestamp != Some(timestamp) {
        let end = state.after_sample(e).recording;
        let changed = seen.with_thread(pid, tid, end.thread(pid, tid));
        let entries = thread.pause_entries(state.settings, timestamp);
        let mid = changed.logged_all(entries);
        lemma_thread_changed(seen, pid, tid, end.thread(pid, tid));
        lemma_logged_all(changed, entries);
        lemma_goes_on_trans(seen, changed, mid);
        lemma_logged(mid, end.entries.last());
        assert(end =~= mid.logged(end.entries.last()));
        lemma_goes_on_trans(seen, mid, end);
        lemma_goes_on_trans(a, seen, end);
    }
}

proof fn lemma_sched_switch(state: ConverterView, e: SampleRecord)
    ensures
        goes_on(state.recording, state.after_sched_switch(e).recording),
{
    let a = state.recording;
    let pid = e.pid->0;
    let tid = e.tid->0;
    let seen = a.jitdump_checked(pid).with_live_thread(pid, tid);
    let end = state.after_sched_switch(e).recording;
    lemma_checked_and_seen(a, pid, tid);
    lemma_thread_changed(seen, pid, tid, end.thread(pid, tid));
    lemma_goes_on_trans(a, seen, end);
}

proof fn lemma_rss_stat(state: ConverterView, e: SampleRecord, rss_stat: Option<RssStat>)
    ensures
        goes_on(state.recording, state.after_rss_stat(e, rss_stat).recording),
{
    let a = state.recording;
    let pid = e.pid->0;
    let live = a.with_live_process(pid);
    let end = state.after_rss_stat(e, rss_stat).recording;
    lemma_live_process(a, pid);
    if rss_stat is Some && e.timestamp is Some && rss_stat->0.kind() is Some {
        let changed = live.with_process(pid, end.processes[pid]);
        lemma_process_changed(live, pid, end.processes[pid]);
        let entries = end.entries.skip(live.entries.len() as int);
        assert(end =~= changed.logged_all(entries));
        lemma_logged_all(changed, entries);
        lemma_goes_on_trans(live, changed, end);
        lemma_goes_on_trans(a, live, end);
    }
}

proof fn lemma_other_event(state: ConverterView, e: SampleRecord, attr_index: usize)
    ensures
        goes_on(state.recording, state.after_other_event_sample(e, attr_index).recording),
{
    let a = state.recording;
    let pid = e.pid->0;
    let tid = match e.tid {
        Some(tid) => tid,
        None => pid,
    };
    let seen = a.jitdump_checked(pid).with_live_thread(pid, tid);
    let end = state.after_other_event_sample(e, attr_index).recording;
    lemma_checked_and_seen(a, pid, tid);
    lemma_logged(seen, end.entries.last());
    assert(end =~= seen.logged(end.entries.last()));
    lemma_goes_on_trans(a, seen, end);
}

proof fn lemma_context_switch(state: ConverterView, e: ContextSwitchRecord, common: CommonData)
    ensures
        goes_on(state.recording, state.after_context_switch(e, common).recording),
{
    let a = state.recording;
    let pid = common.pid->0;
    let tid = common.tid->0;
    let seen = a.with_live_process(pid).with_live_thread(pid, tid);
    let end = state.after_context_switch(e, common).recording;
    lemma_seen(a, pid, tid);
    let changed = seen.with_thread(pid, tid, end.thread(pid, tid));
    lemma_thread_changed(seen, pid, tid, end.thread(pid, tid));
    lemma_goes_on_trans(a, seen, changed);
    match e {
        ContextSwitchRecord::In => {
            let entries = seen.thread(pid, tid).pause_entries(
                state.settings,
                common.timestamp->0,
            );
            lemma_logged_all(changed, entries);
            assert(end =~= changed.logged_all(entries));
            lemma_goes_on_trans(a, changed, end);
        },
        ContextSwitchRecord::Out => {
            assert(end =~= changed);
        },
    }
}

proof fn lemma_thread_name_logged(a: RecordingView, pid: i32, tid: i32)
    requires
        a.processes.dom().contains(pid),
        a.processes[pid].has_thread(pid, tid),
    ensures
        goes_on(a, a.thread_name_logged(pid, tid)),
{
    let thread = a.thread(pid, tid);
    if thread.name is Some {
        lemma_logged(
            a,
            EntryView::SetThreadName { thread: thread.handle, name: thread.name->0 },
        );
    }
}

proof fn lemma_forked_process(a: RecordingView, e: ForkOrExitRecord)
    ensures
        goes_on(a, a.with_forked_process(e)),
{
    let parent = a.with_live_process(e.ppid).with_live_thread(e.ppid, e.ptid);
    lemma_seen(a, e.ppid, e.ptid);
    let process_name = parent.processes[e.ppid].name;
    let thread_name = parent.thread(e.ppid, e.ptid).name;
    let reused = if process_name is Some {
        parent.with_reused_process(e.pid, process_name->0)
    } else {
        parent
    };
    if process_name is Some {
        lemma_process_reused(parent, e.pid, process_name->0);
        lemma_goes_on_trans(a, parent, reused);
    }
    let live = reused.with_live_process(e.pid);
    lemma_live_process(reused, e.pid);
    lemma_goes_on_trans(a, reused, live);
    let named = live.with_process_name(e.pid, process_name);
    lemma_process_changed(live, e.pid, named.processes[e.pid]);
    lemma_goes_on_trans(a, live, named);
    let thread_named = named.with_thread_name(e.pid, e.pid, thread_name);
    lemma_thread_changed(named, e.pid, e.pid, thread_named.thread(e.pid, e.pid));
    lemma_goes_on_trans(a, named, thread_named);
    let child = thread_named.thread_name_logged(e.pid, e.pid);
    lemma_thread_name_logged(thread_named, e.pid, e.pid);
    lemma_goes_on_trans(a, thread_named, child);
    let started = child.process_start_logged(e.pid, e.timestamp);
    lemma_logged(child, started.entries.last());
    lemma_goes_on_trans(a, child, started);
    let both = started.thread_start_logged(e.pid, e.pid, e.timestamp);
    lemma_logged(started, both.entries.last());
    lemma_goes_on_trans(a, started, both);
}

proof fn lemma_forked_thread(a: RecordingView, e: ForkOrExitRecord)
    ensures
        goes_on(a, a.with_forked_thread(e)),
{
    let parent = a.with_live_process(e.ppid).with_live_thread(e.ppid, e.ptid);
    lemma_seen(a, e.ppid, e.ptid);
    let name = parent.thread(e.ppid, e.ptid).name;
    let reused = if name is Some {
        parent.with_reused_thread(e.ppid, e.tid, name->0)
    } else {
        parent
    };
    if name is Some {
        lemma_thread_reused(parent, e.ppid, e.tid, name->0);
        lemma_goes_on_trans(a, parent, reused);
    }
    let live = reused.with_live_thread(e.ppid, e.tid);
    lemma_live_thread(reused, e.ppid, e.tid);
    lemma_goes_on_trans(a, reused, live);
    let child = live.with_thread_name(e.ppid, e.tid, name);
    lemma_thread_changed(live, e.ppid, e.tid, child.thread(e.ppid, e.tid));
    lemma_goes_on_trans(a, live, child);
    let named = child.thread_name_logged(e.ppid, e.tid);
    lemma_thread_name_logged(child, e.ppid, e.tid);
    lemma_goes_on_trans(a, child, named);
    let started = named.thread_start_logged(e.ppid, e.tid, e.timestamp);
    lemma_logged(named, started.entries.last());
    lemma_goes_on_trans(a, named, started);
}

proof fn lemma_ended(a: RecordingView, pid: i32, tid: i32, time: u64)
    ensures
        goes_on(a, a.with_ended_thread(pid, tid, time)),
        pid != tid ==> a.with_ended_thread(pid, tid, time).processes.dom().contains(pid),
{
    if pid == tid {
        lemma_process_ended(a, pid, time);
    } else {
        let live = a.with_live_process(pid);
        lemma_live_process(a, pid);
        lemma_thread_ended(live, pid, tid, time);
        lemma_goes_on_trans(a, live, live.without_thread(pid, tid, time));
    }
}

/// Whether a name is the one that the product gets named after.
pub open spec fn names_product(state: ConverterView, name: Seq<char>) -> bool {
    state.product_name_pending && name != "perf-exec"@
}

/// Whether a recording went on, with the product named after a thread where a
/// name is given.
spec fn goes_on_naming(
    a: RecordingView,
    b: RecordingView,
    product: Option<Seq<char>>,
) -> bool {
    &&& a.merge_threads == b.merge_threads
    &&& a.entries.is_prefix_of(b.entries)
    &&& product_names(b.entries) == (match product {
        Some(name) => product_names(a.entries).push(name),
        None => product_names(a.entries),
    })
    &&& a.handles_ok() ==> b.handles_ok()
    &&& a.handles_ok() && entries_ok(a.entries) ==> entries_ok(b.entries)
    &&& a.stacks_ok() ==> b.stacks_ok()
    &&& !a.merge_threads && a.nothing_ended() ==> b.nothing_ended()
}

proof fn lemma_name_set(
    state: ConverterView,
    pid: i32,
    tid: i32,
    name: Seq<char>,
    is_thread_creation: bool,
)
    ensures
        goes_on_naming(
            state.recording,
            state.with_name_set(pid, tid, name, is_thread_creation).recording,
            if names_product(state, name) {
                Some(name)
            } else {
                None
            },
        ),
{
    let a = state.recording;
    let seen = a.with_live_process(pid).with_live_thread(pid, tid);
    lemma_seen(a, pid, tid);
    let thread_named = seen.with_thread_name(pid, tid, Some(name));
    lemma_thread_changed(seen, pid, tid, thread_named.thread(pid, tid));
    lemma_goes_on_trans(a, seen, thread_named);
    let named = thread_named.thread_name_logged(pid, tid);
    lemma_thread_name_logged(thread_named, pid, tid);
    lemma_goes_on_trans(a, thread_named, named);
    let process_named = named.with_process_name(pid, Some(name));
    lemma_process_changed(named, pid, process_named.processes[pid]);
    lemma_goes_on_trans(a, named, process_named);
    let entry = EntryView::SetProcessName { process: named.processes[pid].handle, name };
    lemma_logged(process_named, entry);
    lemma_goes_on_trans(a, process_named, process_named.logged(entry));
    let renamed = if pid == tid {
        process_named.logged(entry)
    } else {
        named
    };
    let thread_started = renamed.thread_start_logged(pid, tid, state.current_sample_time);
    lemma_logged(renamed, thread_started.entries.last());
    lemma_goes_on_trans(a, renamed, thread_started);
    let both_started = thread_started.process_start_logged(pid, state.current_sample_time);
    lemma_logged(thread_started, both_started.entries.last());
    lemma_goes_on_trans(a, thread_started, both_started);
    let started = if is_thread_creation {
        if pid == tid {
            both_started
        } else {
            thread_started
        }
    } else {
        renamed
    };
    assert(goes_on(a, started));
    lemma_product_logged(started, name);
}

proof fn lemma_product_logged(a: RecordingView, name: Seq<char>)
    ensures
        goes_on_naming(
            a,
            a.logged(EntryView::SetProductFromThread { thread_name: name }),
            Some(name),
        ),
{
    let b = a.logged(EntryView::SetProductFromThread { thread_name: name });
    assert(b.entries.drop_last() =~= a.entries);
    if entries_ok(a.entries) {
        lemma_entry_pushed(a.entries, EntryView::SetProductFromThread { thread_name: name });
    }
    if a.handles_ok() {
        assert forall|pid: i32| #[trigger]
            b.processes.dom().contains(pid) implies b.processes[pid].handles_ok(b.entries) by {
            assert(a.processes[pid].handles_ok(a.entries));
        }
    }
}

proof fn lemma_name_update(
    state: ConverterView,
    pid: i32,
    tid: i32,
    name: Seq<char>,
    is_execve: bool,
    timestamp: Option<u64>,
)
    ensures
        goes_on_naming(
            state.recording,
            state.after_thread_name_update(pid, tid, name, is_execve, timestamp).recording,
            if names_product(state, name) {
                Some(name)
            } else {
                None
            },
        ),
{
    if is_execve || (state.recording.merge_threads && pid != tid) {
        let a = state.recording;
        let ended = a.with_ended_thread(pid, tid, state.time_of(timestamp));
        lemma_ended(a, pid, tid, state.time_of(timestamp));
        let reused = if pid == tid {
            ended.with_reused_process(pid, name)
        } else {
            ended.with_reused_thread(pid, tid, name)
        };
        let creation = if pid == tid {
            lemma_process_reused(ended, pid, name);
            !ended.can_reuse_process(name)
        } else {
            lemma_thread_reused(ended, pid, tid, name);
            !ended.can_reuse_thread(pid, tid, name)
        };
        lemma_goes_on_trans(a, ended, reused);
        let mid = ConverterView { recording: reused, ..state };
        lemma_name_set(mid, pid, tid, name, creation);
    } else {
        lemma_name_set(state, pid, tid, name, false);
    }
}

proof fn lemma_mapping(
    state: ConverterView,
    pid: i32,
    path: Seq<u8>,
    page_offset: u64,
    address: u64,
    image: Option<Seq<u8>>,
)
    ensures
        goes_on(
            state.recording,
            state.after_mapping(pid, path, page_offset, address, image).recording,
        ),
{
    let a = state.recording;
    let b = state.after_mapping(pid, path, page_offset, address, image).recording;
    if jitdump_path(path) is Some {
        let live = a.with_live_process(pid);
        lemma_live_process(a, pid);
        lemma_logged(live, b.entries.last());
        lemma_goes_on_trans(a, live, b);
    }
}

proof fn lemma_library(
    a: RecordingView,
    module: UserModuleView,
    record: LibraryRecordView,
    relative_start: u32,
    jit_symbol: Option<Option<Seq<char>>>,
)
    requires
        a.processes.dom().contains(module.pid),
    ensures
        goes_on(a, a.with_library(module, record, relative_start, jit_symbol)),
{
    let b = a.with_library(module, record, relative_start, jit_symbol);
    let added = a.logged(EntryView::AddLib { record });
    lemma_logged(a, EntryView::AddLib { record });
    lemma_logged(added, b.entries.last());
    lemma_goes_on_trans(a, added, b);
}

proof fn lemma_kernel_module(
    state: ConverterView,
    module: KernelModuleView,
    file_build_id: Option<Seq<u8>>,
)
    ensures
        goes_on(state.recording, state.with_kernel_module(module, file_build_id).recording),
{
    let a = state.recording;
    let b = state.with_kernel_module(module, file_build_id).recording;
    let record = state.settings.kernel_library(module, file_build_id);
    let added = a.logged(EntryView::AddLib { record });
    lemma_logged(a, EntryView::AddLib { record });
    lemma_logged(added, b.entries.last());
    lemma_goes_on_trans(a, added, b);
}

proof fn lemma_module(
    state: ConverterView,
    module: UserModuleView,
    info: FileInfo,
    facts: Option<ModuleFactsView>,
    jit_symbol: Option<Seq<char>>,
)
    ensures
        goes_on(state.recording, state.with_module(module, info, facts, jit_symbol).recording),
{
    let a = state.recording;
    let b = state.with_module(module, info, facts, jit_symbol).recording;
    let live = a.with_live_process(module.pid);
    lemma_live_process(a, module.pid);
    if b != live {
        let record = UserModuleView::library(
            info.path@,
            LibDebugIdView::Known(info.debug_id->0),
            facts->0.build_id,
        );
        let relative_start = relative_address(
            module.mapping_start_avma - state.base_avma(module, info)->0,
        );
        let symbol = if is_injected_name(library_name(info.path@)) {
            Some(jit_symbol)
        } else {
            None
        };
        lemma_library(live, module, record, relative_start, symbol);
        lemma_goes_on_trans(a, live, b);
    }
}

proof fn lemma_missing_module(state: ConverterView, module: UserModuleView)
    ensures
        goes_on(state.recording, state.with_missing_module(module).recording),
{
    let a = state.recording;
    let b = state.with_missing_module(module).recording;
    let live = a.with_live_process(module.pid);
    lemma_live_process(a, module.pid);
    let record = UserModuleView::library(
        decode_utf8(module.path),
        debug_id_of(module.build_id, true),
        module.build_id,
    );
    lemma_library(
        live,
        module,
        record,
        relative_address(module.mapping_start_file_offset as int),
        None,
    );
    lemma_goes_on_trans(a, live, b);
}

impl Record {
    /// The name that the record gives to a thread.
    pub open spec fn thread_name(self) -> Option<Seq<char>> {
        match self {
            Record::ThreadName { pid: _, tid: _, name, is_thread_creation: _ } => Some(name),
            Record::ThreadNameUpdate { pid: _, tid: _, name, is_execve: _, timestamp: _ } => Some(
                name,
            ),
            _ => None,
        }
    }

    /// The name that the product gets named after by this record.
    pub open spec fn product_name(self, state: ConverterView) -> Option<Seq<char>> {
        if self.thread_name() is Some && names_product(state, self.thread_name()->0) {
            self.thread_name()
        } else {
            None
        }
    }
}

proof fn lemma_record(state: ConverterView, record: Record)
    ensures
        goes_on_naming(
            state.recording,
            state.after(record).recording,
            record.product_name(state),
        ),
{
    match record {
        Record::Sample(e) => lemma_sample(state, e),
        Record::SchedSwitch(e) => lemma_sched_switch(state, e),
        Record::RssStat(e, rss_stat) => lemma_rss_stat(state, e, rss_stat),
        Record::OtherEvent(e, attr_index) => lemma_other_event(state, e, attr_index),
        Record::ContextSwitch(e, common) => lemma_context_switch(state, e, common),
        Record::ThreadStart(e) => {
            lemma_forked_process(state.recording, e);
            lemma_forked_thread(state.recording, e);
        },
        Record::ThreadEnd(e) => lemma_ended(state.recording, e.pid, e.tid, e.timestamp),
        Record::ThreadName { pid, tid, name, is_thread_creation } => {
            lemma_name_set(state, pid, tid, name, is_thread_creation)
        },
        Record::ThreadNameUpdate { pid, tid, name, is_execve, timestamp } => {
            lemma_name_update(state, pid, tid, name, is_execve, timestamp)
        },
        Record::Mapping { pid, path, page_offset, address, image } => {
            lemma_mapping(state, pid, path, page_offset, address, image)
        },
        Record::KernelModule { kernel_module, file_build_id } => {
            lemma_kernel_module(state, kernel_module, file_build_id)
        },
        Record::Module { module, info, facts, jit_symbol } => {
            lemma_module(state, module, info, facts, jit_symbol)
        },
        Record::MissingModule { module } => lemma_missing_module(state, module),
    }
}

/// No record takes back or changes a profile entry: entries are only appended.
pub proof fn law_entries_are_only_appended(state: ConverterView, record: Record)
    ensures
        state.recording.entries.is_prefix_of(state.after(record).recording.entries),
{
    lemma_record(state, record);
}

/// The handle of a process or thread, whether live or ended, always is that of
/// the entry that added it, and no two of them ever share one. A thread is
/// always one of the process that it was added to.
pub proof fn law_handles_stay_valid(state: ConverterView, record: Record, merge_threads: bool)
    ensures
        RecordingView::empty(merge_threads).handles_ok(),
        state.recording.handles_ok() ==> state.after(record).recording.handles_ok(),
{
    lemma_record(state, record);
}

/// Every profile entry speaks of processes, threads and libraries that earlier
/// entries added.
pub proof fn law_entries_speak_of_what_was_added(
    state: ConverterView,
    record: Record,
    merge_threads: bool,
)
    requires
        state.recording.handles_ok(),
    ensures
        entries_ok(RecordingView::empty(merge_threads).entries),
        entries_ok(state.recording.entries) ==> entries_ok(state.after(record).recording.entries),
{
    lemma_record(state, record);
}

/// The stack that is saved when a thread is switched out never has kernel
/// frames, and so the off-CPU samples of a pause have none.
pub proof fn law_off_cpu_stacks_have_no_kernel_frames(
    state: ConverterView,
    record: Record,
    merge_threads: bool,
    thread: ThreadView,
    timestamp: u64,
)
    ensures
        RecordingView::empty(merge_threads).stacks_ok(),
        state.recording.stacks_ok() ==> state.after(record).recording.stacks_ok(),
        thread.stack_ok() ==> forall|i: int|
            0 <= i < thread.pause_entries(state.settings, timestamp).len() ==> match (
            #[trigger] thread.pause_entries(state.settings, timestamp)[i]) {
                EntryView::AddSample { stack, .. } => has_no_kernel_frames(stack),
                _ => false,
            },
{
    lemma_record(state, record);
}

/// Where threads are not merged, no ended process or thread is ever kept to be
/// taken up again.
pub proof fn law_nothing_is_reused_unless_merging(state: ConverterView, record: Record)
    requires
        !state.recording.merge_threads,
    ensures
        RecordingView::empty(false).nothing_ended(),
        state.recording.nothing_ended() ==> state.after(record).recording.nothing_ended(),
        state.recording.nothing_ended() ==> forall|name: Seq<char>|
            !state.recording.can_reuse_process(name),
        state.recording.nothing_ended() ==> forall|pid: i32, tid: i32, name: Seq<char>|
            state.recording.processes.dom().contains(pid)
                ==> !state.recording.can_reuse_thread(pid, tid, name),
{
    lemma_record(state, record);
}

impl ConverterView {
    /// Whether the product has not been named twice, nor after the wrapper
    /// that `perf` starts the product with.
    pub open spec fn product_ok(self) -> bool {
        let names = product_names(self.recording.entries);
        &&& self.have_product_name == !self.product_name_pending
        &&& self.product_name_pending ==> names.len() == 0
        &&& names.len() <= 1
        &&& forall|i: int| 0 <= i < names.len() ==> #[trigger] names[i] != "perf-exec"@
    }
}

/// The product is named after at most one thread, and never after `perf-exec`.
pub proof fn law_product_is_named_once(state: ConverterView, record: Record)
    requires
        state.product_ok(),
    ensures
        state.after(record).product_ok(),
{
    lemma_record(state, record);
}

/// A product that is to be named after a thread is named after the first
/// thread name other than `perf-exec`.
pub proof fn law_product_is_named_after_the_first_thread(state: ConverterView, record: Record)
    requires
        state.product_ok(),
        state.product_name_pending,
        record.thread_name() is Some,
        record.thread_name()->0 != "perf-exec"@,
    ensures
        !state.after(record).product_name_pending,
        product_names(state.after(record).recording.entries) == seq![record.thread_name()->0],
{
    lemma_record(state, record);
    assert(product_names(state.recording.entries) =~= Seq::empty());
    assert(product_names(state.after(record).recording.entries) =~= seq![record.thread_name()->0]);
}

/// A second sample of a thread with the same timestamp is ignored: all that it
/// adds is a look at the process's JITDUMP files.
pub proof fn law_repeated_sample_is_ignored(
    state: ConverterView,
    e: SampleRecord,
    again: SampleRecord,
)
    requires
        e.pid == again.pid,
        e.tid == again.tid,
        e.timestamp == again.timestamp,
    ensures
        state.after_sample(e).after_sample(again) == (ConverterView {
            recording: state.after_sample(e).recording.jitdump_checked(e.pid->0),
            ..state.after_sample(e)
        }),
{
    let pid = e.pid->0;
    let tid = e.tid->0;
    lemma_checked_and_seen(state.recording, pid, tid);
    let once = state.after_sample(e).recording;
    assert(once.processes.dom().contains(pid));
    assert(once.processes[pid].has_thread(pid, tid));
    assert(once.thread(pid, tid).last_sample_timestamp == Some(e.timestamp->0));
    let checked = once.jitdump_checked(pid);
    assert(checked.with_live_thread(pid, tid) == checked);
}

/// The main thread of a forked process has the name of the thread that forked
/// it, and the process has the name of its parent.
pub proof fn law_forked_process_inherits_names(state: ConverterView, e: ForkOrExitRecord)
    requires
        e.pid != e.ppid,
    ensures
        ({
            let parent = state.recording.with_live_process(e.ppid).with_live_thread(e.ppid, e.ptid);
            let after = state.after_thread_start(e).recording;
            &&& after.processes.dom().contains(e.pid)
            &&& after.processes[e.pid].name == parent.processes[e.ppid].name
            &&& after.processes[e.pid].main_thread.name == parent.thread(e.ppid, e.ptid).name
        }),
{
}

/// A forked thread has the name of the thread that forked it.
pub proof fn law_forked_thread_inherits_name(state: ConverterView, e: ForkOrExitRecord)
    requires
        e.pid == e.ppid,
    ensures
        ({
            let parent = state.recording.with_live_process(e.ppid).with_live_thread(e.ppid, e.ptid);
            let after = state.after_thread_start(e).recording;
            &&& after.processes.dom().contains(e.pid)
            &&& after.processes[e.pid].has_thread(e.pid, e.tid)
            &&& after.thread(e.pid, e.tid).name == parent.thread(e.ppid, e.ptid).name
        }),
{
}

/// A thread that got a name has it, and with the main thread the process.
pub proof fn law_named_thread_has_its_name(
    state: ConverterView,
    pid: i32,
    tid: i32,
    name: Seq<char>,
    is_execve: bool,
    timestamp: Option<u64>,
)
    ensures
        ({
            let after = state.after_thread_name_update(
                pid,
                tid,
                name,
                is_execve,
                timestamp,
            ).recording;
            &&& after.processes.dom().contains(pid)
            &&& after.processes[pid].has_thread(pid, tid)
            &&& after.thread(pid, tid).name == Some(name)
            &&& pid == tid ==> after.processes[pid].name == Some(name)
        }),
{
}

/// A stack that was saved when a thread was switched out is used or dropped
/// once the thread runs again.
pub proof fn law_saved_stack_does_not_outlive_the_pause(
    state: ConverterView,
    e: SampleRecord,
    common: CommonData,
)
    requires
        e.pid == common.pid,
        e.tid == common.tid,
        e.timestamp == common.timestamp,
    ensures
        ({
            let pid = e.pid->0;
            let tid = e.tid->0;
            let seen = state.recording.jitdump_checked(pid).with_live_thread(pid, tid);
            &&& state.after_context_switch(ContextSwitchRecord::In, common).recording.thread(
                pid,
                tid,
            ).off_cpu_stack is None
            &&& seen.thread(pid, tid).last_sample_timestamp != e.timestamp && e.timestamp is Some
                ==> state.after_sample(e).recording.thread(pid, tid).off_cpu_stack is None
        }),
{
}

/// The weight of the samples among the given entries.
pub open spec fn total_weight(entries: Seq<EntryView>) -> int
    decreases entries.len(),
{
    if entries.len() == 0 {
        0
    } else {
        total_weight(entries.drop_last()) + match entries.last() {
            EntryView::AddSample { weight, .. } => weight as int,
            _ => 0,
        }
    }
}

/// The one or two samples that are made for a group of off-CPU samples weigh
/// as much as all samples of the group, unless there are too many to count.
pub proof fn law_off_cpu_samples_weigh_what_they_stand_for(
    group: OffCpuSampleGroup,
    thread: nat,
    cpu_delta_ns: u64,
    weight_per_sample: i32,
    stack: Seq<StackFrame>,
)
    requires
        1 <= group.sample_count <= i32::MAX + 1,
        0 <= weight_per_sample <= 1,
    ensures
        total_weight(
            off_cpu_entries(group, thread, cpu_delta_ns, weight_per_sample, stack),
        ) == group.sample_count * weight_per_sample,
{
    let entries = off_cpu_entries(group, thread, cpu_delta_ns, weight_per_sample, stack);
    reveal_with_fuel(total_weight, 3);
    let count = group.sample_count as int;
    assert(0 <= (count - 1) * weight_per_sample <= count - 1) by (nonlinear_arith)
        requires
            count >= 1,
            0 <= weight_per_sample <= 1,
    ;
    assert(weight_per_sample + (count - 1) * weight_per_sample == count * weight_per_sample)
        by (nonlinear_arith);
    if entries.len() == 2 {
        assert(entries.drop_last().last() == entries[0]);
    }
}

/// The CPU time of the samples among the given entries.
pub open spec fn cpu_time(entries: Seq<EntryView>) -> int
    decreases entries.len(),
{
    if entries.len() == 0 {
        0
    } else {
        cpu_time(entries.drop_last()) + match entries.last() {
            EntryView::AddSample { cpu_delta_ns, .. } => cpu_delta_ns as int,
            _ => 0,
        }
    }
}

proof fn lemma_cpu_time_of_pause(thread: ThreadView, settings: Settings, timestamp: u64)
    ensures
        cpu_time(thread.pause_entries(settings, timestamp)) + thread.running_again(
            settings,
            timestamp,
        ).context_switch_data.on_cpu_ns == thread.context_switch_data.after_running(
            settings.off_cpu_interval(),
            timestamp,
        ).on_cpu_ns,
{
    let entries = thread.pause_entries(settings, timestamp);
    reveal_with_fuel(cpu_time, 3);
    if entries.len() == 2 {
        assert(entries.drop_last().len() == 1);
        assert(entries.drop_last().last() == entries[0]);
    }
}

/// No running time is lost or counted twice: where context switches are
/// recorded, the samples that a record adds and the time that the thread still
/// has on its account make up all of the thread's running time up to then.
/// A sample leaves nothing on the account.
pub proof fn law_cpu_time_is_conserved(
    state: ConverterView,
    e: SampleRecord,
    common: CommonData,
)
    requires
        state.settings.have_context_switches,
        e.pid == common.pid,
        e.tid == common.tid,
        e.timestamp is Some,
        e.timestamp == common.timestamp,
    ensures
        ({
            let pid = e.pid->0;
            let tid = e.tid->0;
            let seen = state.recording.jitdump_checked(pid).with_live_thread(pid, tid);
            let thread = seen.thread(pid, tid);
            let sampled = state.after_sample(e).recording;
            thread.last_sample_timestamp != e.timestamp ==> {
                &&& cpu_time(sampled.entries.skip(seen.entries.len() as int))
                    == thread.context_switch_data.after_running(
                    state.settings.off_cpu_interval(),
                    e.timestamp->0,
                ).on_cpu_ns
                &&& sampled.thread(pid, tid).context_switch_data.on_cpu_ns == 0
            }
        }),
        ({
            let pid = common.pid->0;
            let tid = common.tid->0;
            let seen = state.recording.with_live_process(pid).with_live_thread(pid, tid);
            let thread = seen.thread(pid, tid);
            let switched = state.after_context_switch(ContextSwitchRecord::In, common).recording;
            cpu_time(switched.entries.skip(seen.entries.len() as int)) + switched.thread(
                pid,
                tid,
            ).context_switch_data.on_cpu_ns == thread.context_switch_data.after_running(
                state.settings.off_cpu_interval(),
                common.timestamp->0,
            ).on_cpu_ns
        }),
{
    let pid = e.pid->0;
    let tid = e.tid->0;
    let timestamp = e.timestamp->0;
    let seen = state.recording.jitdump_checked(pid).with_live_thread(pid, tid);
    let thread = seen.thread(pid, tid);
    lemma_cpu_time_of_pause(thread, state.settings, timestamp);
    let entries = thread.pause_entries(state.settings, timestamp);
    let sampled = state.after_sample(e).recording;
    if thread.last_sample_timestamp != e.timestamp {
        let added = sampled.entries.skip(seen.entries.len() as int);
        assert(added.drop_last() =~= entries);
    }
    let plain = state.recording.with_live_process(pid).with_live_thread(pid, tid);
    let plain_thread = plain.thread(pid, tid);
    lemma_cpu_time_of_pause(plain_thread, state.settings, timestamp);
    let switched = state.after_context_switch(ContextSwitchRecord::In, common).recording;
    assert(switched.entries.skip(plain.entries.len() as int) =~= plain_thread.pause_entries(
        state.settings,
        timestamp,
    ));
}

/// Where threads are merged, a process that ended can be taken up again by one
/// of the same name, which then has the same handles. Of several ended
/// processes of one name the first one to end is taken up first.
pub proof fn law_ended_process_is_taken_up(
    recording: RecordingView,
    ended_pid: i32,
    time: u64,
    pid: i32,
)
    requires
        recording.merge_threads,
        recording.processes.dom().contains(ended_pid),
        recording.processes[ended_pid].name is Some,
    ensures
        ({
            let process = recording.processes[ended_pid];
            let name = process.name->0;
            let ended = recording.without_process(ended_pid, time);
            let reused = ended.with_reused_process(pid, name);
            &&& ended.can_reuse_process(name)
            &&& reused.processes.dom().contains(pid)
            &&& reused.processes[pid].name == Some(name)
            &&& reused.entries == ended.entries
            &&& !recording.can_reuse_process(name) ==> {
                &&& reused.processes[pid].handle == process.handle
                &&& reused.processes[pid].main_thread.handle == process.main_thread.handle
            }
            &&& recording.can_reuse_process(name) ==> reused.processes[pid].handle
                == recording.ended_processes[first_process_named(
                recording.ended_processes,
                name,
            )].handle
        }),
{
    let name = recording.processes[ended_pid].name->0;
    let ended = recording.without_process(ended_pid, time);
    lemma_first_process_named(recording.ended_processes, name);
    lemma_first_process_named(ended.ended_processes, name);
    let before = first_process_named(recording.ended_processes, name);
    let at = first_process_named(ended.ended_processes, name);
    let last = recording.ended_processes.len() as int;
    assert(ended.ended_processes[last].name == name);
    assert(at <= last);
    assert forall|i: int| 0 <= i < last implies ended.ended_processes[i]
        == recording.ended_processes[i] by {}
    if before < last {
        assert(ended.ended_processes[before].name == name);
        if at < before {
            assert(recording.ended_processes[at].name != name);
        }
        assert(at == before);
    } else if at < last {
        assert(recording.ended_processes[at].name != name);
    }
}

/// Where threads are merged, a thread that ended can be taken up again by
/// another one of the same process and name, which then has the same handle.
/// Of several ended threads of one name the first one to end is taken up
/// first.
pub proof fn law_ended_thread_is_taken_up(
    recording: RecordingView,
    pid: i32,
    ended_tid: i32,
    time: u64,
    tid: i32,
)
    requires
        recording.merge_threads,
        recording.processes.dom().contains(pid),
        ended_tid != pid,
        tid != pid,
        recording.processes[pid].threads.dom().contains(ended_tid),
        recording.processes[pid].threads[ended_tid].name is Some,
    ensures
        ({
            let process = recording.processes[pid];
            let name = process.threads[ended_tid].name->0;
            let ended = recording.without_thread(pid, ended_tid, time);
            let reused = ended.with_reused_thread(pid, tid, name);
            &&& ended.can_reuse_thread(pid, tid, name)
            &&& reused.processes[pid].has_thread(pid, tid)
            &&& reused.thread(pid, tid).name == Some(name)
            &&& reused.entries == ended.entries
            &&& !recording.can_reuse_thread(pid, tid, name) ==> reused.thread(pid, tid).handle
                == process.threads[ended_tid].handle
            &&& recording.can_reuse_thread(pid, tid, name) ==> reused.thread(pid, tid).handle
                == process.ended_threads[first_thread_named(process.ended_threads, name)].handle
        }),
{
    let before_list = recording.processes[pid].ended_threads;
    let name = recording.processes[pid].threads[ended_tid].name->0;
    let list = recording.without_thread(pid, ended_tid, time).processes[pid].ended_threads;
    lemma_first_thread_named(before_list, name);
    lemma_first_thread_named(list, name);
    let before = first_thread_named(before_list, name);
    let at = first_thread_named(list, name);
    let last = before_list.len() as int;
    assert(list[last].name == name);
    assert(at <= last);
    assert forall|i: int| 0 <= i < last implies list[i] == before_list[i] by {}
    if before < last {
        assert(list[before].name == name);
        if at < before {
            assert(before_list[at].name != name);
        }
        assert(at == before);
    } else if at < last {
        assert(before_list[at].name != name);
    }
}

/// A mapping inside of a PE image whose header was mapped before is placed by
/// the address of the header, whatever its own file offset, unless another
/// image starts in between.
pub proof fn law_parts_of_pe_images_are_placed_by_the_header(
    state: ConverterView,
    path: Seq<u8>,
    header_address: u64,
    image_size: u64,
    module: UserModuleView,
    info: FileInfo,
)
    requires
        has_pe_extension(path),
        valid_utf8(path),
        header_address <= module.mapping_start_avma,
        module.mapping_start_avma + module.mapping_size <= header_address + image_size,
        forall|start: u64| #[trigger]
            state.suspected_pe_mappings.dom().contains(start) ==> start <= header_address || start
                > module.mapping_start_avma,
        info.is_pe_image,
    ensures
        state.with_pe_image(path, header_address, Some(image_size)).base_avma(module, info) == Some(
            header_address,
        ),
{
    law_remembered_image_is_found(
        state.suspected_pe_mappings,
        PeMappingView { path: decode_utf8(path), start: header_address, size: image_size },
        module.mapping_start_avma,
        module.mapping_size,
    );
}

/// Every suspected PE image stays filed under its start address.
pub proof fn law_pe_images_stay_filed_by_start(state: ConverterView, record: Record)
    requires
        keyed_by_start(state.suspected_pe_mappings),
    ensures
        keyed_by_start(state.after(record).suspected_pe_mappings),
{
}

impl ConverterView {
    /// Whether no record was seen yet.
    pub open spec fn is_new(self) -> bool {
        &&& self.recording == RecordingView::empty(self.recording.merge_threads)
        &&& self.have_product_name == !self.product_name_pending
        &&& self.suspected_pe_mappings == Map::<u64, PeMappingView>::empty()
    }

    /// The state after several records.
    pub open spec fn after_all(self, records: Seq<Record>) -> ConverterView
        decreases records.len(),
    {
        if records.len() == 0 {
            self
        } else {
            self.after_all(records.drop_last()).after(records.last())
        }
    }

    /// Whether all that holds of every state of a conversion holds.
    pub open spec fn is_in_order(self) -> bool {
        &&& self.recording.handles_ok()
        &&& entries_ok(self.recording.entries)
        &&& self.recording.stacks_ok()
        &&& self.recording.merge_threads || self.recording.nothing_ended()
        &&& self.product_ok()
        &&& keyed_by_start(self.suspected_pe_mappings)
    }
}

/// A record leaves a state that is in order in order.
pub proof fn law_records_keep_the_order(state: ConverterView, record: Record)
    requires
        state.is_in_order(),
    ensures
        state.after(record).is_in_order(),
{
    lemma_record(state, record);
    law_product_is_named_once(state, record);
    law_pe_images_stay_filed_by_start(state, record);
}

/// Every state that a conversion can come to is in order, whatever the records
/// are.
pub proof fn law_every_state_is_in_order(state: ConverterView, records: Seq<Record>)
    requires
        state.is_new(),
    ensures
        state.after_all(records).is_in_order(),
        state.after_all(records).settings == state.settings,
    decreases records.len(),
{
    if records.len() > 0 {
        let before = state.after_all(records.drop_last());
        law_every_state_is_in_order(state, records.drop_last());
        law_records_keep_the_order(before, records.last());
        law_settings_stay_the_same(before, records.last());
    }
}

} // verus!
