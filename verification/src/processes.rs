//! The processes and threads of a recording, and the profile entries that
//! are made for them.
//!
//! A process or thread is added when it is first looked up. When threads are
//! merged, a process or thread that ended can be taken up again by a later one
//! of the same name, the one that ended first coming first.

use crate::context_switch::ThreadContextSwitchData;
use crate::profile::{entries_view, opt_text, EntryView, ProfileEntry, RssStatMember};
use crate::stack::StackFrame;
use crate::text::same_text;
use std::collections::HashMap;
use vstd::prelude::*;

verus! {

broadcast use vstd::std_specs::hash::group_hash_axioms;

/// The last known sizes of a process's resident memory.
#[derive(Clone, Copy, Debug, PartialEq, Eq, Structural)]
pub struct RssSizes {
    pub file_pages: i64,
    pub anon_pages: i64,
    pub shmem_pages: i64,
    pub swap_entries: i64,
}

impl RssSizes {
    /// The sizes of a process that none is known of.
    pub open spec fn zero() -> RssSizes {
        RssSizes { file_pages: 0, anon_pages: 0, shmem_pages: 0, swap_entries: 0 }
    }

    /// The size of one kind of memory.
    pub open spec fn size_of(self, member: RssStatMember) -> i64 {
        match member {
            RssStatMember::ResidentFileMappingPages => self.file_pages,
            RssStatMember::ResidentAnonymousPages => self.anon_pages,
            RssStatMember::ResidentSharedMemoryPages => self.shmem_pages,
            RssStatMember::AnonymousSwapEntries => self.swap_entries,
        }
    }

    /// The sizes after one of them changed.
    pub open spec fn with_size(self, member: RssStatMember, size: i64) -> RssSizes {
        match member {
            RssStatMember::ResidentFileMappingPages => RssSizes { file_pages: size, ..self },
            RssStatMember::ResidentAnonymousPages => RssSizes { anon_pages: size, ..self },
            RssStatMember::ResidentSharedMemoryPages => RssSizes { shmem_pages: size, ..self },
            RssStatMember::AnonymousSwapEntries => RssSizes { swap_entries: size, ..self },
        }
    }

    /// The size of one kind of memory.
    pub fn get(&self, member: RssStatMember) -> (r: i64)
        ensures
            r == self.size_of(member),
    {
        match member {
            RssStatMember::ResidentFileMappingPages => self.file_pages,
            RssStatMember::ResidentAnonymousPages => self.anon_pages,
            RssStatMember::ResidentSharedMemoryPages => self.shmem_pages,
            RssStatMember::AnonymousSwapEntries => self.swap_entries,
        }
    }

    /// Changes the size of one kind of memory.
    pub fn set(&mut self, member: RssStatMember, size: i64)
        ensures
            *final(self) == old(self).with_size(member, size),
    {
        match member {
            RssStatMember::ResidentFileMappingPages => {
                self.file_pages = size;
            },
            RssStatMember::ResidentAnonymousPages => {
                self.anon_pages = size;
            },
            RssStatMember::ResidentSharedMemoryPages => {
                self.shmem_pages = size;
            },
            RssStatMember::AnonymousSwapEntries => {
                self.swap_entries = size;
            },
        }
    }
}

/// A thread of a live process.
#[derive(Debug)]
pub struct Thread {
    /// The profile entry that added the thread.
    pub handle: usize,
    pub name: Option<String>,
    pub last_sample_timestamp: Option<u64>,
    /// The stack that the thread had when it was last switched out, outermost frame first.
    pub off_cpu_stack: Option<Vec<StackFrame>>,
    pub context_switch_data: ThreadContextSwitchData,
}

/// The contents of a [`Thread`].
#[verifier::ext_equal]
pub struct ThreadView {
    pub handle: nat,
    pub name: Option<Seq<char>>,
    pub last_sample_timestamp: Option<u64>,
    pub off_cpu_stack: Option<Seq<StackFrame>>,
    pub context_switch_data: ThreadContextSwitchData,
}

impl View for Thread {
    type V = ThreadView;

    open spec fn view(&self) -> ThreadView {
        ThreadView {
            handle: self.handle as nat,
            name: opt_text(self.name),
            last_sample_timestamp: self.last_sample_timestamp,
            off_cpu_stack: match self.off_cpu_stack {
                Some(stack) => Some(stack@),
                None => None,
            },
            context_switch_data: self.context_switch_data,
        }
    }
}

impl ThreadView {
    /// A thread that nothing but its name is known of.
    pub open spec fn fresh(handle: nat, name: Option<Seq<char>>) -> ThreadView {
        ThreadView {
            handle,
            name,
            last_sample_timestamp: None,
            off_cpu_stack: None,
            context_switch_data: ThreadContextSwitchData::fresh(),
        }
    }
}

impl Thread {
    fn new(handle: usize, name: Option<String>) -> (r: Thread)
        ensures
            r@ == ThreadView::fresh(handle as nat, opt_text(name)),
    {
        Thread {
            handle,
            name,
            last_sample_timestamp: None,
            off_cpu_stack: None,
            context_switch_data: ThreadContextSwitchData::new(),
        }
    }
}

/// A thread that ended and can be taken up again.
#[derive(Debug)]
pub struct EndedThread {
    pub handle: usize,
    pub name: String,
}

/// The contents of an [`EndedThread`].
#[verifier::ext_equal]
pub struct EndedThreadView {
    pub handle: nat,
    pub name: Seq<char>,
}

impl View for EndedThread {
    type V = EndedThreadView;

    open spec fn view(&self) -> EndedThreadView {
        EndedThreadView { handle: self.handle as nat, name: self.name@ }
    }
}

/// A live process.
#[derive(Debug)]
pub struct Process {
    /// The profile entry that added the process.
    pub handle: usize,
    pub name: Option<String>,
    pub rss: RssSizes,
    pub main_thread: Thread,
    /// The other threads, by their thread ID.
    pub threads: HashMap<i32, Thread>,
    /// The threads that can be taken up again, in the order in which they ended.
    pub ended_threads: Vec<EndedThread>,
}

/// The contents of a [`Process`].
#[verifier::ext_equal]
pub struct ProcessView {
    pub handle: nat,
    pub name: Option<Seq<char>>,
    pub rss: RssSizes,
    pub main_thread: ThreadView,
    pub threads: Map<i32, ThreadView>,
    pub ended_threads: Seq<EndedThreadView>,
}

impl View for Process {
    type V = ProcessView;

    open spec fn view(&self) -> ProcessView {
        ProcessView {
            handle: self.handle as nat,
            name: opt_text(self.name),
            rss: self.rss,
            main_thread: self.main_thread@,
            threads: self.threads@.map_values(|t: Thread| t@),
            ended_threads: self.ended_threads@.map_values(|t: EndedThread| t@),
        }
    }
}

impl ProcessView {
    /// A process with nothing but its main thread.
    pub open spec fn fresh(handle: nat, name: Option<Seq<char>>, main_thread: nat) -> ProcessView {
        ProcessView {
            handle,
            name,
            rss: RssSizes::zero(),
            main_thread: ThreadView::fresh(main_thread, None),
            threads: Map::empty(),
            ended_threads: Seq::empty(),
        }
    }

    /// Whether the process, which has the given ID, has a thread. The thread
    /// ID of the main thread is the process ID.
    pub open spec fn has_thread(self, pid: i32, tid: i32) -> bool {
        tid == pid || self.threads.dom().contains(tid)
    }

    /// A thread of the process.
    pub open spec fn thread(self, pid: i32, tid: i32) -> ThreadView {
        if tid == pid {
            self.main_thread
        } else {
            self.threads[tid]
        }
    }

    /// The process after one of its threads changed or was added.
    pub open spec fn with_thread(self, pid: i32, tid: i32, thread: ThreadView) -> ProcessView {
        if tid == pid {
            ProcessView { main_thread: thread, ..self }
        } else {
            ProcessView { threads: self.threads.insert(tid, thread), ..self }
        }
    }
}

impl Process {
    fn new(handle: usize, name: Option<String>, main_thread: usize) -> (r: Process)
        ensures
            r@ == ProcessView::fresh(handle as nat, opt_text(name), main_thread as nat),
    {
        let r = Process {
            handle,
            name,
            rss: RssSizes { file_pages: 0, anon_pages: 0, shmem_pages: 0, swap_entries: 0 },
            main_thread: Thread::new(main_thread, None),
            threads: HashMap::new(),
            ended_threads: Vec::new(),
        };
        assert(r@.threads =~= Map::empty());
        assert(r@.ended_threads =~= Seq::empty());
        r
    }

    /// A thread of the process.
    fn thread_mut(&mut self, pid: i32, tid: i32) -> (r: &mut Thread)
        requires
            old(self)@.has_thread(pid, tid),
        ensures
            r@ == old(self)@.thread(pid, tid),
            final(self)@ == old(self)@.with_thread(pid, tid, final(r)@),
    {
        if tid == pid {
            &mut self.main_thread
        } else {
            self.threads.entry(tid).or_insert(Thread::new(0, None))
        }
    }
}

/// A process that ended and can be taken up again.
#[derive(Debug)]
pub struct EndedProcess {
    pub handle: usize,
    pub main_thread: usize,
    pub name: String,
}

/// The contents of an [`EndedProcess`].
#[verifier::ext_equal]
pub struct EndedProcessView {
    pub handle: nat,
    pub main_thread: nat,
    pub name: Seq<char>,
}

impl View for EndedProcess {
    type V = EndedProcessView;

    open spec fn view(&self) -> EndedProcessView {
        EndedProcessView {
            handle: self.handle as nat,
            main_thread: self.main_thread as nat,
            name: self.name@,
        }
    }
}

/// The index of the first ended process of a name; the number of all of them
/// when there is none.
pub open spec fn first_process_named(ended: Seq<EndedProcessView>, name: Seq<char>) -> int
    decreases ended.len(),
{
    if ended.len() == 0 || ended[0].name == name {
        0
    } else {
        1 + first_process_named(ended.skip(1), name)
    }
}

/// The index of the first ended thread of a name; the number of all of them
/// when there is none.
pub open spec fn first_thread_named(ended: Seq<EndedThreadView>, name: Seq<char>) -> int
    decreases ended.len(),
{
    if ended.len() == 0 || ended[0].name == name {
        0
    } else {
        1 + first_thread_named(ended.skip(1), name)
    }
}

/// The processes of a recording and the entries of its profile.
#[derive(Debug)]
pub struct Recording {
    /// Whether an ended process or thread can be taken up again.
    pub merge_threads: bool,
    /// The live processes, by their process ID.
    pub processes: HashMap<i32, Process>,
    /// The processes that can be taken up again, in the order in which they ended.
    pub ended_processes: Vec<EndedProcess>,
    /// The profile entries made so far.
    pub entries: Vec<ProfileEntry>,
}

/// The contents of a [`Recording`].
#[verifier::ext_equal]
pub struct RecordingView {
    pub merge_threads: bool,
    pub processes: Map<i32, ProcessView>,
    pub ended_processes: Seq<EndedProcessView>,
    pub entries: Seq<EntryView>,
}

impl View for Recording {
    type V = RecordingView;

    open spec fn view(&self) -> RecordingView {
        RecordingView {
            merge_threads: self.merge_threads,
            processes: self.processes@.map_values(|p: Process| p@),
            ended_processes: self.ended_processes@.map_values(|p: EndedProcess| p@),
            entries: entries_view(self.entries@),
        }
    }
}

impl RecordingView {
    /// A recording without processes or entries.
    pub open spec fn empty(merge_threads: bool) -> RecordingView {
        RecordingView {
            merge_threads,
            processes: Map::empty(),
            ended_processes: Seq::empty(),
            entries: Seq::empty(),
        }
    }

    /// The recording after a profile entry was made.
    pub open spec fn logged(self, entry: EntryView) -> RecordingView {
        RecordingView { entries: self.entries.push(entry), ..self }
    }

    /// The recording after several profile entries were made.
    pub open spec fn logged_all(self, entries: Seq<EntryView>) -> RecordingView {
        RecordingView { entries: self.entries + entries, ..self }
    }

    /// The recording after a process changed or was added.
    pub open spec fn with_process(self, pid: i32, process: ProcessView) -> RecordingView {
        RecordingView { processes: self.processes.insert(pid, process), ..self }
    }

    /// The recording after a thread of a live process changed or was added.
    pub open spec fn with_thread(self, pid: i32, tid: i32, thread: ThreadView) -> RecordingView {
        self.with_process(pid, self.processes[pid].with_thread(pid, tid, thread))
    }

    /// The recording after a process was looked up: a process that is not
    /// live is added, with its main thread.
    pub open spec fn with_live_process(self, pid: i32) -> RecordingView {
        if self.processes.dom().contains(pid) {
            self
        } else {
            let handle = self.entries.len();
            self.logged(EntryView::AddProcess { pid }).logged(
                EntryView::AddThread { process: handle, tid: pid, is_main: true },
            ).with_process(pid, ProcessView::fresh(handle, None, handle + 1))
        }
    }

    /// The recording after a thread of a live process was looked up: a thread
    /// that the process does not have is added.
    pub open spec fn with_live_thread(self, pid: i32, tid: i32) -> RecordingView {
        if self.processes[pid].has_thread(pid, tid) {
            self
        } else {
            self.logged(
                EntryView::AddThread {
                    process: self.processes[pid].handle,
                    tid,
                    is_main: false,
                },
            ).with_thread(pid, tid, ThreadView::fresh(self.entries.len(), None))
        }
    }

    /// A thread of a live process.
    pub open spec fn thread(self, pid: i32, tid: i32) -> ThreadView {
        self.processes[pid].thread(pid, tid)
    }

    /// The recording after a process ended.
    pub open spec fn without_process(self, pid: i32, time: u64) -> RecordingView {
        if self.processes.dom().contains(pid) {
            let process = self.processes[pid];
            RecordingView {
                processes: self.processes.remove(pid),
                ended_processes: if self.merge_threads && process.name is Some {
                    self.ended_processes.push(
                        EndedProcessView {
                            handle: process.handle,
                            main_thread: process.main_thread.handle,
                            name: process.name->0,
                        },
                    )
                } else {
                    self.ended_processes
                },
                entries: self.entries.push(EntryView::EndProcess { process: process.handle, time }),
                ..self
            }
        } else {
            self
        }
    }

    /// Whether a process of the given name ended and can be taken up again.
    pub open spec fn can_reuse_process(self, name: Seq<char>) -> bool {
        first_process_named(self.ended_processes, name) < self.ended_processes.len()
    }

    /// The recording after a process took up an ended one of the given name,
    /// if there is one.
    pub open spec fn with_reused_process(self, pid: i32, name: Seq<char>) -> RecordingView {
        if self.can_reuse_process(name) {
            let at = first_process_named(self.ended_processes, name);
            let ended = self.ended_processes[at];
            RecordingView {
                processes: self.processes.insert(
                    pid,
                    ProcessView::fresh(ended.handle, Some(ended.name), ended.main_thread),
                ),
                ended_processes: self.ended_processes.remove(at),
                ..self
            }
        } else {
            self
        }
    }

    /// The recording after a thread other than the main thread of a live
    /// process ended.
    pub open spec fn without_thread(self, pid: i32, tid: i32, time: u64) -> RecordingView {
        let process = self.processes[pid];
        if tid != pid && process.threads.dom().contains(tid) {
            let thread = process.threads[tid];
            self.logged(EntryView::EndThread { thread: thread.handle, time }).with_process(
                pid,
                ProcessView {
                    threads: process.threads.remove(tid),
                    ended_threads: if self.merge_threads && thread.name is Some {
                        process.ended_threads.push(
                            EndedThreadView { handle: thread.handle, name: thread.name->0 },
                        )
                    } else {
                        process.ended_threads
                    },
                    ..process
                },
            )
        } else {
            self
        }
    }

    /// Whether a thread of the given name ended and can be taken up again by
    /// another thread of its process.
    pub open spec fn can_reuse_thread(self, pid: i32, tid: i32, name: Seq<char>) -> bool {
        let ended = self.processes[pid].ended_threads;
        tid != pid && first_thread_named(ended, name) < ended.len()
    }

    /// The recording after a thread of a live process took up an ended one of
    /// the given name, if there is one.
    pub open spec fn with_reused_thread(
        self,
        pid: i32,
        tid: i32,
        name: Seq<char>,
    ) -> RecordingView {
        if self.can_reuse_thread(pid, tid, name) {
            let process = self.processes[pid];
            let at = first_thread_named(process.ended_threads, name);
            let ended = process.ended_threads[at];
            self.with_process(
                pid,
                ProcessView {
                    threads: process.threads.insert(
                        tid,
                        ThreadView::fresh(ended.handle, Some(ended.name)),
                    ),
                    ended_threads: process.ended_threads.remove(at),
                    ..process
                },
            )
        } else {
            self
        }
    }
}

impl Recording {
    /// A recording without processes or entries.
    pub fn new(merge_threads: bool) -> (r: Recording)
        ensures
            r@ == RecordingView::empty(merge_threads),
    {
        Recording {
            merge_threads,
            processes: HashMap::new(),
            ended_processes: Vec::new(),
            entries: Vec::new(),
        }
    }

    /// Makes a profile entry.
    pub fn log(&mut self, entry: ProfileEntry)
        ensures
            final(self)@ == old(self)@.logged(entry@),
    {
        self.entries.push(entry);
    }

    /// Puts a process in.
    fn put_process(&mut self, pid: i32, process: Process)
        ensures
            final(self)@ == old(self)@.with_process(pid, process@),
    {
        let ghost before = self@;
        self.processes.insert(pid, process);
        assert(self@.processes =~= before.processes.insert(pid, process@));
    }

    /// A live process.
    pub fn process(&self, pid: i32) -> (r: &Process)
        requires
            self@.processes.dom().contains(pid),
        ensures
            r@ == self@.processes[pid],
    {
        self.processes.get(&pid).unwrap()
    }

    /// A thread of a live process.
    pub fn thread(&self, pid: i32, tid: i32) -> (r: &Thread)
        requires
            self@.processes.dom().contains(pid),
            self@.processes[pid].has_thread(pid, tid),
        ensures
            r@ == self@.thread(pid, tid),
    {
        let process = self.process(pid);
        if tid == pid {
            &process.main_thread
        } else {
            process.threads.get(&tid).unwrap()
        }
    }

    /// A live process.
    pub fn process_mut(&mut self, pid: i32) -> (r: &mut Process)
        requires
            old(self)@.processes.dom().contains(pid),
        ensures
            r@ == old(self)@.processes[pid],
            final(self)@ == old(self)@.with_process(pid, final(r)@),
    {
        self.processes.entry(pid).or_insert(Process::new(0, None, 0))
    }

    /// A thread of a live process.
    pub fn thread_mut(&mut self, pid: i32, tid: i32) -> (r: &mut Thread)
        requires
            old(self)@.processes.dom().contains(pid),
            old(self)@.processes[pid].has_thread(pid, tid),
        ensures
            r@ == old(self)@.thread(pid, tid),
            final(self)@ == old(self)@.with_thread(pid, tid, final(r)@),
    {
        self.process_mut(pid).thread_mut(pid, tid)
    }

    /// Looks a process up, and adds it if it is not live.
    pub fn ensure_process(&mut self, pid: i32) -> (handle: usize)
        ensures
            final(self)@ == old(self)@.with_live_process(pid),
            handle == final(self)@.processes[pid].handle,
    {
        if let Some(process) = self.processes.get(&pid) {
            return process.handle;
        }
        assert(!self@.processes.dom().contains(pid));
        let handle: usize = self.entries.len();
        self.log(ProfileEntry::AddProcess { pid });
        let main_thread: usize = self.entries.len();
        assert(main_thread == self@.entries.len());
        self.log(ProfileEntry::AddThread { process: handle, tid: pid, is_main: true });
        let ghost added = self@;
        self.put_process(pid, Process::new(handle, None, main_thread));
        assert(self@ == added.with_process(
            pid,
            ProcessView::fresh(handle as nat, None, main_thread as nat),
        ));
        handle
    }

    /// Looks a thread of a live process up, and adds it if the process does not have it.
    pub fn ensure_thread(&mut self, pid: i32, tid: i32) -> (handle: usize)
        requires
            old(self)@.processes.dom().contains(pid),
        ensures
            final(self)@ == old(self)@.with_live_thread(pid, tid),
            handle == final(self)@.thread(pid, tid).handle,
    {
        if tid == pid || self.process(pid).threads.contains_key(&tid) {
            return self.thread(pid, tid).handle;
        }
        let ghost before = self@;
        let handle: usize = self.entries.len();
        let process = self.process_mut(pid);
        let process_handle: usize = process.handle;
        process.threads.insert(tid, Thread::new(handle, None));
        self.log(ProfileEntry::AddThread { process: process_handle, tid, is_main: false });
        assert(self@.processes[pid].threads =~= before.with_live_thread(
            pid,
            tid,
        ).processes[pid].threads);
        assert(self@ =~= before.with_live_thread(pid, tid));
        handle
    }

    /// Ends a process, if it is live.
    pub fn remove(&mut self, pid: i32, time: u64)
        ensures
            final(self)@ == old(self)@.without_process(pid, time),
    {
        let ghost before = self@;
        let removed = self.processes.remove(&pid);
        assert(self@.processes =~= before.processes.remove(pid));
        if let Some(process) = removed {
            assert(before.processes.dom().contains(pid));
            if self.merge_threads {
                if let Some(name) = process.name {
                    self.ended_processes.push(
                        EndedProcess {
                            handle: process.handle,
                            main_thread: process.main_thread.handle,
                            name,
                        },
                    );
                }
            }
            self.log(ProfileEntry::EndProcess { process: process.handle, time });
            assert(self@ =~= before.without_process(pid, time));
        } else {
            assert(!before.processes.dom().contains(pid));
            assert(self@ =~= before);
        }
    }

    /// Lets a process take up the first ended one of the given name. Says
    /// whether there was one.
    pub fn attempt_reuse(&mut self, pid: i32, name: &str) -> (r: bool)
        ensures
            r == old(self)@.can_reuse_process(name@),
            final(self)@ == old(self)@.with_reused_process(pid, name@),
    {
        let ghost before = self@;
        let at: usize = first_ended_process(&self.ended_processes, name);
        assert(before.ended_processes.len() == self.ended_processes.len());
        if at == self.ended_processes.len() {
            return false;
        }
        assert(before.ended_processes[at as int] == self.ended_processes@[at as int]@);
        let ended = self.ended_processes.remove(at);
        assert(self@.ended_processes =~= before.ended_processes.remove(at as int));
        self.put_process(pid, Process::new(ended.handle, Some(ended.name), ended.main_thread));
        true
    }

    /// Ends a thread of a live process, if it is there and not the main thread.
    pub fn remove_non_main_thread(&mut self, pid: i32, tid: i32, time: u64)
        requires
            old(self)@.processes.dom().contains(pid),
        ensures
            final(self)@ == old(self)@.without_thread(pid, tid, time),
    {
        let ghost before = self@;
        if tid == pid {
            return;
        }
        let merge_threads = self.merge_threads;
        let process = self.process_mut(pid);
        let ghost live = process@;
        let removed = process.threads.remove(&tid);
        assert(process@.threads =~= live.threads.remove(tid));
        if let Some(thread) = removed {
            assert(live.threads.dom().contains(tid));
            let handle: usize = thread.handle;
            if merge_threads {
                if let Some(name) = thread.name {
                    process.ended_threads.push(EndedThread { handle, name });
                }
            }
            assert(process@ =~= before.without_thread(pid, tid, time).processes[pid]);
            self.log(ProfileEntry::EndThread { thread: handle, time });
            assert(self@ =~= before.without_thread(pid, tid, time));
        } else {
            assert(!live.threads.dom().contains(tid));
            assert(process@ =~= live);
            assert(self@ =~= before);
        }
    }

    /// Lets a thread of a live process take up the first ended one of the
    /// given name. Says whether there was one.
    pub fn attempt_thread_reuse(&mut self, pid: i32, tid: i32, name: &str) -> (r: bool)
        requires
            old(self)@.processes.dom().contains(pid),
        ensures
            r == old(self)@.can_reuse_thread(pid, tid, name@),
            final(self)@ == old(self)@.with_reused_thread(pid, tid, name@),
    {
        if tid == pid {
            return false;
        }
        let ghost before = self@;
        let process = self.process_mut(pid);
        let at: usize = first_ended_thread(&process.ended_threads, name);
        let ghost live = process@;
        if at == process.ended_threads.len() {
            assert(self@ =~= before);
            return false;
        }
        assert(live.ended_threads[at as int] == process.ended_threads@[at as int]@);
        let ended = process.ended_threads.remove(at);
        assert(process@.ended_threads =~= live.ended_threads.remove(at as int));
        process.threads.insert(tid, Thread::new(ended.handle, Some(ended.name)));
        let ghost taken = live.ended_threads[at as int];
        assert(process@.threads =~= live.threads.insert(
            tid,
            ThreadView::fresh(taken.handle, Some(taken.name)),
        ));
        true
    }
}

/// The index of the first ended process of a name.
fn first_ended_process(ended: &Vec<EndedProcess>, name: &str) -> (at: usize)
    ensures
        at == first_process_named(ended@.map_values(|p: EndedProcess| p@), name@),
        at <= ended.len(),
{
    let ghost all = ended@.map_values(|p: EndedProcess| p@);
    let mut at: usize = 0;
    assert(all.skip(0) =~= all);
    while at < ended.len() && !same_text(ended[at].name.as_str(), name)
        invariant
            all == ended@.map_values(|p: EndedProcess| p@),
            at <= ended.len(),
            first_process_named(all, name@) == at + first_process_named(all.skip(at as int), name@),
        decreases ended.len() - at,
    {
        assert(all.skip(at as int).skip(1) =~= all.skip(at + 1));
        at = at + 1;
    }
    at
}

/// The index of the first ended thread of a name.
fn first_ended_thread(ended: &Vec<EndedThread>, name: &str) -> (at: usize)
    ensures
        at == first_thread_named(ended@.map_values(|t: EndedThread| t@), name@),
        at <= ended.len(),
{
    let ghost all = ended@.map_values(|t: EndedThread| t@);
    let mut at: usize = 0;
    assert(all.skip(0) =~= all);
    while at < ended.len() && !same_text(ended[at].name.as_str(), name)
        invariant
            all == ended@.map_values(|t: EndedThread| t@),
            at <= ended.len(),
            first_thread_named(all, name@) == at + first_thread_named(all.skip(at as int), name@),
        decreases ended.len() - at,
    {
        assert(all.skip(at as int).skip(1) =~= all.skip(at + 1));
        at = at + 1;
    }
    at
}

} // verus!
