//! Starts, ends and names of processes and threads.

use crate::converter::{Converter, ConverterView};
use crate::processes::{ProcessView, RecordingView, ThreadView};
use crate::profile::{copy_opt_text, EntryView, ProfileEntry};
use crate::text::{from_utf8_lossy, lossy_text, same_text};
use vstd::prelude::*;
use vstd::utf8::{decode_utf8, valid_utf8};

verus! {

/// The start or the end of a thread.
#[derive(Clone, Copy, Debug, PartialEq, Eq, Structural)]
pub struct ForkOrExitRecord {
    pub pid: i32,
    /// The process that the thread was forked in.
    pub ppid: i32,
    pub tid: i32,
    /// The thread that it was forked by.
    pub ptid: i32,
    pub timestamp: u64,
}

/// A change of a thread's name.
#[derive(Debug)]
pub struct CommOrExecRecord {
    pub pid: i32,
    pub tid: i32,
    pub name: Vec<u8>,
    /// Whether the process was replaced by that of another executable.
    pub is_execve: bool,
}

impl RecordingView {
    /// The recording after a thread of a live process was renamed.
    pub open spec fn with_thread_name(
        self,
        pid: i32,
        tid: i32,
        name: Option<Seq<char>>,
    ) -> RecordingView {
        self.with_thread(pid, tid, ThreadView { name, ..self.thread(pid, tid) })
    }

    /// The recording after a live process was renamed.
    pub open spec fn with_process_name(self, pid: i32, name: Option<Seq<char>>) -> RecordingView {
        self.with_process(pid, ProcessView { name, ..self.processes[pid] })
    }

    /// The recording after the name that a thread has was put down.
    pub open spec fn thread_name_logged(self, pid: i32, tid: i32) -> RecordingView {
        let thread = self.thread(pid, tid);
        match thread.name {
            Some(name) => self.logged(EntryView::SetThreadName { thread: thread.handle, name }),
            None => self,
        }
    }

    /// The recording after the start of a thread was put down.
    pub open spec fn thread_start_logged(self, pid: i32, tid: i32, time: u64) -> RecordingView {
        self.logged(EntryView::SetThreadStart { thread: self.thread(pid, tid).handle, time })
    }

    /// The recording after the start of a process was put down.
    pub open spec fn process_start_logged(self, pid: i32, time: u64) -> RecordingView {
        self.logged(EntryView::SetProcessStart { process: self.processes[pid].handle, time })
    }

    /// The recording after a process was forked off. The child has the names
    /// of the parent. It takes up an ended process of its name, if there is
    /// one; else it starts now.
    pub open spec fn with_forked_process(self, e: ForkOrExitRecord) -> RecordingView {
        let parent = self.with_live_process(e.ppid).with_live_thread(e.ppid, e.ptid);
        let process_name = parent.processes[e.ppid].name;
        let thread_name = parent.thread(e.ppid, e.ptid).name;
        let is_reused = process_name is Some && parent.can_reuse_process(process_name->0);
        let reused = if process_name is Some {
            parent.with_reused_process(e.pid, process_name->0)
        } else {
            parent
        };
        let child = reused.with_live_process(e.pid).with_process_name(
            e.pid,
            process_name,
        ).with_thread_name(e.pid, e.pid, thread_name).thread_name_logged(e.pid, e.pid);
        if is_reused {
            child
        } else {
            child.process_start_logged(e.pid, e.timestamp).thread_start_logged(
                e.pid,
                e.pid,
                e.timestamp,
            )
        }
    }

    /// The recording after a thread was forked off in the same process. The
    /// child has the name of the parent. It takes up an ended thread of its
    /// name, if there is one; else it starts now.
    pub open spec fn with_forked_thread(self, e: ForkOrExitRecord) -> RecordingView {
        let parent = self.with_live_process(e.ppid).with_live_thread(e.ppid, e.ptid);
        let name = parent.thread(e.ppid, e.ptid).name;
        let is_reused = name is Some && parent.can_reuse_thread(e.ppid, e.tid, name->0);
        let reused = if name is Some {
            parent.with_reused_thread(e.ppid, e.tid, name->0)
        } else {
            parent
        };
        let child = reused.with_live_thread(e.ppid, e.tid).with_thread_name(e.ppid, e.tid, name);
        if is_reused {
            child
        } else {
            child.thread_name_logged(e.ppid, e.tid).thread_start_logged(e.ppid, e.tid, e.timestamp)
        }
    }

    /// The recording after a thread ended. The end of the main thread is the
    /// end of the process.
    pub open spec fn with_ended_thread(self, pid: i32, tid: i32, time: u64) -> RecordingView {
        if pid == tid {
            self.without_process(pid, time)
        } else {
            self.with_live_process(pid).without_thread(pid, tid, time)
        }
    }
}

impl ConverterView {
    /// The state after a thread or a process started.
    pub open spec fn after_thread_start(self, e: ForkOrExitRecord) -> ConverterView {
        ConverterView {
            recording: if e.pid != e.ppid {
                self.recording.with_forked_process(e)
            } else {
                self.recording.with_forked_thread(e)
            },
            ..self
        }
    }

    /// The state after a thread or a process ended.
    pub open spec fn after_thread_end(self, e: ForkOrExitRecord) -> ConverterView {
        ConverterView {
            recording: self.recording.with_ended_thread(e.pid, e.tid, e.timestamp),
            ..self
        }
    }

    /// The state after a thread got a name. The name of the main thread is
    /// also that of the process. A thread that is just being created starts
    /// at the time of the last sample. The first name other than `perf-exec`
    /// is what the product is named after, where that is still to be done.
    pub open spec fn with_name_set(
        self,
        pid: i32,
        tid: i32,
        name: Seq<char>,
        is_thread_creation: bool,
    ) -> ConverterView {
        let seen = self.recording.with_live_process(pid).with_live_thread(pid, tid);
        let named = seen.with_thread_name(pid, tid, Some(name)).thread_name_logged(pid, tid);
        let renamed = if pid == tid {
            named.with_process_name(pid, Some(name)).logged(
                EntryView::SetProcessName { process: named.processes[pid].handle, name },
            )
        } else {
            named
        };
        let started = if is_thread_creation {
            let thread_started = renamed.thread_start_logged(pid, tid, self.current_sample_time);
            if pid == tid {
                thread_started.process_start_logged(pid, self.current_sample_time)
            } else {
                thread_started
            }
        } else {
            renamed
        };
        if self.product_name_pending && name != "perf-exec"@ {
            ConverterView {
                recording: started.logged(EntryView::SetProductFromThread { thread_name: name }),
                have_product_name: true,
                product_name_pending: false,
                ..self
            }
        } else {
            ConverterView { recording: started, ..self }
        }
    }

    /// The time of a record: that of the last sample if the record has none.
    pub open spec fn time_of(self, timestamp: Option<u64>) -> u64 {
        if timestamp is None || timestamp->0 == 0 {
            self.current_sample_time
        } else {
            timestamp->0
        }
    }

    /// The state after a record said that a thread has a new name.
    ///
    /// Where the process was replaced by that of another executable, the old
    /// thread (and with the main thread the process) ended. The same goes for
    /// any thread other than the main thread where threads are merged. The
    /// new one takes up an ended one of its name, if there is one; else it is
    /// created now.
    pub open spec fn after_thread_name_update(
        self,
        pid: i32,
        tid: i32,
        name: Seq<char>,
        is_execve: bool,
        timestamp: Option<u64>,
    ) -> ConverterView {
        if is_execve || (self.recording.merge_threads && pid != tid) {
            let ended = self.recording.with_ended_thread(pid, tid, self.time_of(timestamp));
            if pid == tid {
                ConverterView {
                    recording: ended.with_reused_process(pid, name),
                    ..self
                }.with_name_set(pid, tid, name, !ended.can_reuse_process(name))
            } else {
                ConverterView {
                    recording: ended.with_reused_thread(pid, tid, name),
                    ..self
                }.with_name_set(pid, tid, name, !ended.can_reuse_thread(pid, tid, name))
            }
        } else {
            self.with_name_set(pid, tid, name, false)
        }
    }
}

impl Converter {
    /// Called for a FORK record.
    ///
    /// FORK records are emitted if a new thread is started or if a new
    /// process is created. The name is inherited from the forking thread.
    pub fn handle_thread_start(&mut self, e: ForkOrExitRecord)
        ensures
            old(self).wf() ==> final(self).wf(),
            final(self)@ == old(self)@.after_thread_start(e),
    {
        self.recording.ensure_process(e.ppid);
        self.recording.ensure_thread(e.ppid, e.ptid);
        let thread_name = copy_opt_text(&self.recording.thread(e.ppid, e.ptid).name);
        if e.pid != e.ppid {
            // We've created a new process.
            let process_name = copy_opt_text(&self.recording.process(e.ppid).name);
            let is_reused: bool = match &process_name {
                Some(name) => self.recording.attempt_reuse(e.pid, name.as_str()),
                None => false,
            };
            let process_handle: usize = self.recording.ensure_process(e.pid);
            let process = self.recording.process_mut(e.pid);
            process.name = process_name;
            process.main_thread.name = copy_opt_text(&thread_name);
            let thread_handle: usize = process.main_thread.handle;
            self.log_thread_name(thread_handle, thread_name);
            if !is_reused {
                self.recording.log(
                    ProfileEntry::SetProcessStart { process: process_handle, time: e.timestamp },
                );
                self.recording.log(
                    ProfileEntry::SetThreadStart { thread: thread_handle, time: e.timestamp },
                );
            }
        } else {
            let is_reused: bool = match &thread_name {
                Some(name) => self.recording.attempt_thread_reuse(e.ppid, e.tid, name.as_str()),
                None => false,
            };
            let thread_handle: usize = self.recording.ensure_thread(e.ppid, e.tid);
            self.recording.thread_mut(e.ppid, e.tid).name = copy_opt_text(&thread_name);
            if !is_reused {
                self.log_thread_name(thread_handle, thread_name);
                self.recording.log(
                    ProfileEntry::SetThreadStart { thread: thread_handle, time: e.timestamp },
                );
            }
        }
    }

    /// Puts down the name of a thread, if it has one.
    fn log_thread_name(&mut self, thread: usize, name: Option<String>)
        ensures
            final(self)@ == (ConverterView {
                recording: match name {
                    Some(name) => old(self)@.recording.logged(
                        EntryView::SetThreadName { thread: thread as nat, name: name@ },
                    ),
                    None => old(self)@.recording,
                },
                ..old(self)@
            }),
    {
        if let Some(name) = name {
            self.recording.log(ProfileEntry::SetThreadName { thread, name });
        }
    }

    /// Called for an EXIT record.
    pub fn handle_thread_end(&mut self, e: ForkOrExitRecord)
        ensures
            old(self).wf() ==> final(self).wf(),
            final(self)@ == old(self)@.after_thread_end(e),
    {
        self.end_thread(e.pid, e.tid, e.timestamp);
    }

    /// Ends a thread, and with the main thread the process.
    fn end_thread(&mut self, pid: i32, tid: i32, time: u64)
        ensures
            final(self)@ == (ConverterView {
                recording: old(self)@.recording.with_ended_thread(pid, tid, time),
                ..old(self)@
            }),
    {
        if pid == tid {
            self.recording.remove(pid, time);
        } else {
            self.recording.ensure_process(pid);
            self.recording.remove_non_main_thread(pid, tid, time);
        }
    }

    /// Gives a thread a name.
    pub fn set_thread_name(&mut self, pid: i32, tid: i32, name: &str, is_thread_creation: bool)
        ensures
            old(self).wf() ==> final(self).wf(),
            final(self)@ == old(self)@.with_name_set(pid, tid, name@, is_thread_creation),
    {
        let is_main = pid == tid;
        let process: usize = self.recording.ensure_process(pid);
        let thread: usize = self.recording.ensure_thread(pid, tid);

        self.recording.log(ProfileEntry::SetThreadName { thread, name: name.to_owned() });
        self.recording.thread_mut(pid, tid).name = Some(name.to_owned());
        if is_main {
            self.recording.log(ProfileEntry::SetProcessName { process, name: name.to_owned() });
            self.recording.process_mut(pid).name = Some(name.to_owned());
        }
        if is_thread_creation {
            // Mark this as the start time of the new thread / process.
            let time: u64 = self.current_sample_time;
            self.recording.log(ProfileEntry::SetThreadStart { thread, time });
            if is_main {
                self.recording.log(ProfileEntry::SetProcessStart { process, time });
            }
        }
        if self.product_name_pending && !same_text(name, "perf-exec") {
            self.product_name_pending = false;
            self.recording.log(ProfileEntry::SetProductFromThread { thread_name: name.to_owned() });
            self.have_product_name = true;
        }
        assert(self@ =~= old(self)@.with_name_set(pid, tid, name@, is_thread_creation));
    }

    /// Handles the new name of a thread.
    pub fn update_thread_name(
        &mut self,
        pid: i32,
        tid: i32,
        name: &str,
        is_execve: bool,
        timestamp: Option<u64>,
    )
        ensures
            old(self).wf() ==> final(self).wf(),
            final(self)@ == old(self)@.after_thread_name_update(
                pid,
                tid,
                name@,
                is_execve,
                timestamp,
            ),
    {
        let is_main = pid == tid;
        let is_thread_creation = if is_execve || (self.recording.merge_threads && !is_main) {
            // Mark the old thread / process as ended.
            // If the record doesn't have a timestamp, take the last seen
            // timestamp from the previous sample.
            let end_time: u64 = match timestamp {
                Some(0) | None => self.current_sample_time,
                Some(ts) => ts,
            };
            self.end_thread(pid, tid, end_time);
            if is_main {
                !self.recording.attempt_reuse(pid, name)
            } else {
                !self.recording.attempt_thread_reuse(pid, tid, name)
            }
        } else {
            false
        };
        self.set_thread_name(pid, tid, name, is_thread_creation);
    }

    /// Called for a COMM record. What is no valid UTF-8 in the name is
    /// replaced.
    pub fn handle_thread_name_update(&mut self, e: &CommOrExecRecord, timestamp: Option<u64>)
        ensures
            old(self).wf() ==> final(self).wf(),
            final(self)@ == old(self)@.after_thread_name_update(
                e.pid,
                e.tid,
                lossy_text(e.name@),
                e.is_execve,
                timestamp,
            ),
            valid_utf8(e.name@) ==> final(self)@ == old(self)@.after_thread_name_update(
                e.pid,
                e.tid,
                decode_utf8(e.name@),
                e.is_execve,
                timestamp,
            ),
    {
        let name = from_utf8_lossy(e.name.as_slice());
        self.update_thread_name(e.pid, e.tid, name.as_str(), e.is_execve, timestamp);
    }
}

} // verus!
