//! Samples, context switches and memory statistics.

use crate::context_switch::OffCpuSampleGroup;
use crate::converter::{Converter, ConverterView, SampleRecord, Settings};
use crate::processes::{ProcessView, Recording, RecordingView, ThreadView};
use crate::profile::{EntryView, ProfileEntry, RssStatMember};
use crate::stack::{get_sample_stack, reversed, user_only, without_kernel_frames, StackFrame};
use vstd::prelude::*;

verus! {

/// The weight of the off-CPU samples of a group other than the first, nothing
/// if there are too many to count.
pub open spec fn rest_weight(sample_count: u64, weight_per_sample: i32) -> i32 {
    if sample_count - 1 <= i32::MAX {
        ((sample_count - 1) * weight_per_sample) as i32
    } else {
        0
    }
}

/// The samples that stand for a group of off-CPU samples: the first one, which
/// carries the running time that is left over, and one for all others.
pub open spec fn off_cpu_entries(
    group: OffCpuSampleGroup,
    thread: nat,
    cpu_delta_ns: u64,
    weight_per_sample: i32,
    stack: Seq<StackFrame>,
) -> Seq<EntryView> {
    let first = EntryView::AddSample {
        thread,
        time: group.begin_timestamp,
        mono_time: group.begin_timestamp,
        stack,
        cpu_delta_ns,
        weight: weight_per_sample,
    };
    let rest = EntryView::AddSample {
        thread,
        time: group.end_timestamp,
        mono_time: group.begin_timestamp,
        stack,
        cpu_delta_ns: 0,
        weight: rest_weight(group.sample_count, weight_per_sample),
    };
    if group.sample_count > 1 {
        seq![first, rest]
    } else {
        seq![first]
    }
}

/// Makes the samples that stand for a group of off-CPU samples.
pub fn process_off_cpu_sample_group(
    off_cpu_sample: OffCpuSampleGroup,
    thread_handle: usize,
    cpu_delta_ns: u64,
    off_cpu_weight_per_sample: i32,
    off_cpu_stack: Vec<StackFrame>,
    recording: &mut Recording,
)
    requires
        0 <= off_cpu_weight_per_sample <= 1,
    ensures
        final(recording)@ == old(recording)@.logged_all(
            off_cpu_entries(
                off_cpu_sample,
                thread_handle as nat,
                cpu_delta_ns,
                off_cpu_weight_per_sample,
                off_cpu_stack@,
            ),
        ),
{
    let ghost before = recording@;
    let rest_stack = vstd::slice::slice_to_vec(off_cpu_stack.as_slice());
    recording.log(
        ProfileEntry::AddSample {
            thread: thread_handle,
            time: off_cpu_sample.begin_timestamp,
            mono_time: off_cpu_sample.begin_timestamp,
            stack: off_cpu_stack,
            cpu_delta_ns,
            weight: off_cpu_weight_per_sample,
        },
    );
    if off_cpu_sample.sample_count > 1 {
        // One sample with a CPU delta of zero covers the rest of the paused range.
        let rest: u64 = off_cpu_sample.sample_count - 1;
        let count: i32 = if rest <= 0x7fff_ffff {
            rest as i32
        } else {
            0
        };
        assert(0 <= count * off_cpu_weight_per_sample <= count) by (nonlinear_arith)
            requires
                0 <= off_cpu_weight_per_sample <= 1,
                0 <= count,
        ;
        recording.log(
            ProfileEntry::AddSample {
                thread: thread_handle,
                time: off_cpu_sample.end_timestamp,
                mono_time: off_cpu_sample.begin_timestamp,
                stack: rest_stack,
                cpu_delta_ns: 0,
                weight: count * off_cpu_weight_per_sample,
            },
        );
    }
    assert(recording@ =~= before.logged_all(
        off_cpu_entries(
            off_cpu_sample,
            thread_handle as nat,
            cpu_delta_ns,
            off_cpu_weight_per_sample,
            off_cpu_stack@,
        ),
    ));
}

impl ThreadView {
    /// The group of off-CPU samples to be made when the thread is seen
    /// running: there must be one, and a stack to go with it.
    pub open spec fn sampled_pause(self, interval: u64, timestamp: u64) -> bool {
        self.context_switch_data.off_cpu_group(interval, timestamp) is Some
            && self.off_cpu_stack is Some
    }

    /// The off-CPU samples to be made when the thread is seen running.
    pub open spec fn pause_entries(self, settings: Settings, timestamp: u64) -> Seq<EntryView> {
        let interval = settings.off_cpu_interval();
        if self.sampled_pause(interval, timestamp) {
            off_cpu_entries(
                self.context_switch_data.off_cpu_group(interval, timestamp)->0,
                self.handle,
                self.context_switch_data.after_running(interval, timestamp).on_cpu_ns,
                settings.off_cpu_weight_per_sample,
                self.off_cpu_stack->0,
            )
        } else {
            Seq::empty()
        }
    }

    /// The thread after it was seen running and its off-CPU samples were made.
    pub open spec fn running_again(self, settings: Settings, timestamp: u64) -> ThreadView {
        let interval = settings.off_cpu_interval();
        let accounts = self.context_switch_data.after_running(interval, timestamp);
        ThreadView {
            off_cpu_stack: None,
            context_switch_data: if self.sampled_pause(interval, timestamp) {
                accounts.consumed()
            } else {
                accounts
            },
            ..self
        }
    }
}

impl RecordingView {
    /// The recording after a live process's JITDUMP files were checked.
    pub open spec fn jitdump_checked(self, pid: i32) -> RecordingView {
        let live = self.with_live_process(pid);
        live.logged(EntryView::CheckJitdump { process: live.processes[pid].handle })
    }

    /// The recording after a sample with a new timestamp.
    pub open spec fn with_sample(
        self,
        settings: Settings,
        pid: i32,
        tid: i32,
        timestamp: u64,
        period: Option<u64>,
        stack: Seq<StackFrame>,
    ) -> RecordingView {
        let thread = self.thread(pid, tid);
        let running = ThreadView {
            last_sample_timestamp: Some(timestamp),
            ..thread.running_again(settings, timestamp)
        };
        let sample = EntryView::AddSample {
            thread: thread.handle,
            time: timestamp,
            mono_time: timestamp,
            stack,
            cpu_delta_ns: if settings.have_context_switches {
                running.context_switch_data.on_cpu_ns
            } else if period is Some {
                period->0
            } else {
                0
            },
            weight: 1,
        };
        self.with_thread(
            pid,
            tid,
            ThreadView {
                context_switch_data: if settings.have_context_switches {
                    running.context_switch_data.consumed()
                } else {
                    running.context_switch_data
                },
                ..running
            },
        ).logged_all(thread.pause_entries(settings, timestamp)).logged(sample)
    }
}

impl ConverterView {
    /// The state after a sample. A sample with the timestamp of the thread's
    /// previous one is a duplicate, and ignored.
    pub open spec fn after_sample(self, e: SampleRecord) -> ConverterView {
        let pid = e.pid->0;
        let tid = e.tid->0;
        let timestamp = e.timestamp->0;
        let seen = self.recording.jitdump_checked(pid).with_live_thread(pid, tid);
        ConverterView {
            current_sample_time: timestamp,
            recording: if seen.thread(pid, tid).last_sample_timestamp == Some(timestamp) {
                seen
            } else {
                seen.with_sample(
                    self.settings,
                    pid,
                    tid,
                    timestamp,
                    e.period,
                    e.stack.stack(self.settings.fold_recursive_prefix).reverse(),
                )
            },
            ..self
        }
    }
}

impl Converter {
    /// Looks a process up and has its JITDUMP files checked.
    pub(crate) fn check_jitdump(&mut self, pid: i32)
        ensures
            final(self)@ == (ConverterView {
                recording: old(self)@.recording.jitdump_checked(pid),
                ..old(self)@
            }),
    {
        let process: usize = self.recording.ensure_process(pid);
        self.recording.log(ProfileEntry::CheckJitdump { process });
    }

    /// Handles a sample.
    pub fn handle_sample(&mut self, e: &SampleRecord)
        requires
            old(self).wf(),
            e.pid is Some,
            e.tid is Some,
            e.timestamp is Some,
        ensures
            final(self).wf(),
            final(self)@ == old(self)@.after_sample(*e),
    {
        let pid: i32 = e.pid.unwrap();
        let tid: i32 = e.tid.unwrap();
        let timestamp: u64 = e.timestamp.unwrap();
        self.current_sample_time = timestamp;
        self.check_jitdump(pid);
        let stack = get_sample_stack(&e.stack, self.settings.fold_recursive_prefix);
        let thread_handle: usize = self.recording.ensure_thread(pid, tid);
        if self.recording.thread(pid, tid).last_sample_timestamp == Some(timestamp) {
            // Duplicate sample. Ignore.
            return;
        }
        let handler = self.settings.context_switch_handler;
        let have_context_switches = self.settings.have_context_switches;
        let thread = self.recording.thread_mut(pid, tid);
        thread.last_sample_timestamp = Some(timestamp);
        // Consume off-cpu time and clear any saved off-CPU stack.
        let off_cpu_sample = handler.handle_sample(timestamp, &mut thread.context_switch_data);
        let off_cpu_stack = thread.off_cpu_stack.take();
        let mut off_cpu_delta_ns: u64 = 0;
        if off_cpu_sample.is_some() && off_cpu_stack.is_some() {
            off_cpu_delta_ns = handler.consume_cpu_delta(&mut thread.context_switch_data);
        }
        let cpu_delta_ns: u64 = if have_context_switches {
            handler.consume_cpu_delta(&mut thread.context_switch_data)
        } else if let Some(period) = e.period {
            period
        } else {
            0
        };
        if let (Some(off_cpu_sample), Some(off_cpu_stack)) = (off_cpu_sample, off_cpu_stack) {
            process_off_cpu_sample_group(
                off_cpu_sample,
                thread_handle,
                off_cpu_delta_ns,
                self.settings.off_cpu_weight_per_sample,
                off_cpu_stack,
                &mut self.recording,
            );
        }
        self.recording.log(
            ProfileEntry::AddSample {
                thread: thread_handle,
                time: timestamp,
                mono_time: timestamp,
                stack: reversed(&stack),
                cpu_delta_ns,
                weight: 1,
            },
        );
        assert(self@ =~= old(self)@.after_sample(*e));
    }
}

/// A change of a process's resident memory.
#[derive(Clone, Copy, Debug, PartialEq, Eq, Structural)]
pub struct RssStat {
    /// The number of the kind of memory.
    pub member: i32,
    /// The new size.
    pub size: i64,
}

/// The number of file mappings in [`RssStat::member`].
pub const MM_FILEPAGES: i32 = 0;

/// The number of anonymous memory in [`RssStat::member`].
pub const MM_ANONPAGES: i32 = 1;

/// The number of swapped-out memory in [`RssStat::member`].
pub const MM_SWAPENTS: i32 = 2;

/// The number of shared memory in [`RssStat::member`].
pub const MM_SHMEMPAGES: i32 = 3;

impl RssStat {
    /// The kind of memory, if it is a known one.
    pub open spec fn kind(self) -> Option<RssStatMember> {
        if self.member == MM_FILEPAGES {
            Some(RssStatMember::ResidentFileMappingPages)
        } else if self.member == MM_ANONPAGES {
            Some(RssStatMember::ResidentAnonymousPages)
        } else if self.member == MM_SHMEMPAGES {
            Some(RssStatMember::ResidentSharedMemoryPages)
        } else if self.member == MM_SWAPENTS {
            Some(RssStatMember::AnonymousSwapEntries)
        } else {
            None
        }
    }

    /// The kind of memory, if it is a known one.
    pub fn get_kind(&self) -> (r: Option<RssStatMember>)
        ensures
            r == self.kind(),
    {
        if self.member == MM_FILEPAGES {
            Some(RssStatMember::ResidentFileMappingPages)
        } else if self.member == MM_ANONPAGES {
            Some(RssStatMember::ResidentAnonymousPages)
        } else if self.member == MM_SHMEMPAGES {
            Some(RssStatMember::ResidentSharedMemoryPages)
        } else if self.member == MM_SWAPENTS {
            Some(RssStatMember::AnonymousSwapEntries)
        } else {
            None
        }
    }
}

/// A context switch.
#[derive(Clone, Copy, Debug, PartialEq, Eq, Structural)]
pub enum ContextSwitchRecord {
    /// The thread starts to run.
    In,
    /// The thread stops to run.
    Out,
}

/// The thread and the time of a record.
#[derive(Clone, Copy, Debug, PartialEq, Eq, Structural)]
pub struct CommonData {
    pub pid: Option<i32>,
    pub tid: Option<i32>,
    pub timestamp: Option<u64>,
}

impl RecordingView {
    /// By how much the size of a live process's memory changes.
    pub open spec fn rss_delta(self, pid: i32, member: RssStatMember, size: i64) -> int {
        size - self.with_live_process(pid).processes[pid].rss.size_of(member)
    }

    /// The recording after the size of a live process's memory changed.
    pub open spec fn with_rss_stat(
        self,
        pid: i32,
        timestamp: u64,
        member: RssStatMember,
        size: i64,
        stack: Seq<StackFrame>,
    ) -> RecordingView {
        let process = self.processes[pid];
        let delta = (size - process.rss.size_of(member)) as i64;
        let updated = self.with_process(
            pid,
            ProcessView { rss: process.rss.with_size(member, size), ..process },
        );
        let counted = if member == RssStatMember::ResidentAnonymousPages {
            updated.logged(
                EntryView::AddMemoryCounterSample {
                    process: process.handle,
                    time: timestamp,
                    delta,
                },
            )
        } else {
            updated
        };
        counted.logged(EntryView::CheckJitdump { process: process.handle }).logged(
            EntryView::AddRssStatMarker {
                thread: process.main_thread.handle,
                time: timestamp,
                stack,
                member,
                size,
                delta,
            },
        )
    }
}

impl ConverterView {
    /// The stack of a sample, outermost frame first.
    pub open spec fn sample_stack(self, e: SampleRecord) -> Seq<StackFrame> {
        e.stack.stack(self.settings.fold_recursive_prefix).reverse()
    }

    /// The state after a thread was switched out, at a known stack.
    pub open spec fn after_sched_switch(self, e: SampleRecord) -> ConverterView {
        let pid = e.pid->0;
        let tid = e.tid->0;
        let seen = self.recording.jitdump_checked(pid).with_live_thread(pid, tid);
        ConverterView {
            recording: seen.with_thread(
                pid,
                tid,
                ThreadView {
                    off_cpu_stack: Some(user_only(self.sample_stack(e))),
                    ..seen.thread(pid, tid)
                },
            ),
            ..self
        }
    }

    /// The state after a change of a process's memory. A change that cannot be
    /// placed, in time or by its kind, is ignored.
    pub open spec fn after_rss_stat(
        self,
        e: SampleRecord,
        rss_stat: Option<RssStat>,
    ) -> ConverterView {
        let live = self.recording.with_live_process(e.pid->0);
        ConverterView {
            recording: if rss_stat is Some && e.timestamp is Some && rss_stat->0.kind() is Some {
                live.with_rss_stat(
                    e.pid->0,
                    e.timestamp->0,
                    rss_stat->0.kind()->0,
                    rss_stat->0.size,
                    self.sample_stack(e),
                )
            } else {
                live
            },
            ..self
        }
    }

    /// The state after an event other than the one that is sampled. It is
    /// marked on the thread, or on the process's main thread where the thread
    /// is not known.
    pub open spec fn after_other_event_sample(
        self,
        e: SampleRecord,
        attr_index: usize,
    ) -> ConverterView {
        let pid = e.pid->0;
        let tid = match e.tid {
            Some(tid) => tid,
            None => pid,
        };
        let seen = self.recording.jitdump_checked(pid).with_live_thread(pid, tid);
        ConverterView {
            recording: seen.logged(
                EntryView::AddOtherEventMarker {
                    thread: seen.thread(pid, tid).handle,
                    time: e.timestamp->0,
                    stack: self.sample_stack(e),
                    attr_index,
                },
            ),
            ..self
        }
    }

    /// The state after a context switch.
    pub open spec fn after_context_switch(
        self,
        e: ContextSwitchRecord,
        common: CommonData,
    ) -> ConverterView {
        let pid = common.pid->0;
        let tid = common.tid->0;
        let timestamp = common.timestamp->0;
        let seen = self.recording.with_live_process(pid).with_live_thread(pid, tid);
        let thread = seen.thread(pid, tid);
        ConverterView {
            recording: match e {
                ContextSwitchRecord::In => seen.with_thread(
                    pid,
                    tid,
                    thread.running_again(self.settings, timestamp),
                ).logged_all(thread.pause_entries(self.settings, timestamp)),
                ContextSwitchRecord::Out => seen.with_thread(
                    pid,
                    tid,
                    ThreadView {
                        context_switch_data: thread.context_switch_data.switched_out(timestamp),
                        ..thread
                    },
                ),
            },
            ..self
        }
    }
}

impl Converter {
    /// Handles a sample of the scheduler's event for a thread that is switched
    /// out. Its stack is the one for the off-CPU samples of the pause.
    pub fn handle_sched_switch(&mut self, e: &SampleRecord)
        requires
            e.pid is Some,
            e.tid is Some,
        ensures
            old(self).wf() ==> final(self).wf(),
            final(self)@ == old(self)@.after_sched_switch(*e),
    {
        let pid: i32 = e.pid.unwrap();
        let tid: i32 = e.tid.unwrap();
        self.check_jitdump(pid);
        let stack = get_sample_stack(&e.stack, self.settings.fold_recursive_prefix);
        let stack = without_kernel_frames(&reversed(&stack));
        self.recording.ensure_thread(pid, tid);
        let thread = self.recording.thread_mut(pid, tid);
        thread.off_cpu_stack = Some(stack);
    }

    /// Whether the change that a memory statistic stands for fits its counter.
    pub fn rss_stat_fits(&self, e: &SampleRecord, rss_stat: &RssStat) -> (r: bool)
        requires
            e.pid is Some,
        ensures
            r == (e.timestamp is Some && rss_stat.kind() is Some ==> i64::MIN <= self@.recording.rss_delta(
                e.pid->0,
                rss_stat.kind()->0,
                rss_stat.size,
            ) <= i64::MAX),
    {
        let process = self.recording.processes.get(&e.pid.unwrap());
        let previous: i64 = match (process, rss_stat.get_kind()) {
            (Some(process), Some(member)) => process.rss.get(member),
            _ => 0,
        };
        e.timestamp.is_none() || rss_stat.size.checked_sub(previous).is_some()
    }

    /// Handles a sample of the event for a change of the process's memory.
    /// `rss_stat` is what the sample's raw data says, if it can be read.
    pub fn handle_rss_stat(&mut self, e: &SampleRecord, rss_stat: Option<RssStat>)
        requires
            e.pid is Some,
            rss_stat is Some && e.timestamp is Some && rss_stat->0.kind() is Some ==> i64::MIN <= old(
                self,
            )@.recording.rss_delta(e.pid->0, rss_stat->0.kind()->0, rss_stat->0.size) <= i64::MAX,
        ensures
            old(self).wf() ==> final(self).wf(),
            final(self)@ == old(self)@.after_rss_stat(*e, rss_stat),
    {
        let pid: i32 = e.pid.unwrap();
        let process_handle: usize = self.recording.ensure_process(pid);
        let (rss_stat, timestamp) = match (rss_stat, e.timestamp) {
            (Some(rss_stat), Some(timestamp)) => (rss_stat, timestamp),
            _ => return ,
        };
        let member = match rss_stat.get_kind() {
            Some(member) => member,
            None => return ,
        };
        let process = self.recording.process_mut(pid);
        let delta: i64 = rss_stat.size - process.rss.get(member);
        process.rss.set(member, rss_stat.size);
        let thread_handle: usize = process.main_thread.handle;
        if rss_stat.member == MM_ANONPAGES {
            self.recording.log(
                ProfileEntry::AddMemoryCounterSample {
                    process: process_handle,
                    time: timestamp,
                    delta,
                },
            );
        }
        self.recording.log(ProfileEntry::CheckJitdump { process: process_handle });
        let stack = get_sample_stack(&e.stack, self.settings.fold_recursive_prefix);
        self.recording.log(
            ProfileEntry::AddRssStatMarker {
                thread: thread_handle,
                time: timestamp,
                stack: reversed(&stack),
                member,
                size: rss_stat.size,
                delta,
            },
        );
    }

    /// Handles a sample of an event other than the one that is sampled.
    pub fn handle_other_event_sample(&mut self, e: &SampleRecord, attr_index: usize)
        requires
            e.pid is Some,
            e.timestamp is Some,
        ensures
            old(self).wf() ==> final(self).wf(),
            final(self)@ == old(self)@.after_other_event_sample(*e, attr_index),
    {
        let pid: i32 = e.pid.unwrap();
        let timestamp: u64 = e.timestamp.unwrap();
        self.check_jitdump(pid);
        let stack = get_sample_stack(&e.stack, self.settings.fold_recursive_prefix);
        let thread: usize = match e.tid {
            Some(tid) => self.recording.ensure_thread(pid, tid),
            None => self.recording.ensure_thread(pid, pid),
        };
        self.recording.log(
            ProfileEntry::AddOtherEventMarker {
                thread,
                time: timestamp,
                stack: reversed(&stack),
                attr_index,
            },
        );
    }

    /// Handles a context switch.
    pub fn handle_context_switch(&mut self, e: ContextSwitchRecord, common: CommonData)
        requires
            old(self).wf(),
            common.pid is Some,
            common.tid is Some,
            common.timestamp is Some,
        ensures
            final(self).wf(),
            final(self)@ == old(self)@.after_context_switch(e, common),
    {
        let pid: i32 = common.pid.unwrap();
        let tid: i32 = common.tid.unwrap();
        let timestamp: u64 = common.timestamp.unwrap();
        self.recording.ensure_process(pid);
        let thread_handle: usize = self.recording.ensure_thread(pid, tid);
        let handler = self.settings.context_switch_handler;
        let thread = self.recording.thread_mut(pid, tid);
        match e {
            ContextSwitchRecord::In => {
                // Consume off-cpu time and clear the saved off-CPU stack.
                let off_cpu_sample = handler.handle_switch_in(
                    timestamp,
                    &mut thread.context_switch_data,
                );
                let off_cpu_stack = thread.off_cpu_stack.take();
                if let (Some(off_cpu_sample), Some(off_cpu_stack)) = (
                    off_cpu_sample,
                    off_cpu_stack,
                ) {
                    let cpu_delta_ns: u64 = handler.consume_cpu_delta(
                        &mut thread.context_switch_data,
                    );
                    process_off_cpu_sample_group(
                        off_cpu_sample,
                        thread_handle,
                        cpu_delta_ns,
                        self.settings.off_cpu_weight_per_sample,
                        off_cpu_stack,
                        &mut self.recording,
                    );
                }
                assert(self@ =~= old(self)@.after_context_switch(e, common));
            },
            ContextSwitchRecord::Out => {
                handler.handle_switch_out(timestamp, &mut thread.context_switch_data);
            },
        }
    }
}

} // verus!
