use samply::context_switch::{OffCpuSampleGroup, ThreadState};
use samply::converter::{Converter, EventInterpretation, SampleRecord};
use samply::keyed::KeyedList;
use samply::processes::Recording;
use samply::profile::{ProfileEntry, RssStatMember};
use samply::samples::{
    process_off_cpu_sample_group, CommonData, ContextSwitchRecord, RssStat, MM_ANONPAGES,
    MM_FILEPAGES, MM_SHMEMPAGES, MM_SWAPENTS,
};
use samply::stack::{
    CpuMode, StackFrame, StackMode, StackSource, PERF_CONTEXT_KERNEL, PERF_CONTEXT_USER,
};
use samply::threads::{CommOrExecRecord, ForkOrExitRecord};

fn converter(
    interval: Option<u64>,
    have_context_switches: bool,
    merge_threads: bool,
    delayed_product_name: bool,
) -> Converter {
    Converter::new(
        "product",
        delayed_product_name,
        KeyedList::new(),
        None,
        1000,
        true,
        None,
        EventInterpretation {
            sampling_is_time_based: interval,
            have_context_switches,
            event_names: vec!["cycles".to_owned()],
        },
        None,
        merge_threads,
        false,
    )
}

fn sample(pid: i32, tid: i32, timestamp: u64, addresses: Vec<u64>) -> SampleRecord {
    SampleRecord {
        pid: Some(pid),
        tid: Some(tid),
        timestamp: Some(timestamp),
        period: None,
        stack: StackSource {
            cpu_mode: CpuMode::User,
            ip: None,
            callchain: Some(addresses),
            user_stack: None,
        },
    }
}

fn common(pid: i32, tid: i32, timestamp: u64) -> CommonData {
    CommonData { pid: Some(pid), tid: Some(tid), timestamp: Some(timestamp) }
}

fn ip(address: u64) -> StackFrame {
    StackFrame::InstructionPointer(address, StackMode::User)
}

fn ra(address: u64) -> StackFrame {
    StackFrame::ReturnAddress(address, StackMode::User)
}

fn same(actual: &[ProfileEntry], expected: &[ProfileEntry]) {
    let actual: Vec<String> = actual.iter().map(|e| format!("{e:?}")).collect();
    let expected: Vec<String> = expected.iter().map(|e| format!("{e:?}")).collect();
    assert_eq!(actual, expected);
}

fn add_sample(
    thread: usize,
    time: u64,
    mono_time: u64,
    stack: Vec<StackFrame>,
    cpu_delta_ns: u64,
    weight: i32,
) -> ProfileEntry {
    ProfileEntry::AddSample { thread, time, mono_time, stack, cpu_delta_ns, weight }
}

#[test]
fn settings_of_a_conversion() {
    let c = converter(Some(250), true, true, false);
    assert_eq!(c.settings.interval_ns, 250);
    assert_eq!(c.settings.context_switch_handler.off_cpu_sampling_interval_ns, 250);
    assert_eq!(c.settings.off_cpu_weight_per_sample, 1);
    assert_eq!(c.settings.reference_timestamp, 1000);
    assert_eq!(c.current_sample_time, 1000);
    assert!(c.have_product_name);
    assert!(c.recording.merge_threads);
    let c = converter(None, false, false, true);
    assert_eq!(c.settings.interval_ns, 1_000_000);
    assert_eq!(c.settings.context_switch_handler.off_cpu_sampling_interval_ns, 1_000_000);
    assert_eq!(c.settings.off_cpu_weight_per_sample, 0);
    assert!(!c.have_product_name);
    let profile = c.finish();
    assert_eq!(profile.product, "product");
    assert_eq!(profile.interval_ns, 1_000_000);
    assert_eq!(profile.reference_timestamp, 1000);
    assert_eq!(profile.event_names, vec!["cycles"]);
    assert!(profile.entries.is_empty());
}

#[test]
fn samples_add_their_process_and_thread() {
    let mut c = converter(Some(100), false, false, false);
    let mut e = sample(7, 8, 2000, vec![0x10, 0x20]);
    e.period = Some(55);
    c.handle_sample(&e);
    assert_eq!(c.current_sample_time, 2000);
    c.handle_sample(&sample(7, 7, 2100, vec![0x30]));
    same(
        &c.finish().entries,
        &[
            ProfileEntry::AddProcess { pid: 7 },
            ProfileEntry::AddThread { process: 0, tid: 7, is_main: true },
            ProfileEntry::CheckJitdump { process: 0 },
            ProfileEntry::AddThread { process: 0, tid: 8, is_main: false },
            add_sample(3, 2000, 2000, vec![ra(0x20), ip(0x10)], 55, 1),
            ProfileEntry::CheckJitdump { process: 0 },
            add_sample(1, 2100, 2100, vec![ip(0x30)], 0, 1),
        ],
    );
}

#[test]
fn duplicate_samples_are_ignored() {
    let mut c = converter(Some(100), true, false, false);
    c.handle_sample(&sample(7, 7, 2000, vec![0x10]));
    let before = c.recording.entries.len();
    c.handle_sample(&sample(7, 7, 2000, vec![0x20]));
    assert_eq!(c.recording.entries.len(), before + 1);
    same(&c.recording.entries[before..], &[ProfileEntry::CheckJitdump { process: 0 }]);
    // A sample of another thread at the same time is none.
    c.handle_sample(&sample(7, 9, 2000, vec![0x20]));
    assert_eq!(c.recording.entries.len(), before + 4);
}

#[test]
fn cpu_deltas_come_from_context_switches() {
    let mut c = converter(Some(1000), true, false, false);
    c.handle_context_switch(ContextSwitchRecord::In, common(7, 7, 2000));
    let mut e = sample(7, 7, 2300, vec![0x10]);
    e.period = Some(99);
    c.handle_sample(&e);
    c.handle_sample(&sample(7, 7, 2400, vec![0x10]));
    let entries = c.finish().entries;
    same(&entries[3..4], &[add_sample(1, 2300, 2300, vec![ip(0x10)], 300, 1)]);
    same(&entries[5..6], &[add_sample(1, 2400, 2400, vec![ip(0x10)], 100, 1)]);
}

#[test]
fn pauses_with_a_known_stack_become_samples() {
    let mut c = converter(Some(100), true, false, false);
    c.handle_context_switch(ContextSwitchRecord::In, common(7, 7, 1900));
    c.handle_sched_switch(&sample(
        7,
        7,
        2000,
        vec![PERF_CONTEXT_KERNEL, 0xffff_0000_0000_0000, PERF_CONTEXT_USER, 0x10],
    ));
    c.handle_context_switch(ContextSwitchRecord::Out, common(7, 7, 2000));
    let before = c.recording.entries.len();
    c.handle_context_switch(ContextSwitchRecord::In, common(7, 7, 2350));
    // Kernel frames are not part of an off-CPU stack.
    same(
        &c.recording.entries[before..],
        &[
            add_sample(1, 2100, 2100, vec![ra(0x10)], 100, 1),
            add_sample(1, 2300, 2100, vec![ra(0x10)], 0, 2),
        ],
    );
    let thread = c.recording.thread(7, 7);
    assert!(thread.off_cpu_stack.is_none());
    assert_eq!(thread.context_switch_data.state, ThreadState::On { last_seen: 2350 });
    assert_eq!(thread.context_switch_data.off_cpu_ns, 50);
    // Without a stack the next pause has no samples, though it is long enough.
    c.handle_context_switch(ContextSwitchRecord::Out, common(7, 7, 2400));
    let before = c.recording.entries.len();
    c.handle_sample(&sample(7, 7, 2600, vec![0x40]));
    same(
        &c.recording.entries[before..],
        &[
            ProfileEntry::CheckJitdump { process: 0 },
            add_sample(1, 2600, 2600, vec![ip(0x40)], 50, 1),
        ],
    );
}

#[test]
fn pause_ended_by_a_sample() {
    let mut c = converter(None, true, false, false);
    c.handle_context_switch(ContextSwitchRecord::In, common(7, 7, 1_000));
    c.handle_sched_switch(&sample(7, 7, 2_000, vec![0x10]));
    c.handle_context_switch(ContextSwitchRecord::Out, common(7, 7, 2_000));
    let before = c.recording.entries.len();
    c.handle_sample(&sample(7, 7, 1_502_000, vec![0x40]));
    // Recordings that are not sampled by time give their off-CPU samples no weight.
    same(
        &c.recording.entries[before..],
        &[
            ProfileEntry::CheckJitdump { process: 0 },
            add_sample(1, 1_002_000, 1_002_000, vec![ip(0x10)], 1_000, 0),
            add_sample(1, 1_502_000, 1_502_000, vec![ip(0x40)], 0, 1),
        ],
    );
}

#[test]
fn running_time_is_conserved() {
    let mut c = converter(Some(100), true, false, false);
    let mut time: u64 = 2_000;
    let mut running: u64 = 0;
    for (run, pause) in [(30u64, 500u64), (10, 20), (77, 100), (1, 250), (9, 1)] {
        c.handle_context_switch(ContextSwitchRecord::In, common(7, 7, time));
        time += run;
        running += run;
        c.handle_sched_switch(&sample(7, 7, time, vec![0x10]));
        c.handle_context_switch(ContextSwitchRecord::Out, common(7, 7, time));
        time += pause;
    }
    c.handle_sample(&sample(7, 7, time, vec![0x20]));
    let mut sampled: u64 = 0;
    for e in &c.recording.entries {
        if let ProfileEntry::AddSample { cpu_delta_ns, .. } = e {
            sampled += *cpu_delta_ns;
        }
    }
    assert_eq!(sampled, running);
    assert_eq!(c.recording.thread(7, 7).context_switch_data.on_cpu_ns, 0);
}

#[test]
fn large_groups_have_no_weight() {
    let mut recording = Recording::new(false);
    let group =
        OffCpuSampleGroup { begin_timestamp: 1, end_timestamp: 2, sample_count: (1 << 31) + 1 };
    process_off_cpu_sample_group(group, 5, 9, 1, vec![ip(3)], &mut recording);
    let group = OffCpuSampleGroup { sample_count: 1 << 31, ..group };
    process_off_cpu_sample_group(group, 5, 9, 1, vec![ip(3)], &mut recording);
    let group = OffCpuSampleGroup { sample_count: 1, ..group };
    process_off_cpu_sample_group(group, 5, 9, 0, vec![], &mut recording);
    same(
        &recording.entries,
        &[
            add_sample(5, 1, 1, vec![ip(3)], 9, 1),
            add_sample(5, 2, 1, vec![ip(3)], 0, 0),
            add_sample(5, 1, 1, vec![ip(3)], 9, 1),
            add_sample(5, 2, 1, vec![ip(3)], 0, i32::MAX),
            add_sample(5, 1, 1, vec![], 9, 0),
        ],
    );
}

fn stat(member: i32, size: i64) -> Option<RssStat> {
    Some(RssStat { member, size })
}

#[test]
fn memory_changes_add_up() {
    let mut c = converter(Some(100), false, false, false);
    c.handle_rss_stat(&sample(7, 7, 2000, vec![0x10]), stat(MM_ANONPAGES, 500));
    c.handle_rss_stat(&sample(7, 8, 2100, vec![0x10]), stat(MM_ANONPAGES, 200));
    c.handle_rss_stat(&sample(7, 7, 2200, vec![]), stat(MM_FILEPAGES, 4));
    let marker = |time, stack, member, size, delta| ProfileEntry::AddRssStatMarker {
        thread: 1,
        time,
        stack,
        member,
        size,
        delta,
    };
    let anon = RssStatMember::ResidentAnonymousPages;
    same(
        &c.recording.entries,
        &[
            ProfileEntry::AddProcess { pid: 7 },
            ProfileEntry::AddThread { process: 0, tid: 7, is_main: true },
            ProfileEntry::AddMemoryCounterSample { process: 0, time: 2000, delta: 500 },
            ProfileEntry::CheckJitdump { process: 0 },
            marker(2000, vec![ip(0x10)], anon, 500, 500),
            ProfileEntry::AddMemoryCounterSample { process: 0, time: 2100, delta: -300 },
            ProfileEntry::CheckJitdump { process: 0 },
            marker(2100, vec![ip(0x10)], anon, 200, -300),
            ProfileEntry::CheckJitdump { process: 0 },
            marker(2200, vec![], RssStatMember::ResidentFileMappingPages, 4, 4),
        ],
    );
    assert_eq!(c.recording.process(7).rss.anon_pages, 200);
    assert_eq!(c.recording.process(7).rss.file_pages, 4);
}

#[test]
fn kinds_of_memory() {
    for (member, kind) in [
        (MM_FILEPAGES, Some(RssStatMember::ResidentFileMappingPages)),
        (MM_ANONPAGES, Some(RssStatMember::ResidentAnonymousPages)),
        (MM_SWAPENTS, Some(RssStatMember::AnonymousSwapEntries)),
        (MM_SHMEMPAGES, Some(RssStatMember::ResidentSharedMemoryPages)),
        (4, None),
        (-1, None),
    ] {
        assert_eq!(RssStat { member, size: 0 }.get_kind(), kind);
    }
}

#[test]
fn unplaced_memory_changes_are_ignored() {
    let mut c = converter(Some(100), false, false, false);
    c.handle_rss_stat(&sample(7, 7, 2000, vec![]), None);
    c.handle_rss_stat(&sample(7, 7, 2000, vec![]), stat(17, 5));
    let mut e = sample(7, 7, 2000, vec![]);
    e.timestamp = None;
    c.handle_rss_stat(&e, stat(MM_ANONPAGES, 5));
    // The process is there all the same.
    assert_eq!(c.recording.entries.len(), 2);
    assert_eq!(c.recording.process(7).rss.anon_pages, 0);
}

#[test]
fn memory_changes_must_fit() {
    let mut c = converter(Some(100), false, false, false);
    let e = sample(7, 7, 2000, vec![]);
    let low = RssStat { member: MM_ANONPAGES, size: -2 };
    let high = RssStat { member: MM_ANONPAGES, size: i64::MAX };
    assert!(c.rss_stat_fits(&e, &high));
    assert!(c.rss_stat_fits(&e, &low));
    c.handle_rss_stat(&e, Some(low));
    assert!(!c.rss_stat_fits(&e, &high));
    assert!(c.rss_stat_fits(&e, &RssStat { member: MM_SWAPENTS, size: i64::MAX }));
    assert!(c.rss_stat_fits(&e, &RssStat { member: 99, size: i64::MAX }));
    // A record without a time is ignored, whatever its size.
    let mut e = e;
    e.timestamp = None;
    assert!(c.rss_stat_fits(&e, &high));
    c.handle_rss_stat(&e, Some(high));
    assert_eq!(c.recording.process(7).rss.anon_pages, -2);
}

#[test]
fn memory_changes_add_up_among_other_records() {
    let mut c = converter(Some(100), false, false, false);
    let sizes = [500i64, 200, 200, -7, 90];
    for (i, size) in sizes.into_iter().enumerate() {
        let time = 2000 + 10 * i as u64;
        c.handle_rss_stat(&sample(7, 7, time, vec![]), stat(MM_ANONPAGES, size));
        c.handle_rss_stat(&sample(7, 7, time, vec![]), stat(MM_FILEPAGES, 3 * size));
        c.handle_rss_stat(&sample(8, 8, time, vec![]), stat(MM_ANONPAGES, 1));
        c.handle_sample(&sample(7, 7, time, vec![]));
        c.set_thread_name(7, 7, "name", false);
        c.handle_thread_end(fork(8, 1, 8, 1, time));
    }
    let main_thread = c.recording.process(7).main_thread.handle;
    let mut marked = Vec::new();
    for e in &c.recording.entries {
        if let ProfileEntry::AddRssStatMarker { thread, member, size, delta, .. } = e {
            if *thread == main_thread && *member == RssStatMember::ResidentAnonymousPages {
                marked.push((*size, *delta));
            }
        }
    }
    assert_eq!(marked, vec![(500, 500), (200, -300), (200, 0), (-7, -207), (90, 97)]);
    assert_eq!(marked.iter().map(|(_, delta)| delta).sum::<i64>(), 90);
    assert_eq!(c.recording.process(7).rss.anon_pages, 90);
}

#[test]
fn other_events_are_marked() {
    let mut c = converter(Some(100), false, false, false);
    c.handle_other_event_sample(&sample(7, 8, 2000, vec![0x10]), 3);
    let mut e = sample(7, 8, 2100, vec![0x10]);
    e.tid = None;
    c.handle_other_event_sample(&e, 4);
    let marker = |thread, time, attr_index| ProfileEntry::AddOtherEventMarker {
        thread,
        time,
        stack: vec![ip(0x10)],
        attr_index,
    };
    same(&c.recording.entries[3..5], &[
        ProfileEntry::AddThread { process: 0, tid: 8, is_main: false },
        marker(3, 2000, 3),
    ]);
    same(&c.recording.entries[6..], &[marker(1, 2100, 4)]);
}

fn fork(pid: i32, ppid: i32, tid: i32, ptid: i32, timestamp: u64) -> ForkOrExitRecord {
    ForkOrExitRecord { pid, ppid, tid, ptid, timestamp }
}

fn text(name: &Option<String>) -> Option<&str> {
    name.as_deref()
}

#[test]
fn forked_processes_inherit_names() {
    let mut c = converter(Some(100), false, false, false);
    c.set_thread_name(1, 1, "shell", false);
    c.set_thread_name(1, 2, "worker", false);
    let before = c.recording.entries.len();
    c.handle_thread_start(fork(10, 1, 10, 2, 3000));
    same(
        &c.recording.entries[before..],
        &[
            ProfileEntry::AddProcess { pid: 10 },
            ProfileEntry::AddThread { process: before, tid: 10, is_main: true },
            ProfileEntry::SetThreadName { thread: before + 1, name: "worker".to_owned() },
            ProfileEntry::SetProcessStart { process: before, time: 3000 },
            ProfileEntry::SetThreadStart { thread: before + 1, time: 3000 },
        ],
    );
    assert_eq!(text(&c.recording.process(10).name), Some("shell"));
    assert_eq!(text(&c.recording.process(10).main_thread.name), Some("worker"));
}

#[test]
fn forked_threads_inherit_names() {
    let mut c = converter(Some(100), false, false, false);
    c.set_thread_name(1, 1, "main", false);
    let before = c.recording.entries.len();
    c.handle_thread_start(fork(1, 1, 5, 1, 3000));
    same(
        &c.recording.entries[before..],
        &[
            ProfileEntry::AddThread { process: 0, tid: 5, is_main: false },
            ProfileEntry::SetThreadName { thread: before, name: "main".to_owned() },
            ProfileEntry::SetThreadStart { thread: before, time: 3000 },
        ],
    );
    // A parent without a name hands none down.
    c.handle_thread_start(fork(2, 2, 6, 2, 3000));
    assert_eq!(text(&c.recording.thread(2, 6).name), None);
}

#[test]
fn threads_and_processes_end() {
    let mut c = converter(Some(100), false, false, false);
    c.handle_thread_start(fork(1, 1, 5, 1, 2000));
    let before = c.recording.entries.len();
    c.handle_thread_end(fork(1, 1, 5, 1, 2500));
    c.handle_thread_end(fork(1, 1, 1, 1, 2600));
    // What is not live does not end.
    c.handle_thread_end(fork(1, 1, 1, 1, 2700));
    same(
        &c.recording.entries[before..],
        &[
            ProfileEntry::EndThread { thread: 2, time: 2500 },
            ProfileEntry::EndProcess { process: 0, time: 2600 },
        ],
    );
    // A later process with the same ID is another one.
    c.handle_sample(&sample(1, 1, 2800, vec![]));
    assert_ne!(c.recording.process(1).handle, 0);
}

#[test]
fn names_of_main_threads_are_names_of_processes() {
    let mut c = converter(Some(100), false, false, false);
    c.set_thread_name(1, 1, "a", true);
    c.set_thread_name(1, 2, "b", true);
    same(
        &c.recording.entries,
        &[
            ProfileEntry::AddProcess { pid: 1 },
            ProfileEntry::AddThread { process: 0, tid: 1, is_main: true },
            ProfileEntry::SetThreadName { thread: 1, name: "a".to_owned() },
            ProfileEntry::SetProcessName { process: 0, name: "a".to_owned() },
            ProfileEntry::SetThreadStart { thread: 1, time: 1000 },
            ProfileEntry::SetProcessStart { process: 0, time: 1000 },
            ProfileEntry::AddThread { process: 0, tid: 2, is_main: false },
            ProfileEntry::SetThreadName { thread: 6, name: "b".to_owned() },
            ProfileEntry::SetThreadStart { thread: 6, time: 1000 },
        ],
    );
    assert_eq!(text(&c.recording.process(1).name), Some("a"));
    assert_eq!(text(&c.recording.thread(1, 2).name), Some("b"));
}

#[test]
fn product_is_named_once() {
    let mut c = converter(Some(100), false, false, true);
    c.set_thread_name(1, 1, "perf-exec", false);
    assert!(c.product_name_pending && !c.have_product_name);
    c.set_thread_name(1, 1, "firefox", false);
    assert!(!c.product_name_pending && c.have_product_name);
    c.set_thread_name(2, 2, "other", false);
    let names: Vec<&ProfileEntry> = c
        .recording
        .entries
        .iter()
        .filter(|e| matches!(e, ProfileEntry::SetProductFromThread { .. }))
        .collect();
    assert_eq!(names.len(), 1);
    assert!(matches!(
        names[0],
        ProfileEntry::SetProductFromThread { thread_name } if thread_name == "firefox"
    ));
    // A product that has its name from the start keeps it.
    let mut c = converter(Some(100), false, false, false);
    c.set_thread_name(1, 1, "firefox", false);
    assert_eq!(c.recording.entries.len(), 4);
}

fn comm(pid: i32, tid: i32, name: &[u8], is_execve: bool) -> CommOrExecRecord {
    CommOrExecRecord { pid, tid, name: name.to_vec(), is_execve }
}

#[test]
fn exec_starts_a_new_process() {
    let mut c = converter(Some(100), false, false, false);
    c.handle_sample(&sample(1, 1, 2000, vec![]));
    let before = c.recording.entries.len();
    c.handle_thread_name_update(&comm(1, 1, b"new", true), Some(2100));
    same(
        &c.recording.entries[before..],
        &[
            ProfileEntry::EndProcess { process: 0, time: 2100 },
            ProfileEntry::AddProcess { pid: 1 },
            ProfileEntry::AddThread { process: before + 1, tid: 1, is_main: true },
            ProfileEntry::SetThreadName { thread: before + 2, name: "new".to_owned() },
            ProfileEntry::SetProcessName { process: before + 1, name: "new".to_owned() },
            ProfileEntry::SetThreadStart { thread: before + 2, time: 2000 },
            ProfileEntry::SetProcessStart { process: before + 1, time: 2000 },
        ],
    );
    // A record without a time is taken to be as late as the last sample.
    for timestamp in [None, Some(0)] {
        let before = c.recording.entries.len();
        c.handle_thread_name_update(&comm(1, 1, b"newer", true), timestamp);
        assert!(matches!(
            c.recording.entries[before],
            ProfileEntry::EndProcess { time: 2000, .. }
        ));
    }
}

#[test]
fn exec_on_another_thread_ends_that_thread() {
    let mut c = converter(Some(100), false, false, false);
    c.handle_sample(&sample(1, 5, 2000, vec![]));
    let before = c.recording.entries.len();
    c.handle_thread_name_update(&comm(1, 5, b"t", true), Some(2100));
    same(
        &c.recording.entries[before..],
        &[
            ProfileEntry::EndThread { thread: 3, time: 2100 },
            ProfileEntry::AddThread { process: 0, tid: 5, is_main: false },
            ProfileEntry::SetThreadName { thread: before + 1, name: "t".to_owned() },
            ProfileEntry::SetThreadStart { thread: before + 1, time: 2000 },
        ],
    );
}

#[test]
fn plain_renames_keep_the_thread() {
    let mut c = converter(Some(100), false, false, false);
    c.handle_sample(&sample(1, 5, 2000, vec![]));
    let before = c.recording.entries.len();
    c.handle_thread_name_update(&comm(1, 5, b"t", false), Some(2100));
    same(
        &c.recording.entries[before..],
        &[ProfileEntry::SetThreadName { thread: 3, name: "t".to_owned() }],
    );
}

#[test]
fn names_need_not_be_utf8() {
    let mut c = converter(Some(100), false, false, false);
    c.handle_thread_name_update(&comm(1, 1, &[0x61, 0xff, 0x62], false), None);
    assert_eq!(text(&c.recording.process(1).name), Some("a\u{fffd}b"));
    c.handle_thread_name_update(&comm(1, 1, "ü".as_bytes(), false), None);
    assert_eq!(text(&c.recording.process(1).name), Some("ü"));
}

#[test]
fn merged_processes_take_up_ended_ones() {
    let mut c = converter(Some(100), false, true, false);
    c.set_thread_name(1, 1, "make", false);
    c.set_thread_name(2, 2, "cc", false);
    let cc = c.recording.process(2).handle;
    let cc_thread = c.recording.process(2).main_thread.handle;
    c.set_thread_name(3, 3, "cc", false);
    c.handle_thread_end(fork(2, 1, 2, 1, 3000));
    c.handle_thread_end(fork(3, 1, 3, 1, 3100));
    // The child is called like its parent until it has a name of its own.
    c.handle_thread_start(fork(4, 1, 4, 1, 3200));
    c.handle_thread_name_update(&comm(4, 4, b"cc", true), Some(3300));
    // The one that ended first is taken up first.
    assert_eq!(c.recording.process(4).handle, cc);
    assert_eq!(c.recording.process(4).main_thread.handle, cc_thread);
    assert!(matches!(
        c.recording.entries.last(),
        Some(ProfileEntry::SetProcessName { process, .. }) if *process == cc
    ));
}

#[test]
fn merged_threads_take_up_ended_ones() {
    let mut c = converter(Some(100), false, true, false);
    c.set_thread_name(1, 1, "main", false);
    c.set_thread_name(1, 2, "pool", false);
    let pool = c.recording.thread(1, 2).handle;
    c.handle_thread_end(fork(1, 1, 2, 1, 3000));
    c.handle_thread_start(fork(1, 1, 3, 1, 3100));
    let new_thread = c.recording.thread(1, 3).handle;
    assert_ne!(new_thread, pool);
    let before = c.recording.entries.len();
    c.handle_thread_name_update(&comm(1, 3, b"pool", false), Some(3200));
    same(
        &c.recording.entries[before..],
        &[
            ProfileEntry::EndThread { thread: new_thread, time: 3200 },
            ProfileEntry::SetThreadName { thread: pool, name: "pool".to_owned() },
        ],
    );
    assert_eq!(c.recording.thread(1, 3).handle, pool);
}

#[test]
fn nothing_is_taken_up_without_merging() {
    let mut c = converter(Some(100), false, false, false);
    c.set_thread_name(2, 2, "cc", false);
    c.set_thread_name(2, 5, "pool", false);
    let cc = c.recording.process(2).handle;
    c.handle_thread_end(fork(2, 1, 5, 1, 2900));
    assert!(c.recording.process(2).ended_threads.is_empty());
    c.handle_thread_end(fork(2, 1, 2, 1, 3000));
    assert!(c.recording.ended_processes.is_empty());
    c.handle_thread_name_update(&comm(4, 4, b"cc", true), Some(3300));
    assert_ne!(c.recording.process(4).handle, cc);
}

#[test]
fn handles_are_those_of_the_adding_entries() {
    let mut c = converter(Some(100), true, true, true);
    for step in 0..40 {
        let pid = step % 3;
        let tid = step % 5;
        match step % 4 {
            0 => c.handle_thread_start(fork(pid, (step / 2) % 3, tid, 1, 2000)),
            1 => c.set_thread_name(pid, tid, ["a", "b"][(step % 2) as usize], true),
            2 => c.handle_thread_end(fork(pid, 0, tid, 0, 3000)),
            _ => c.handle_thread_name_update(&comm(pid, tid, b"a", step % 8 == 3), None),
        }
        let mut handles = Vec::new();
        for process in c.recording.processes.values() {
            assert!(matches!(
                c.recording.entries[process.handle],
                ProfileEntry::AddProcess { .. }
            ));
            handles.push(process.handle);
            handles.push(process.main_thread.handle);
            for thread in process.threads.values() {
                assert!(matches!(
                    c.recording.entries[thread.handle],
                    ProfileEntry::AddThread { process: p, is_main: false, .. } if p == process.handle
                ));
                handles.push(thread.handle);
            }
        }
        for process in &c.recording.ended_processes {
            handles.push(process.handle);
            handles.push(process.main_thread);
        }
        let count = handles.len();
        handles.sort();
        handles.dedup();
        assert_eq!(handles.len(), count);
    }
}

fn adds_process(entries: &[ProfileEntry], handle: usize) -> bool {
    matches!(entries.get(handle), Some(ProfileEntry::AddProcess { .. }))
}

fn adds_thread(entries: &[ProfileEntry], handle: usize) -> bool {
    matches!(entries.get(handle), Some(ProfileEntry::AddThread { .. }))
}

#[test]
fn entries_are_appended_and_speak_of_earlier_ones() {
    let mut c = converter(Some(100), true, true, true);
    let mut seen: Vec<String> = Vec::new();
    for step in 0..60u64 {
        let pid = (step % 3) as i32;
        let tid = (step % 4) as i32;
        let time = 2000 + 70 * step;
        match step % 9 {
            0 => c.handle_thread_start(fork(pid, 0, tid, 1, time)),
            1 => c.handle_sample(&sample(pid, tid, time, vec![step])),
            2 => c.handle_sched_switch(&sample(pid, tid, time, vec![step])),
            3 => c.handle_context_switch(ContextSwitchRecord::Out, common(pid, tid, time)),
            4 => c.handle_context_switch(ContextSwitchRecord::In, common(pid, tid, time + 500)),
            5 => c.handle_rss_stat(&sample(pid, tid, time, vec![]), stat(MM_ANONPAGES, 9)),
            6 => c.handle_other_event_sample(&sample(pid, tid, time, vec![]), 1),
            7 => c.handle_thread_name_update(&comm(pid, tid, b"n", step % 2 == 0), Some(time)),
            _ => c.handle_thread_end(fork(pid, 0, tid, 0, time)),
        }
        let entries: Vec<String> = c.recording.entries.iter().map(|e| format!("{e:?}")).collect();
        assert!(entries.starts_with(&seen));
        seen = entries;
        assert_eq!(c.settings.interval_ns, 100);
        assert!(c.recording.merge_threads);
    }
    let entries = c.finish().entries;
    for (i, entry) in entries.iter().enumerate() {
        let before = &entries[..i];
        let refers_back = match entry {
            ProfileEntry::AddThread { process, .. }
            | ProfileEntry::SetProcessName { process, .. }
            | ProfileEntry::SetProcessStart { process, .. }
            | ProfileEntry::EndProcess { process, .. }
            | ProfileEntry::AddMemoryCounterSample { process, .. }
            | ProfileEntry::CheckJitdump { process } => adds_process(before, *process),
            ProfileEntry::SetThreadName { thread, .. }
            | ProfileEntry::SetThreadStart { thread, .. }
            | ProfileEntry::EndThread { thread, .. }
            | ProfileEntry::AddSample { thread, .. }
            | ProfileEntry::AddRssStatMarker { thread, .. }
            | ProfileEntry::AddOtherEventMarker { thread, .. } => adds_thread(before, *thread),
            ProfileEntry::AddProcess { .. } | ProfileEntry::SetProductFromThread { .. } => true,
            _ => false,
        };
        assert!(refers_back, "{entry:?}");
    }
}
