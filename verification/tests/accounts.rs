use samply::context_switch::{
    ContextSwitchHandler, OffCpuSampleGroup, ThreadContextSwitchData, ThreadState,
};

#[test]
fn running_time_is_summed_up_and_consumed() {
    let handler = ContextSwitchHandler::new(100);
    let mut thread = ThreadContextSwitchData::new();
    assert_eq!(handler.handle_switch_in(1000, &mut thread), None);
    assert_eq!(handler.handle_sample(1030, &mut thread), None);
    handler.handle_switch_out(1050, &mut thread);
    assert_eq!(thread.on_cpu_ns, 50);
    assert_eq!(thread.state, ThreadState::Off { since: 1050 });
    assert_eq!(handler.consume_cpu_delta(&mut thread), 50);
    assert_eq!(handler.consume_cpu_delta(&mut thread), 0);
}

#[test]
fn a_long_pause_becomes_a_group_of_samples() {
    let handler = ContextSwitchHandler::new(100);
    let mut thread = ThreadContextSwitchData::new();
    handler.handle_switch_out(1000, &mut thread);
    let group = handler.handle_switch_in(1350, &mut thread);
    assert_eq!(
        group,
        Some(OffCpuSampleGroup { begin_timestamp: 1100, end_timestamp: 1300, sample_count: 3 })
    );
    // What is left over counts for the next pause.
    assert_eq!(thread.off_cpu_ns, 50);
    handler.handle_switch_out(1400, &mut thread);
    let group = handler.handle_sample(1460, &mut thread);
    assert_eq!(
        group,
        Some(OffCpuSampleGroup { begin_timestamp: 1450, end_timestamp: 1450, sample_count: 1 })
    );
    assert_eq!(thread.off_cpu_ns, 10);
}

#[test]
fn a_short_pause_has_no_samples() {
    let handler = ContextSwitchHandler::new(100);
    let mut thread = ThreadContextSwitchData::new();
    handler.handle_switch_out(1000, &mut thread);
    assert_eq!(handler.handle_switch_in(1099, &mut thread), None);
    assert_eq!(thread.off_cpu_ns, 99);
}

#[test]
fn repeated_switches_add_nothing() {
    let handler = ContextSwitchHandler::new(100);
    let mut thread = ThreadContextSwitchData::new();
    handler.handle_switch_out(1000, &mut thread);
    handler.handle_switch_out(1040, &mut thread);
    assert_eq!(thread.state, ThreadState::Off { since: 1000 });
    // Time that runs backwards counts as none.
    assert_eq!(handler.handle_switch_in(900, &mut thread), None);
    assert_eq!(thread.off_cpu_ns, 0);
}

#[test]
fn paused_time_is_conserved() {
    let handler = ContextSwitchHandler::new(70);
    let mut thread = ThreadContextSwitchData::new();
    let mut time: u64 = 10_000;
    let mut paused: u64 = 0;
    let mut sampled: u64 = 0;
    for pause in [1u64, 69, 70, 71, 500, 3, 139] {
        handler.handle_switch_out(time, &mut thread);
        time += pause;
        paused += pause;
        if let Some(group) = handler.handle_switch_in(time, &mut thread) {
            sampled += group.sample_count * 70;
            assert_eq!(group.end_timestamp - group.begin_timestamp, (group.sample_count - 1) * 70);
        }
        assert_eq!(sampled + thread.off_cpu_ns, paused);
        time += 5;
    }
}
