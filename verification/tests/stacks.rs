use linux_perf_data::linux_perf_event_reader::constants as perf;
use samply::stack::{
    get_sample_stack, read_stack, reversed, without_kernel_frames, CpuMode, FrameAddress,
    StackFrame, StackMode, StackSource, UnwoundStack, PERF_CONTEXT_GUEST,
    PERF_CONTEXT_GUEST_KERNEL, PERF_CONTEXT_GUEST_USER, PERF_CONTEXT_HV, PERF_CONTEXT_KERNEL,
    PERF_CONTEXT_MAX, PERF_CONTEXT_USER,
};

fn source(callchain: Option<Vec<u64>>, ip: Option<u64>) -> StackSource {
    StackSource { cpu_mode: CpuMode::User, ip, callchain, user_stack: None }
}

#[test]
fn context_markers_are_those_of_perf() {
    assert_eq!(PERF_CONTEXT_MAX, perf::PERF_CONTEXT_MAX);
    assert_eq!(PERF_CONTEXT_HV, perf::PERF_CONTEXT_HV);
    assert_eq!(PERF_CONTEXT_KERNEL, perf::PERF_CONTEXT_KERNEL);
    assert_eq!(PERF_CONTEXT_USER, perf::PERF_CONTEXT_USER);
    assert_eq!(PERF_CONTEXT_GUEST, perf::PERF_CONTEXT_GUEST);
    assert_eq!(PERF_CONTEXT_GUEST_KERNEL, perf::PERF_CONTEXT_GUEST_KERNEL);
    assert_eq!(PERF_CONTEXT_GUEST_USER, perf::PERF_CONTEXT_GUEST_USER);
}

#[test]
fn callchain_with_kernel_and_user_part() {
    let e = source(
        Some(vec![PERF_CONTEXT_KERNEL, 0xffff_8000_0000_1000, PERF_CONTEXT_USER, 0x1000, 0x2000]),
        Some(0x9999),
    );
    assert_eq!(
        get_sample_stack(&e, false),
        vec![
            StackFrame::InstructionPointer(0xffff_8000_0000_1000, StackMode::Kernel),
            StackFrame::ReturnAddress(0x1000, StackMode::User),
            StackFrame::ReturnAddress(0x2000, StackMode::User),
        ]
    );
}

#[test]
fn callchain_starts_in_the_mode_of_the_sample() {
    let mut e = source(Some(vec![0x10]), None);
    e.cpu_mode = CpuMode::Kernel;
    assert_eq!(
        get_sample_stack(&e, false),
        vec![StackFrame::InstructionPointer(0x10, StackMode::Kernel)]
    );
}

#[test]
fn unwound_user_stack_follows_the_callchain() {
    let e = StackSource {
        cpu_mode: CpuMode::User,
        ip: None,
        callchain: Some(vec![PERF_CONTEXT_KERNEL, 0x77]),
        user_stack: Some(UnwoundStack {
            frames: vec![FrameAddress::InstructionPointer(1), FrameAddress::ReturnAddress(2)],
            broke_off: true,
        }),
    };
    assert_eq!(
        get_sample_stack(&e, false),
        vec![
            StackFrame::InstructionPointer(0x77, StackMode::Kernel),
            StackFrame::InstructionPointer(1, StackMode::User),
            StackFrame::ReturnAddress(2, StackMode::User),
            StackFrame::TruncatedStackMarker,
        ]
    );
}

#[test]
fn sample_without_frames_falls_back_to_its_ip() {
    assert_eq!(
        get_sample_stack(&source(None, Some(0x42)), false),
        vec![StackFrame::InstructionPointer(0x42, StackMode::User)]
    );
    // A callchain of nothing but markers has no frames either.
    assert_eq!(
        get_sample_stack(&source(Some(vec![PERF_CONTEXT_USER]), Some(0x42)), true),
        vec![StackFrame::InstructionPointer(0x42, StackMode::User)]
    );
    assert_eq!(get_sample_stack(&source(None, None), false), vec![]);
}

#[test]
fn repetitions_at_the_base_are_folded() {
    let e = source(Some(vec![1, 2, 3, 3, 3]), None);
    assert_eq!(
        get_sample_stack(&e, true),
        vec![
            StackFrame::InstructionPointer(1, StackMode::User),
            StackFrame::ReturnAddress(2, StackMode::User),
            StackFrame::ReturnAddress(3, StackMode::User),
        ]
    );
    assert_eq!(get_sample_stack(&e, false).len(), 5);
    // Repetitions elsewhere stay.
    let e = source(Some(vec![1, 2, 2, 3]), None);
    assert_eq!(get_sample_stack(&e, true).len(), 4);
    // The instruction pointer is no repetition of a return address.
    let e = source(Some(vec![3, 3]), None);
    assert_eq!(get_sample_stack(&e, true).len(), 2);
}

#[test]
fn kernel_frames_can_be_left_out() {
    let stack = vec![
        StackFrame::InstructionPointer(1, StackMode::Kernel),
        StackFrame::ReturnAddress(2, StackMode::User),
        StackFrame::TruncatedStackMarker,
        StackFrame::ReturnAddress(3, StackMode::Kernel),
    ];
    assert_eq!(
        without_kernel_frames(&stack),
        vec![StackFrame::ReturnAddress(2, StackMode::User), StackFrame::TruncatedStackMarker]
    );
    assert_eq!(
        reversed(&stack),
        vec![
            StackFrame::ReturnAddress(3, StackMode::Kernel),
            StackFrame::TruncatedStackMarker,
            StackFrame::ReturnAddress(2, StackMode::User),
            StackFrame::InstructionPointer(1, StackMode::Kernel),
        ]
    );
}

#[test]
fn stack_words_are_read_relative_to_the_stack_pointer() {
    let bytes: Vec<u8> = (1..=17).collect();
    assert_eq!(read_stack(&bytes, 0x1000, 0x1000), Ok(0x0807_0605_0403_0201));
    assert_eq!(read_stack(&bytes, 0x1000, 0x1008), Ok(0x100f_0e0d_0c0b_0a09));
    // An address inside of a word gives the word.
    assert_eq!(read_stack(&bytes, 0x1000, 0x1003), Ok(0x0807_0605_0403_0201));
    // The last word is not complete.
    assert_eq!(read_stack(&bytes, 0x1000, 0x1010), Err(()));
    // Below the stack pointer there is nothing.
    assert_eq!(read_stack(&bytes, 0x1000, 0xfff), Err(()));
    assert_eq!(read_stack(&bytes, 0, u64::MAX), Err(()));
}
