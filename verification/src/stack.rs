//! The call stack of a sample.
//!
//! A sample carries a kernel stack, a user stack, both or neither. The kernel
//! stack, and with frame pointer unwinding the user stack too, is part of the
//! callchain that the kernel recorded. With DWARF unwinding the user stack is
//! walked from the recorded registers and stack bytes.

use byteorder::LittleEndian;
use linux_perf_data::linux_perf_event_reader::{RawData, RawDataU64};
use vstd::bytes::*;
use vstd::prelude::*;

verus! {

/// Frames at or above this value are not addresses: they mark the context of
/// the callchain frames behind them.
pub const PERF_CONTEXT_MAX: u64 = 0xffff_ffff_ffff_f001;

/// Marks the frames behind it as hypervisor frames.
pub const PERF_CONTEXT_HV: u64 = 0xffff_ffff_ffff_ffe0;

/// Marks the frames behind it as kernel frames.
pub const PERF_CONTEXT_KERNEL: u64 = 0xffff_ffff_ffff_ff80;

/// Marks the frames behind it as user frames.
pub const PERF_CONTEXT_USER: u64 = 0xffff_ffff_ffff_fe00;

/// Marks the frames behind it as guest frames.
pub const PERF_CONTEXT_GUEST: u64 = 0xffff_ffff_ffff_f800;

/// Marks the frames behind it as guest kernel frames.
pub const PERF_CONTEXT_GUEST_KERNEL: u64 = 0xffff_ffff_ffff_f780;

/// Marks the frames behind it as guest user frames.
pub const PERF_CONTEXT_GUEST_USER: u64 = 0xffff_ffff_ffff_f600;

/// The mode that the processor was in when a record was made.
#[derive(Clone, Copy, Debug, PartialEq, Eq, Structural)]
pub enum CpuMode {
    Unknown,
    Kernel,
    User,
    Hypervisor,
    GuestKernel,
    GuestUser,
}

/// Which side of the system call boundary a frame belongs to.
#[derive(Clone, Copy, Debug, PartialEq, Eq, Structural)]
pub enum StackMode {
    User,
    Kernel,
}

/// One frame of a stack.
#[derive(Clone, Copy, Debug, PartialEq, Eq, Structural)]
pub enum StackFrame {
    InstructionPointer(u64, StackMode),
    ReturnAddress(u64, StackMode),
    TruncatedStackMarker,
}

/// One frame that the unwinder found in the user stack.
#[derive(Clone, Copy, Debug, PartialEq, Eq, Structural)]
pub enum FrameAddress {
    InstructionPointer(u64),
    ReturnAddress(u64),
}

/// What unwinding the user stack of a sample gave: the frames, innermost
/// first, and whether the walk broke off with an error.
#[derive(Debug)]
pub struct UnwoundStack {
    pub frames: Vec<FrameAddress>,
    pub broke_off: bool,
}

/// The parts of a sample that hold its stack.
#[derive(Debug)]
pub struct StackSource {
    /// The mode that the sample was taken in.
    pub cpu_mode: CpuMode,
    /// The sampled instruction pointer.
    pub ip: Option<u64>,
    /// The recorded callchain, innermost first, context markers among the addresses.
    pub callchain: Option<Vec<u64>>,
    /// The unwound user stack; `None` unless both registers and stack bytes were recorded.
    pub user_stack: Option<UnwoundStack>,
}

/// The stack mode of a sample that was taken in the given processor mode.
pub open spec fn mode_of_cpu(cpu_mode: CpuMode) -> StackMode {
    match cpu_mode {
        CpuMode::Kernel | CpuMode::Hypervisor | CpuMode::GuestKernel => StackMode::Kernel,
        CpuMode::Unknown | CpuMode::User | CpuMode::GuestUser => StackMode::User,
    }
}

/// The stack mode that a context marker announces, `None` for an unknown one.
pub open spec fn mode_of_marker(frame: u64) -> Option<StackMode> {
    if frame == PERF_CONTEXT_HV || frame == PERF_CONTEXT_KERNEL || frame == PERF_CONTEXT_GUEST
        || frame == PERF_CONTEXT_GUEST_KERNEL {
        Some(StackMode::Kernel)
    } else if frame == PERF_CONTEXT_USER || frame == PERF_CONTEXT_GUEST_USER {
        Some(StackMode::User)
    } else {
        None
    }
}

impl StackMode {
    /// The stack mode that goes with a processor mode.
    pub fn from_cpu_mode(cpu_mode: CpuMode) -> (r: StackMode)
        ensures
            r == mode_of_cpu(cpu_mode),
    {
        match cpu_mode {
            CpuMode::Kernel | CpuMode::Hypervisor | CpuMode::GuestKernel => StackMode::Kernel,
            CpuMode::Unknown | CpuMode::User | CpuMode::GuestUser => StackMode::User,
        }
    }

    /// The stack mode that a context marker announces.
    pub fn from_context_frame(frame: u64) -> (r: Option<StackMode>)
        ensures
            r == mode_of_marker(frame),
    {
        if frame == PERF_CONTEXT_HV || frame == PERF_CONTEXT_KERNEL || frame == PERF_CONTEXT_GUEST
            || frame == PERF_CONTEXT_GUEST_KERNEL {
            Some(StackMode::Kernel)
        } else if frame == PERF_CONTEXT_USER || frame == PERF_CONTEXT_GUEST_USER {
            Some(StackMode::User)
        } else {
            None
        }
    }
}

/// The mode of the callchain frames behind the first `n` entries: what the
/// last known marker among them announced, or else the initial mode.
pub open spec fn mode_after(chain: Seq<u64>, initial: StackMode, n: int) -> StackMode
    decreases n,
{
    if n <= 0 {
        initial
    } else if chain[n - 1] >= PERF_CONTEXT_MAX && mode_of_marker(chain[n - 1]) is Some {
        mode_of_marker(chain[n - 1])->0
    } else {
        mode_after(chain, initial, n - 1)
    }
}

/// The frames that the first `n` entries of a callchain stand for. The
/// markers are left out; the innermost frame is the instruction pointer, all
/// others are return addresses.
pub open spec fn callchain_frames(chain: Seq<u64>, initial: StackMode, n: int) -> Seq<StackFrame>
    decreases n,
{
    if n <= 0 {
        Seq::empty()
    } else {
        let before = callchain_frames(chain, initial, n - 1);
        let address = chain[n - 1];
        let mode = mode_after(chain, initial, n - 1);
        if address >= PERF_CONTEXT_MAX {
            before
        } else if before.len() == 0 {
            before.push(StackFrame::InstructionPointer(address, mode))
        } else {
            before.push(StackFrame::ReturnAddress(address, mode))
        }
    }
}

/// The stack frame for an unwound frame of the user stack.
pub open spec fn user_frame(frame: FrameAddress) -> StackFrame {
    match frame {
        FrameAddress::InstructionPointer(address) => StackFrame::InstructionPointer(
            address,
            StackMode::User,
        ),
        FrameAddress::ReturnAddress(address) => StackFrame::ReturnAddress(address, StackMode::User),
    }
}

impl UnwoundStack {
    /// The frames that the unwound stack adds to a stack, with a marker at the
    /// end where the walk broke off.
    pub open spec fn stack_frames(self) -> Seq<StackFrame> {
        let frames = self.frames@.map_values(|f: FrameAddress| user_frame(f));
        if self.broke_off {
            frames.push(StackFrame::TruncatedStackMarker)
        } else {
            frames
        }
    }
}

/// A stack without the repetitions of its outermost frame.
pub open spec fn folded(stack: Seq<StackFrame>) -> Seq<StackFrame>
    decreases stack.len(),
{
    if stack.len() >= 2 && stack[stack.len() - 2] == stack.last() {
        folded(stack.drop_last())
    } else {
        stack
    }
}

impl StackSource {
    /// The frames that the sample recorded: the callchain, then the unwound user stack.
    pub open spec fn recorded_frames(self) -> Seq<StackFrame> {
        (match self.callchain {
            Some(chain) => callchain_frames(
                chain@,
                mode_of_cpu(self.cpu_mode),
                chain@.len() as int,
            ),
            None => Seq::empty(),
        }) + (match self.user_stack {
            Some(unwound) => unwound.stack_frames(),
            None => Seq::empty(),
        })
    }

    /// The stack of the sample, innermost frame first. A sample without any
    /// recorded frame falls back to its instruction pointer.
    pub open spec fn stack(self, fold_recursive_prefix: bool) -> Seq<StackFrame> {
        if self.recorded_frames().len() == 0 {
            match self.ip {
                Some(ip) => seq![StackFrame::InstructionPointer(ip, mode_of_cpu(self.cpu_mode))],
                None => Seq::empty(),
            }
        } else if fold_recursive_prefix {
            folded(self.recorded_frames())
        } else {
            self.recorded_frames()
        }
    }
}

/// Gets the stack contained in a sample, ordered from callee-most ("innermost")
/// to caller-most, the kernel stack before the user stack. With
/// `fold_recursive_prefix`, repeated frames at the base of the stack become one.
pub fn get_sample_stack(e: &StackSource, fold_recursive_prefix: bool) -> (stack: Vec<StackFrame>)
    ensures
        stack@ == e.stack(fold_recursive_prefix),
{
    let mut stack: Vec<StackFrame> = Vec::new();
    if let Some(callchain) = &e.callchain {
        push_callchain(callchain, StackMode::from_cpu_mode(e.cpu_mode), &mut stack);
    }
    if let Some(unwound) = &e.user_stack {
        push_user_stack(unwound, &mut stack);
    }
    assert(stack@ =~= e.recorded_frames());
    if stack.len() == 0 {
        if let Some(ip) = e.ip {
            stack.push(
                StackFrame::InstructionPointer(ip, StackMode::from_cpu_mode(e.cpu_mode)),
            );
        }
    } else if fold_recursive_prefix {
        fold_base(&mut stack);
    }
    assert(stack@ =~= e.stack(fold_recursive_prefix));
    stack
}

/// Appends the frames of a callchain to an empty stack.
fn push_callchain(callchain: &Vec<u64>, initial: StackMode, stack: &mut Vec<StackFrame>)
    requires
        old(stack)@.len() == 0,
    ensures
        final(stack)@ == callchain_frames(callchain@, initial, callchain@.len() as int),
{
    let mut mode: StackMode = initial;
    let mut i: usize = 0;
    while i < callchain.len()
        invariant
            i <= callchain.len(),
            mode == mode_after(callchain@, initial, i as int),
            stack@ == callchain_frames(callchain@, initial, i as int),
        decreases callchain.len() - i,
    {
        let address: u64 = callchain[i];
        if address >= PERF_CONTEXT_MAX {
            if let Some(new_mode) = StackMode::from_context_frame(address) {
                mode = new_mode;
            }
        } else if stack.len() == 0 {
            stack.push(StackFrame::InstructionPointer(address, mode));
        } else {
            stack.push(StackFrame::ReturnAddress(address, mode));
        }
        i += 1;
    }
}

/// Appends the frames of an unwound user stack.
fn push_user_stack(unwound: &UnwoundStack, stack: &mut Vec<StackFrame>)
    ensures
        final(stack)@ == old(stack)@ + unwound.stack_frames(),
{
    let ghost before = stack@;
    let ghost frames = unwound.frames@.map_values(|f: FrameAddress| user_frame(f));
    let mut i: usize = 0;
    while i < unwound.frames.len()
        invariant
            i <= unwound.frames.len(),
            frames == unwound.frames@.map_values(|f: FrameAddress| user_frame(f)),
            stack@ =~= before + frames.take(i as int),
        decreases unwound.frames.len() - i,
    {
        let frame = match unwound.frames[i] {
            FrameAddress::InstructionPointer(address) => StackFrame::InstructionPointer(
                address,
                StackMode::User,
            ),
            FrameAddress::ReturnAddress(address) => StackFrame::ReturnAddress(
                address,
                StackMode::User,
            ),
        };
        stack.push(frame);
        i += 1;
    }
    assert(frames.take(frames.len() as int) =~= frames);
    if unwound.broke_off {
        stack.push(StackFrame::TruncatedStackMarker);
    }
    assert(stack@ =~= before + unwound.stack_frames());
}

/// Folds the repeated frames at the base of a stack into one.
fn fold_base(stack: &mut Vec<StackFrame>)
    ensures
        final(stack)@ == folded(old(stack)@),
{
    let ghost whole = stack@;
    while stack.len() >= 2 && stack[stack.len() - 2] == stack[stack.len() - 1]
        invariant
            folded(stack@) == folded(whole),
        decreases stack.len(),
    {
        let ghost before = stack@;
        stack.pop();
        assert(stack@ =~= before.drop_last());
    }
}

/// Folding keeps the stack up to its outermost frame: what it drops are
/// repetitions of that frame, and no repetition is left at the base.
pub proof fn law_folding_drops_only_repetitions(stack: Seq<StackFrame>)
    requires
        stack.len() > 0,
    ensures
        0 < folded(stack).len() <= stack.len(),
        folded(stack) == stack.take(folded(stack).len() as int),
        folded(stack).last() == stack.last(),
        forall|i: int| folded(stack).len() <= i < stack.len() ==> stack[i] == stack.last(),
        folded(stack).len() >= 2 ==> folded(stack)[folded(stack).len() - 2]
            != folded(stack).last(),
    decreases stack.len(),
{
    if stack.len() >= 2 && stack[stack.len() - 2] == stack.last() {
        let shorter = stack.drop_last();
        law_folding_drops_only_repetitions(shorter);
        assert(folded(stack) =~= stack.take(folded(stack).len() as int));
        assert forall|i: int| folded(stack).len() <= i < stack.len() implies stack[i]
            == stack.last() by {
            if i < shorter.len() {
                assert(shorter[i] == stack[i]);
            }
        }
    } else {
        assert(stack.take(stack.len() as int) =~= stack);
    }
}

/// Folding a folded stack changes nothing.
pub proof fn law_folding_twice_is_folding_once(stack: Seq<StackFrame>)
    ensures
        folded(folded(stack)) == folded(stack),
    decreases stack.len(),
{
    if stack.len() >= 2 && stack[stack.len() - 2] == stack.last() {
        law_folding_twice_is_folding_once(stack.drop_last());
    }
}

/// The context markers of a callchain never become frames, every other entry
/// becomes one, and only the innermost frame is an instruction pointer.
pub proof fn law_callchain_frames_are_addresses(chain: Seq<u64>, initial: StackMode, n: int)
    requires
        0 <= n <= chain.len(),
    ensures
        callchain_frames(chain, initial, n).len() == chain.take(n).filter(
            |a: u64| a < PERF_CONTEXT_MAX,
        ).len(),
        forall|i: int|
            0 <= i < callchain_frames(chain, initial, n).len() ==> match #[trigger] callchain_frames(
                chain,
                initial,
                n,
            )[i] {
                StackFrame::InstructionPointer(address, _) => i == 0 && address
                    < PERF_CONTEXT_MAX,
                StackFrame::ReturnAddress(address, _) => i > 0 && address < PERF_CONTEXT_MAX,
                StackFrame::TruncatedStackMarker => false,
            },
    decreases n,
{
    reveal(Seq::filter);
    if n > 0 {
        law_callchain_frames_are_addresses(chain, initial, n - 1);
        assert(chain.take(n).drop_last() =~= chain.take(n - 1));
        assert(chain.take(n).last() == chain[n - 1]);
    }
}

/// Kernel frames come from the callchain only, and so before all frames of the
/// unwound user stack.
pub proof fn law_unwound_frames_are_user_frames(e: StackSource, i: int)
    requires
        ({
            let from_callchain = match e.callchain {
                Some(chain) => callchain_frames(
                    chain@,
                    mode_of_cpu(e.cpu_mode),
                    chain@.len() as int,
                ).len(),
                None => 0,
            };
            from_callchain <= i < e.recorded_frames().len()
        }),
    ensures
        !is_kernel_frame(e.recorded_frames()[i]),
{
}

/// The frames of a stack without those of the kernel.
pub open spec fn user_only(stack: Seq<StackFrame>) -> Seq<StackFrame> {
    stack.filter(|f: StackFrame| !is_kernel_frame(f))
}

/// Whether a frame lies in the kernel.
pub open spec fn is_kernel_frame(frame: StackFrame) -> bool {
    match frame {
        StackFrame::InstructionPointer(_, mode) => mode == StackMode::Kernel,
        StackFrame::ReturnAddress(_, mode) => mode == StackMode::Kernel,
        StackFrame::TruncatedStackMarker => false,
    }
}

/// Turns a stack around, so that the outermost frame comes first.
pub fn reversed(stack: &Vec<StackFrame>) -> (r: Vec<StackFrame>)
    ensures
        r@ == stack@.reverse(),
{
    let mut r: Vec<StackFrame> = Vec::new();
    let mut i: usize = stack.len();
    while i > 0
        invariant
            i <= stack.len(),
            r@ =~= stack@.reverse().take(stack.len() - i),
        decreases i,
    {
        i -= 1;
        r.push(stack[i]);
    }
    assert(r@ =~= stack@.reverse());
    r
}

/// Leaves the kernel frames out of a stack.
pub fn without_kernel_frames(stack: &Vec<StackFrame>) -> (r: Vec<StackFrame>)
    ensures
        r@ == user_only(stack@),
{
    let ghost keep = |f: StackFrame| !is_kernel_frame(f);
    let mut r: Vec<StackFrame> = Vec::new();
    let mut i: usize = 0;
    proof {
        reveal(Seq::filter);
        assert(stack@.take(0).filter(keep) =~= Seq::<StackFrame>::empty());
    }
    while i < stack.len()
        invariant
            i <= stack.len(),
            keep == (|f: StackFrame| !is_kernel_frame(f)),
            r@ == stack@.take(i as int).filter(keep),
        decreases stack.len() - i,
    {
        let frame: StackFrame = stack[i];
        let in_kernel: bool = match frame {
            StackFrame::InstructionPointer(_, StackMode::Kernel) => true,
            StackFrame::ReturnAddress(_, StackMode::Kernel) => true,
            _ => false,
        };
        proof {
            reveal(Seq::filter);
            assert(stack@.take(i + 1).drop_last() =~= stack@.take(i as int));
            assert(stack@.take(i + 1).last() == frame);
        }
        if !in_kernel {
            r.push(frame);
        }
        i += 1;
    }
    assert(stack@.take(stack@.len() as int) =~= stack@);
    r
}

/// The 64 bit word with the given index in a byte string of little-endian
/// words, read through `RawDataU64::from_raw_data` and `RawDataU64::get`.
///
/// `get` skips eight bytes per word and reads the next eight, so it gives
/// `None` exactly when the byte string ends before the word does. It
/// multiplies the index by eight, which must not overflow.
#[verifier::external_body]
fn word_at(bytes: &[u8], index: usize) -> (r: Option<u64>)
    requires
        index <= usize::MAX / 8,
    ensures
        r is Some == (8 * index + 8 <= bytes@.len()),
        r is Some ==> r->0 == spec_u64_from_le_bytes(
            bytes@.subrange(8 * index as int, 8 * index + 8),
        ),
{
    RawDataU64::from_raw_data::<LittleEndian>(RawData::Single(bytes)).get(index)
}

/// The word of a copied stack that holds the given address, for a copy that
/// starts at the stack pointer `sp`.
pub open spec fn stack_word(stack_bytes: Seq<u8>, sp: u64, address: u64) -> Option<u64> {
    let index = (address - sp) / 8;
    if address < sp || 8 * index + 8 > stack_bytes.len() {
        None
    } else {
        Some(spec_u64_from_le_bytes(stack_bytes.subrange(8 * index, 8 * index + 8)))
    }
}

/// Reads a word of the user stack, for the unwinder. The recorded bytes start
/// at the stack pointer; an address outside of them cannot be read.
pub fn read_stack(stack_bytes: &[u8], sp: u64, address: u64) -> (r: Result<u64, ()>)
    ensures
        r is Ok == stack_word(stack_bytes@, sp, address) is Some,
        r is Ok ==> r->Ok_0 == stack_word(stack_bytes@, sp, address)->0,
{
    if address < sp {
        return Err(());
    }
    let offset: u64 = address - sp;
    let index: u64 = offset / 8;
    if index > (usize::MAX / 8) as u64 {
        // No byte string reaches this far.
        let length: usize = stack_bytes.len();
        assert(length < 8 * index);
        return Err(());
    }
    match word_at(stack_bytes, index as usize) {
        Some(word) => Ok(word),
        None => Err(()),
    }
}

} // verus!
