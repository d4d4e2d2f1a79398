//! What holds of the stacks of samples, frame by frame.

use crate::stack::{
    callchain_frames, folded, is_kernel_frame, law_folding_drops_only_repetitions, mode_after,
    mode_of_cpu, stack_word, user_only, FrameAddress, StackFrame, StackMode, StackSource,
};
use vstd::bytes::*;
use vstd::prelude::*;

verus! {

/// Whether an entry of a callchain is an address, and not the mark of a
/// context.
pub open spec fn is_address(entry: u64) -> bool {
    entry < 0xffff_ffff_ffff_f001
}

/// Whether an entry of a callchain says that what follows is in a kernel or a
/// hypervisor.
pub open spec fn announces_kernel(entry: u64) -> bool {
    ||| entry == 0xffff_ffff_ffff_ffe0
    ||| entry == 0xffff_ffff_ffff_ff80
    ||| entry == 0xffff_ffff_ffff_f800
    ||| entry == 0xffff_ffff_ffff_f780
}

/// Whether an entry of a callchain says that what follows is in user space.
pub open spec fn announces_user(entry: u64) -> bool {
    entry == 0xffff_ffff_ffff_fe00 || entry == 0xffff_ffff_ffff_f600
}

/// The number of addresses among the first entries of a callchain.
pub open spec fn count_addresses(chain: Seq<u64>, n: int) -> nat
    decreases n,
{
    if n <= 0 {
        0
    } else if is_address(chain[n - 1]) {
        count_addresses(chain, n - 1) + 1
    } else {
        count_addresses(chain, n - 1)
    }
}

/// The addresses of a sample's callchain.
pub open spec fn callchain_addresses(e: StackSource) -> nat {
    match e.callchain {
        Some(chain) => count_addresses(chain@, chain@.len() as int),
        None => 0,
    }
}

/// The frames that unwinding added to a sample, with the mark of a walk that
/// broke off.
pub open spec fn unwound_frames(e: StackSource) -> nat {
    match e.user_stack {
        Some(unwound) => unwound.frames@.len() + if unwound.broke_off {
            1nat
        } else {
            0
        },
        None => 0,
    }
}

/// Whether a frame is the one for an address with the given number of frames
/// inside of it: the innermost one is where the thread was, all others are
/// where calls return to.
pub open spec fn is_frame_for(
    frame: StackFrame,
    inner: nat,
    address: u64,
    is_in_kernel: bool,
) -> bool {
    let mode = if is_in_kernel {
        StackMode::Kernel
    } else {
        StackMode::User
    };
    if inner == 0 {
        frame == StackFrame::InstructionPointer(address, mode)
    } else {
        frame == StackFrame::ReturnAddress(address, mode)
    }
}

/// Whether a sample was taken in a kernel or a hypervisor.
pub open spec fn taken_in_kernel(e: StackSource) -> bool {
    e.cpu_mode is Kernel || e.cpu_mode is Hypervisor || e.cpu_mode is GuestKernel
}

proof fn lemma_callchain(chain: Seq<u64>, initial: StackMode, n: int)
    requires
        0 <= n <= chain.len(),
    ensures
        callchain_frames(chain, initial, n).len() == count_addresses(chain, n),
        forall|k: int|
            0 <= k < n && is_address(#[trigger] chain[k]) ==> {
                let inner = count_addresses(chain, k);
                &&& inner < callchain_frames(chain, initial, n).len()
                &&& is_frame_for(
                    callchain_frames(chain, initial, n)[inner as int],
                    inner,
                    chain[k],
                    mode_after(chain, initial, k) is Kernel,
                )
            },
    decreases n,
{
    if n > 0 {
        lemma_callchain(chain, initial, n - 1);
        assert forall|k: int| 0 <= k < n && is_address(#[trigger] chain[k]) implies {
            let inner = count_addresses(chain, k);
            &&& inner < callchain_frames(chain, initial, n).len()
            &&& is_frame_for(
                callchain_frames(chain, initial, n)[inner as int],
                inner,
                chain[k],
                mode_after(chain, initial, k) is Kernel,
            )
        } by {
            if k < n - 1 {
                let inner = count_addresses(chain, k);
                assert(callchain_frames(chain, initial, n)[inner as int] == callchain_frames(
                    chain,
                    initial,
                    n - 1,
                )[inner as int]);
            }
        }
    }
}

proof fn lemma_mode_since(chain: Seq<u64>, initial: StackMode, from: int, n: int)
    requires
        0 <= from <= n <= chain.len(),
        forall|i: int|
            from <= i < n ==> !announces_kernel(#[trigger] chain[i]) && !announces_user(chain[i]),
    ensures
        mode_after(chain, initial, n) == mode_after(chain, initial, from),
    decreases n,
{
    if n > from {
        lemma_mode_since(chain, initial, from, n - 1);
        assert(!announces_kernel(chain[n - 1]) && !announces_user(chain[n - 1]));
    }
}

proof fn lemma_recorded(e: StackSource)
    ensures
        e.recorded_frames().len() == callchain_addresses(e) + unwound_frames(e),
        e.callchain is Some ==> callchain_frames(
            e.callchain->0@,
            mode_of_cpu(e.cpu_mode),
            e.callchain->0@.len() as int,
        ).len() == callchain_addresses(e),
{
    if let Some(chain) = e.callchain {
        lemma_callchain(chain@, mode_of_cpu(e.cpu_mode), chain@.len() as int);
    }
}

/// Every address of a callchain becomes a frame with this address, in the order
/// of the callchain. Behind the mark of a context the frames are in that
/// context, up to the next known mark: all of them, and not just the first.
pub proof fn law_frames_are_in_the_announced_context(e: StackSource, mark: int, entry: int)
    requires
        e.callchain is Some,
        0 <= mark < entry < e.callchain->0@.len(),
        is_address(e.callchain->0@[entry]),
        announces_kernel(e.callchain->0@[mark]) || announces_user(e.callchain->0@[mark]),
        forall|i: int|
            mark < i < entry ==> !announces_kernel(#[trigger] e.callchain->0@[i])
                && !announces_user(e.callchain->0@[i]),
    ensures
        ({
            let chain = e.callchain->0@;
            let inner = count_addresses(chain, entry);
            &&& inner < e.stack(false).len()
            &&& is_frame_for(
                e.stack(false)[inner as int],
                inner,
                chain[entry],
                announces_kernel(chain[mark]),
            )
        }),
{
    let chain = e.callchain->0@;
    let initial = mode_of_cpu(e.cpu_mode);
    lemma_callchain(chain, initial, chain.len() as int);
    lemma_recorded(e);
    lemma_mode_since(chain, initial, mark + 1, entry);
    assert(mode_after(chain, initial, mark + 1) is Kernel == announces_kernel(chain[mark]));
    assert(is_address(chain[entry]));
}

/// The frames before any known mark of a context are in the context that the
/// sample was taken in.
pub proof fn law_unmarked_frames_are_where_the_sample_was_taken(e: StackSource, entry: int)
    requires
        e.callchain is Some,
        0 <= entry < e.callchain->0@.len(),
        is_address(e.callchain->0@[entry]),
        forall|i: int|
            0 <= i < entry ==> !announces_kernel(#[trigger] e.callchain->0@[i]) && !announces_user(
                e.callchain->0@[i],
            ),
    ensures
        ({
            let chain = e.callchain->0@;
            let inner = count_addresses(chain, entry);
            &&& inner < e.stack(false).len()
            &&& is_frame_for(
                e.stack(false)[inner as int],
                inner,
                chain[entry],
                taken_in_kernel(e),
            )
        }),
{
    let chain = e.callchain->0@;
    let initial = mode_of_cpu(e.cpu_mode);
    lemma_callchain(chain, initial, chain.len() as int);
    lemma_recorded(e);
    lemma_mode_since(chain, initial, 0, entry);
    assert(is_address(chain[entry]));
}

/// A stack has a frame for each address of the callchain and for each unwound
/// frame, and nothing else but the mark of a walk that broke off. The unwound
/// frames come behind those of the callchain, as they are and in user space;
/// the mark comes last.
pub proof fn law_stack_is_callchain_then_unwound_frames(e: StackSource)
    requires
        callchain_addresses(e) + unwound_frames(e) > 0,
    ensures
        e.stack(false).len() == callchain_addresses(e) + unwound_frames(e),
        e.user_stack is Some ==> forall|i: int|
            0 <= i < e.user_stack->0.frames@.len() ==> e.stack(false)[callchain_addresses(e) + i]
                == (match #[trigger] e.user_stack->0.frames@[i] {
                FrameAddress::InstructionPointer(address) => StackFrame::InstructionPointer(
                    address,
                    StackMode::User,
                ),
                FrameAddress::ReturnAddress(address) => StackFrame::ReturnAddress(
                    address,
                    StackMode::User,
                ),
            }),
        e.user_stack is Some && e.user_stack->0.broke_off ==> e.stack(false).last()
            == StackFrame::TruncatedStackMarker,
{
    lemma_recorded(e);
}

/// A sample without any recorded frame has its instruction pointer as its
/// stack, in the context that the sample was taken in, or no stack where it
/// has no instruction pointer either.
pub proof fn law_sample_without_frames_has_its_instruction_pointer(e: StackSource, fold: bool)
    requires
        callchain_addresses(e) + unwound_frames(e) == 0,
    ensures
        e.ip is None ==> e.stack(fold).len() == 0,
        e.ip is Some ==> e.stack(fold).len() == 1 && is_frame_for(
            e.stack(fold)[0],
            0,
            e.ip->0,
            taken_in_kernel(e),
        ),
{
    lemma_recorded(e);
}

/// Folding takes frames off the base of a stack only, all of them equal to the
/// outermost one, which stays; and after it the two outermost frames differ.
pub proof fn law_folded_stack_ends_with_one_outermost_frame(e: StackSource)
    requires
        e.stack(false).len() > 0,
    ensures
        ({
            let whole = e.stack(false);
            let short = e.stack(true);
            &&& 0 < short.len() <= whole.len()
            &&& forall|i: int| 0 <= i < short.len() ==> short[i] == whole[i]
            &&& forall|i: int| short.len() <= i < whole.len() ==> whole[i] == short.last()
            &&& short.len() >= 2 ==> short[short.len() - 2] != short.last()
        }),
{
    lemma_recorded(e);
    if e.recorded_frames().len() > 0 {
        law_folding_drops_only_repetitions(e.recorded_frames());
        let whole = e.recorded_frames();
        let short = folded(whole);
        assert forall|i: int| 0 <= i < short.len() implies short[i] == whole[i] by {
            assert(short[i] == whole.take(short.len() as int)[i]);
        }
    }
}

/// A stack that does not repeat its outermost frame is not changed by folding.
pub proof fn law_folding_keeps_other_stacks(e: StackSource)
    requires
        e.stack(false).len() < 2 || e.stack(false)[e.stack(false).len() - 2] != e.stack(
            false,
        ).last(),
    ensures
        e.stack(true) == e.stack(false),
{
}

/// Leaving the kernel frames out of a stack goes frame by frame: what is in
/// the kernel is left out, all else is kept, in its order.
pub proof fn law_kernel_frames_are_left_out(stack: Seq<StackFrame>, address: u64)
    ensures
        user_only(Seq::empty()) == Seq::<StackFrame>::empty(),
        user_only(stack.push(StackFrame::InstructionPointer(address, StackMode::Kernel)))
            == user_only(stack),
        user_only(stack.push(StackFrame::ReturnAddress(address, StackMode::Kernel))) == user_only(
            stack,
        ),
        user_only(stack.push(StackFrame::InstructionPointer(address, StackMode::User)))
            == user_only(stack).push(StackFrame::InstructionPointer(address, StackMode::User)),
        user_only(stack.push(StackFrame::ReturnAddress(address, StackMode::User))) == user_only(
            stack,
        ).push(StackFrame::ReturnAddress(address, StackMode::User)),
        user_only(stack.push(StackFrame::TruncatedStackMarker)) == user_only(stack).push(
            StackFrame::TruncatedStackMarker,
        ),
{
    lemma_user_only_pushed(stack, StackFrame::InstructionPointer(address, StackMode::Kernel));
    lemma_user_only_pushed(stack, StackFrame::ReturnAddress(address, StackMode::Kernel));
    lemma_user_only_pushed(stack, StackFrame::InstructionPointer(address, StackMode::User));
    lemma_user_only_pushed(stack, StackFrame::ReturnAddress(address, StackMode::User));
    lemma_user_only_pushed(stack, StackFrame::TruncatedStackMarker);
    reveal(Seq::filter);
}

proof fn lemma_user_only_pushed(stack: Seq<StackFrame>, frame: StackFrame)
    ensures
        user_only(stack.push(frame)) == if is_kernel_frame(frame) {
            user_only(stack)
        } else {
            user_only(stack).push(frame)
        },
{
    reveal(Seq::filter);
    assert(stack.push(frame).drop_last() =~= stack);
    assert(stack.push(frame).last() == frame);
}

/// Whether no frame of a stack is in the kernel.
pub open spec fn all_in_user_space(stack: Seq<StackFrame>) -> bool {
    forall|i: int|
        0 <= i < stack.len() ==> match #[trigger] stack[i] {
            StackFrame::InstructionPointer(_, mode) => mode is User,
            StackFrame::ReturnAddress(_, mode) => mode is User,
            StackFrame::TruncatedStackMarker => true,
        }
}

/// A stack without kernel frames is left as it is.
pub proof fn law_user_stack_is_kept(stack: Seq<StackFrame>)
    requires
        all_in_user_space(stack),
    ensures
        user_only(stack) == stack,
    decreases stack.len(),
{
    reveal(Seq::filter);
    if stack.len() > 0 {
        assert(all_in_user_space(stack.drop_last())) by {
            assert forall|i: int| 0 <= i < stack.drop_last().len() implies match #[trigger]
            stack.drop_last()[i] {
                StackFrame::InstructionPointer(_, mode) => mode is User,
                StackFrame::ReturnAddress(_, mode) => mode is User,
                StackFrame::TruncatedStackMarker => true,
            } by {
                assert(stack.drop_last()[i] == stack[i]);
            }
        }
        law_user_stack_is_kept(stack.drop_last());
        let frame = stack[stack.len() - 1];
        lemma_user_only_pushed(stack.drop_last(), frame);
        assert(stack.drop_last().push(frame) =~= stack);
    } else {
        assert(user_only(stack) =~= stack);
    }
}

/// The copy of a stack is read word by word from the stack pointer on: each
/// address gives the word that it lies in, as far as the copy holds all of the
/// word. What lies below the stack pointer cannot be read.
pub proof fn law_stack_words_count_from_the_stack_pointer(
    stack_bytes: Seq<u8>,
    sp: u64,
    address: u64,
    word: nat,
    offset: nat,
)
    requires
        offset < 8,
    ensures
        address < sp ==> stack_word(stack_bytes, sp, address) is None,
        address == sp + 8 * word + offset && 8 * word + 8 > stack_bytes.len() ==> stack_word(
            stack_bytes,
            sp,
            address,
        ) is None,
        address == sp + 8 * word + offset && 8 * word + 8 <= stack_bytes.len() ==> stack_word(
            stack_bytes,
            sp,
            address,
        ) == Some(
            spec_u64_from_le_bytes(
                stack_bytes.subrange((8 * word) as int, (8 * word + 8) as int),
            ),
        ),
{
    if address == sp + 8 * word + offset {
        assert((address - sp) / 8 == word);
    }
}

} // verus!
