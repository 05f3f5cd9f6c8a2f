use vstd::prelude::*;

use crate::decode::Instruction;
use crate::display::{is_grid, lemma_draw_twice, lights};
use crate::execute::{execute_result, Flow, Policy};
use crate::machine::{
    add_xy_result, call_result, draw_grid, draw_result, ret_result, shift_left_result,
    shift_right_result, sprite_at_index, sub_xy_result, sub_yx_result, CpuState, Fault, FLAG,
    MEMORY_SIZE, REGISTER_COUNT, STACK_DEPTH,
};

verus! {

/// Adding two registers leaves `(a + b) mod 256` in the first, unless the
/// first is the flag register itself, and sets the flag to 1 exactly when
/// `a + b` exceeds 255.
pub proof fn lemma_add_registers(
    s: CpuState,
    g: Seq<Seq<bool>>,
    keys: Seq<bool>,
    t: u8,
    x: u8,
    y: u8,
    byte: u8,
    policy: Policy,
)
    requires
        s.wf(),
        x < REGISTER_COUNT,
        y < REGISTER_COUNT,
    ensures
        execute_result(s, g, keys, t, Instruction::AddRegisters { x, y }, byte, policy) == Ok::<
            _,
            Fault,
        >(((add_xy_result(s, x, y), g, t), Flow::Continue)),
        add_xy_result(s, x, y).registers[FLAG as int] == if s.reg(x) + s.reg(y) > 255 {
            1u8
        } else {
            0u8
        },
        x != FLAG ==> add_xy_result(s, x, y).reg(x) == (s.reg(x) + s.reg(y)) % 256,
{
}

/// Subtracting sets the flag to 0 exactly when a borrow occurs (the minuend
/// is the smaller), and to 1 otherwise; `Vx - Vy` compares `Vx` with `Vy`
/// and the reversed `Vy - Vx` compares `Vy` with `Vx`. Unless `x` is the flag
/// register, `Vx` holds the difference modulo 256.
pub proof fn lemma_subtract_registers(
    s: CpuState,
    g: Seq<Seq<bool>>,
    keys: Seq<bool>,
    t: u8,
    x: u8,
    y: u8,
    byte: u8,
    policy: Policy,
)
    requires
        s.wf(),
        x < REGISTER_COUNT,
        y < REGISTER_COUNT,
    ensures
        execute_result(s, g, keys, t, Instruction::SubRegisters { x, y }, byte, policy) == Ok::<
            _,
            Fault,
        >(((sub_xy_result(s, x, y), g, t), Flow::Continue)),
        execute_result(s, g, keys, t, Instruction::SubReversed { x, y }, byte, policy) == Ok::<
            _,
            Fault,
        >(((sub_yx_result(s, x, y), g, t), Flow::Continue)),
        sub_xy_result(s, x, y).registers[FLAG as int] == if s.reg(x) < s.reg(y) {
            0u8
        } else {
            1u8
        },
        sub_yx_result(s, x, y).registers[FLAG as int] == if s.reg(y) < s.reg(x) {
            0u8
        } else {
            1u8
        },
        x != FLAG ==> sub_xy_result(s, x, y).reg(x) == (s.reg(x) - s.reg(y)) % 256,
        x != FLAG ==> sub_yx_result(s, x, y).reg(x) == (s.reg(y) - s.reg(x)) % 256,
{
}

/// A shift sets the flag to the bit it pushes out, read before the shift:
/// the highest bit for a left shift, the lowest for a right shift. Unless
/// `x` is the flag register, `Vx` then holds its old value shifted by one,
/// truncated to a byte, with nothing of the flag shifted in.
pub proof fn lemma_shifts(
    s: CpuState,
    g: Seq<Seq<bool>>,
    keys: Seq<bool>,
    t: u8,
    x: u8,
    byte: u8,
    policy: Policy,
)
    requires
        s.wf(),
        x < REGISTER_COUNT,
    ensures
        execute_result(s, g, keys, t, Instruction::ShiftLeft { x }, byte, policy) == Ok::<
            _,
            Fault,
        >(((shift_left_result(s, x), g, t), Flow::Continue)),
        execute_result(s, g, keys, t, Instruction::ShiftRight { x }, byte, policy) == Ok::<
            _,
            Fault,
        >(((shift_right_result(s, x), g, t), Flow::Continue)),
        shift_left_result(s, x).registers[FLAG as int] == s.reg(x) >> 7u8,
        shift_right_result(s, x).registers[FLAG as int] == s.reg(x) & 1u8,
        x != FLAG ==> shift_left_result(s, x).reg(x) == ((s.reg(x) as u32) << 1u32) & 0xFFu32,
        x != FLAG ==> shift_right_result(s, x).reg(x) == s.reg(x) >> 1u8,
{
    let a = s.reg(x);
    assert(a >> 7u8 == a / 128 && a & 1u8 == a % 2 && a >> 1u8 == a / 2 && ((a as u32) << 1u32)
        & 0xFFu32 == (a * 2) % 256) by (bit_vector);
}

/// The processor after calling the subroutines at `targets`, one after the
/// other, starting from `s`.
pub open spec fn after_calls(s: CpuState, targets: Seq<u16>) -> Result<CpuState, Fault>
    decreases targets.len(),
{
    if targets.len() == 0 {
        Ok(s)
    } else {
        match after_calls(s, targets.drop_last()) {
            Ok(s2) => call_result(s2, targets.last()),
            Err(e) => Err(e),
        }
    }
}

/// The processor after `k` returns, one after the other, starting from `s`.
pub open spec fn after_returns(s: CpuState, k: nat) -> Result<CpuState, Fault>
    decreases k,
{
    if k == 0 {
        Ok(s)
    } else {
        match after_returns(s, (k - 1) as nat) {
            Ok(s2) => ret_result(s2),
            Err(e) => Err(e),
        }
    }
}

/// Where the `i`-th of the calls to `targets` made from `s` returns to: the
/// program counter when it was made.
pub open spec fn return_address(s: CpuState, targets: Seq<u16>, i: int) -> int {
    if i == 0 {
        s.pc
    } else {
        targets[i - 1] as int
    }
}

proof fn lemma_calls_push(s: CpuState, targets: Seq<u16>)
    requires
        s.wf(),
        s.pc <= u16::MAX,
        s.sp + targets.len() <= STACK_DEPTH,
    ensures
        after_calls(s, targets) is Ok,
        ({
            let c = after_calls(s, targets)->Ok_0;
            &&& c.wf()
            &&& c.sp == s.sp + targets.len()
            &&& c.pc == return_address(s, targets, targets.len() as int)
            &&& c.registers == s.registers
            &&& c.memory == s.memory
            &&& c.index == s.index
            &&& forall|j: int| 0 <= j < s.sp ==> c.stack[j] == s.stack[j]
            &&& forall|i: int|
                0 <= i < targets.len() ==> c.stack[s.sp + i] == return_address(s, targets, i)
        }),
    decreases targets.len(),
{
    if targets.len() > 0 {
        let prefix = targets.drop_last();
        lemma_calls_push(s, prefix);
        let c = after_calls(s, prefix)->Ok_0;
        assert forall|i: int| 0 <= i < prefix.len() implies return_address(s, prefix, i)
            == return_address(s, targets, i) by {}
    }
}

proof fn lemma_returns_pop(c: CpuState, k: nat)
    requires
        c.wf(),
        k <= c.sp,
    ensures
        after_returns(c, k) is Ok,
        ({
            let r = after_returns(c, k)->Ok_0;
            &&& r.wf()
            &&& r.sp == c.sp - k
            &&& k > 0 ==> r.pc == c.stack[c.sp - k]
            &&& k == 0 ==> r.pc == c.pc
            &&& r.registers == c.registers
            &&& r.memory == c.memory
            &&& r.stack == c.stack
            &&& r.index == c.index
        }),
    decreases k,
{
    if k > 0 {
        lemma_returns_pop(c, (k - 1) as nat);
    }
}

/// Calls then returns nest: after `N` calls from `s` (with room for them on
/// the stack), the `k`-th of `N` returns goes back to the address that the
/// `(N - k)`-th call left, so the returns come back in reverse order, and
/// after all `N` the program counter, stack pointer, registers, memory and
/// index register are those of `s`.
pub proof fn lemma_calls_then_returns(s: CpuState, targets: Seq<u16>, k: nat)
    requires
        s.wf(),
        s.pc <= u16::MAX,
        s.sp + targets.len() <= STACK_DEPTH,
        1 <= k <= targets.len(),
    ensures
        after_calls(s, targets) is Ok,
        after_returns(after_calls(s, targets)->Ok_0, k) is Ok,
        after_returns(after_calls(s, targets)->Ok_0, k)->Ok_0.pc == return_address(
            s,
            targets,
            targets.len() - k,
        ),
        after_returns(after_calls(s, targets)->Ok_0, k)->Ok_0.sp == s.sp + targets.len() - k,
        k == targets.len() ==> ({
            let r = after_returns(after_calls(s, targets)->Ok_0, k)->Ok_0;
            r.pc == s.pc && r.sp == s.sp && r.registers == s.registers && r.memory == s.memory
                && r.index == s.index
        }),
{
    lemma_calls_push(s, targets);
    let c = after_calls(s, targets)->Ok_0;
    lemma_returns_pop(c, k);
    assert(c.stack[c.sp - k] == return_address(s, targets, targets.len() - k));
}

/// A call with every stack entry in use is a stack overflow: from an empty
/// stack the seventeenth call in a row without a return fails.
pub proof fn lemma_call_overflow(s: CpuState, targets: Seq<u16>)
    requires
        s.wf(),
        s.sp + targets.len() > STACK_DEPTH,
    ensures
        after_calls(s, targets) == Err::<CpuState, Fault>(Fault::StackOverflow),
    decreases targets.len(),
{
    let prefix = targets.drop_last();
    if s.sp + prefix.len() > STACK_DEPTH {
        lemma_call_overflow(s, prefix);
    } else if s.pc <= u16::MAX {
        lemma_calls_push(s, prefix);
    } else {
        lemma_calls_fit(s, prefix);
    }
}

proof fn lemma_calls_fit(s: CpuState, targets: Seq<u16>)
    requires
        s.wf(),
        s.sp + targets.len() <= STACK_DEPTH,
    ensures
        after_calls(s, targets) is Ok,
        (after_calls(s, targets)->Ok_0).sp == s.sp + targets.len(),
        (after_calls(s, targets)->Ok_0).wf(),
    decreases targets.len(),
{
    if targets.len() > 0 {
        lemma_calls_fit(s, targets.drop_last());
    }
}

/// A return with an empty stack is a stack underflow.
pub proof fn lemma_return_underflow(s: CpuState)
    requires
        s.sp == 0,
    ensures
        ret_result(s) == Err::<CpuState, Fault>(Fault::StackUnderflow),
{
}

/// Drawing the same sprite twice at the same place restores every pixel of
/// the display, and the second draw sets the flag to 1 exactly when the
/// first one lit a pixel. The coordinates must not be in the flag register,
/// which the first draw overwrites.
pub proof fn lemma_draw_twice_on_machine(s: CpuState, g: Seq<Seq<bool>>, x: u8, y: u8, n: u8)
    requires
        s.wf(),
        is_grid(g),
        x < REGISTER_COUNT,
        y < REGISTER_COUNT,
        x != FLAG,
        y != FLAG,
        s.index + n <= MEMORY_SIZE,
    ensures
        ({
            let (s1, g1) = (draw_result(s, g, x, y, n), draw_grid(s, g, x, y, n));
            &&& draw_grid(s1, g1, x, y, n) == g
            &&& draw_result(s1, g1, x, y, n).registers[FLAG as int] == if lights(
                g,
                sprite_at_index(s, n),
                s.reg(x) as int,
                s.reg(y) as int,
            ) {
                1u8
            } else {
                0u8
            }
        }),
{
    let s1 = draw_result(s, g, x, y, n);
    assert(sprite_at_index(s1, n) == sprite_at_index(s, n));
    assert(s1.reg(x) == s.reg(x) && s1.reg(y) == s.reg(y));
    lemma_draw_twice(g, sprite_at_index(s, n), s.reg(x) as int, s.reg(y) as int);
}

} // verus!
