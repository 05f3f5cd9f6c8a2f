use rand::Rng;
use vstd::prelude::*;

use crate::decode::{decode, instruction_of, registers_in_range, Instruction};
use crate::display::{blank_grid, Framebuffer};
use crate::keypad::{lowest_held, Keypad};
use crate::machine::{
    add_to_index_result, add_xy_result, call_result, decimal_result, draw_grid, draw_result,
    font_result, get_key_result, load_result, opcode_at, ret_result, shift_left_result,
    shift_right_result, store_result, sub_xy_result, sub_yx_result, CpuState, Fault, CPU,
    MEMORY_SIZE,
};
use crate::timer::DelayTimer;

verus! {

/// What to do with a word that encodes no instruction.
#[derive(Clone, Copy, Debug, PartialEq, Eq, Structural)]
pub enum Policy {
    /// Stop with `Fault::UnknownInstruction`.
    Strict,
    /// Treat it as doing nothing and go on.
    Lenient,
}

/// What the surroundings should do after an instruction.
#[derive(Clone, Copy, Debug, PartialEq, Eq, Structural)]
pub enum Flow {
    /// Go on with the next instruction.
    Continue,
    /// The display changed: present it, then go on.
    Redraw,
    /// No key was held for a key wait; the same instruction runs again next.
    WaitingForKey,
    /// The halt instruction ran: stop.
    Halt,
}

/// The state that an instruction works on: the processor, the display grid
/// and the delay timer's value.
pub type Machine = (CpuState, Seq<Seq<bool>>, u8);

/// Whether `i` only changes the processor, cannot fail, and is followed by
/// the next instruction.
pub open spec fn is_plain(i: Instruction) -> bool {
    !(i is Halt || i is Clear || i is Return || i is Call || i is Draw || i is WaitKey
        || i is SetTimer || i is Decimal || i is StoreRegisters || i is LoadRegisters
        || i is Unknown)
}

/// What an instruction for which `is_plain` holds does to the processor `s`,
/// with `keys` the keys held, `t` the delay timer's value and `byte` the
/// random byte that a random instruction would use.
pub open spec fn plain_result(s: CpuState, keys: Seq<bool>, t: u8, i: Instruction, byte: u8) -> CpuState {
    match i {
        Instruction::Jump { nnn } => s.with_pc(nnn as int),
        Instruction::SkipIfEqualByte { x, kk } => s.skip_if(s.reg(x) == kk),
        Instruction::SkipIfNotEqualByte { x, kk } => s.skip_if(s.reg(x) != kk),
        Instruction::SkipIfEqual { x, y } => s.skip_if(s.reg(x) == s.reg(y)),
        Instruction::SetRegister { x, kk } => s.with_register(x as int, kk),
        Instruction::Add { x, kk } => s.with_register(x as int, ((s.reg(x) + kk) % 256) as u8),
        Instruction::CopyRegister { x, y } => s.with_register(x as int, s.reg(y)),
        Instruction::Or { x, y } => s.with_register(x as int, s.reg(x) | s.reg(y)),
        Instruction::And { x, y } => s.with_register(x as int, s.reg(x) & s.reg(y)),
        Instruction::Xor { x, y } => s.with_register(x as int, s.reg(x) ^ s.reg(y)),
        Instruction::AddRegisters { x, y } => add_xy_result(s, x, y),
        Instruction::SubRegisters { x, y } => sub_xy_result(s, x, y),
        Instruction::ShiftRight { x } => shift_right_result(s, x),
        Instruction::SubReversed { x, y } => sub_yx_result(s, x, y),
        Instruction::ShiftLeft { x } => shift_left_result(s, x),
        Instruction::SkipIfNotEqual { x, y } => s.skip_if(s.reg(x) != s.reg(y)),
        Instruction::SetIndex { nnn } => CpuState { index: nnn as int, ..s },
        Instruction::JumpOffset { nnn } => s.with_pc(nnn + s.reg(0)),
        Instruction::Random { x, kk } => s.with_register(x as int, byte & kk),
        Instruction::SkipIfKey { x } => s.skip_if(keys[(s.reg(x) % 16) as int]),
        Instruction::SkipIfNotKey { x } => s.skip_if(!keys[(s.reg(x) % 16) as int]),
        Instruction::ReadTimer { x } => s.with_register(x as int, t),
        Instruction::AddToIndex { x } => add_to_index_result(s, x),
        Instruction::Font { x } => font_result(s, x),
        _ => s,
    }
}

/// What running `i` does to the processor `s`, the display `g` and the delay
/// timer `t`, with `keys` the keys held and `byte` the random byte that a
/// random instruction would use. A fault leaves everything as it was.
pub open spec fn execute_result(
    s: CpuState,
    g: Seq<Seq<bool>>,
    keys: Seq<bool>,
    t: u8,
    i: Instruction,
    byte: u8,
    policy: Policy,
) -> Result<(Machine, Flow), Fault> {
    if is_plain(i) {
        Ok(((plain_result(s, keys, t, i, byte), g, t), Flow::Continue))
    } else {
        match i {
            Instruction::Halt => Ok(((s, g, t), Flow::Halt)),
            Instruction::Clear => Ok(((s, blank_grid(), t), Flow::Redraw)),
            Instruction::Return => match ret_result(s) {
                Ok(s2) => Ok(((s2, g, t), Flow::Continue)),
                Err(e) => Err(e),
            },
            Instruction::Call { nnn } => match call_result(s, nnn) {
                Ok(s2) => Ok(((s2, g, t), Flow::Continue)),
                Err(e) => Err(e),
            },
            Instruction::Draw { x, y, n } => if s.index + n > MEMORY_SIZE {
                Err(Fault::AddressOutOfRange)
            } else {
                Ok(((draw_result(s, g, x, y, n), draw_grid(s, g, x, y, n), t), Flow::Redraw))
            },
            Instruction::WaitKey { x } => Ok(
                (
                    (get_key_result(s, x, keys), g, t),
                    if lowest_held(keys) is Some {
                        Flow::Continue
                    } else {
                        Flow::WaitingForKey
                    },
                ),
            ),
            Instruction::SetTimer { x } => Ok(((s, g, s.reg(x)), Flow::Continue)),
            Instruction::Decimal { x } => if s.index + 3 > MEMORY_SIZE {
                Err(Fault::AddressOutOfRange)
            } else {
                Ok(((decimal_result(s, x), g, t), Flow::Continue))
            },
            Instruction::StoreRegisters { x } => if s.index + x >= MEMORY_SIZE {
                Err(Fault::AddressOutOfRange)
            } else {
                Ok(((store_result(s, x), g, t), Flow::Continue))
            },
            Instruction::LoadRegisters { x } => if s.index + x >= MEMORY_SIZE {
                Err(Fault::AddressOutOfRange)
            } else {
                Ok(((load_result(s, x), g, t), Flow::Continue))
            },
            Instruction::Unknown { word } => match policy {
                Policy::Strict => Err(Fault::UnknownInstruction { word }),
                Policy::Lenient => Ok(((s, g, t), Flow::Continue)),
            },
            _ => Ok(((s, g, t), Flow::Continue)),
        }
    }
}

/// What one fetch-and-run cycle does: fetch the word at the program counter,
/// move the counter past it, and run it. A fault leaves everything as it was
/// before the fetch.
pub open spec fn step_result(
    s: CpuState,
    g: Seq<Seq<bool>>,
    keys: Seq<bool>,
    t: u8,
    byte: u8,
    policy: Policy,
) -> Result<(Machine, Flow), Fault> {
    if s.pc + 1 >= MEMORY_SIZE {
        Err(Fault::ProgramCounterOutOfRange)
    } else {
        execute_result(s.with_pc(s.pc + 2), g, keys, t, instruction_of(opcode_at(s)), byte, policy)
    }
}

/// Whether an instruction that returned `r`, leaving the processor, display
/// and timer as `post`, did what `expected` says starting from `pre`.
pub open spec fn ran(
    expected: Result<(Machine, Flow), Fault>,
    pre: Machine,
    r: Result<Flow, Fault>,
    post: Machine,
) -> bool {
    match expected {
        Ok((m, f)) => r == Ok::<Flow, Fault>(f) && post == m,
        Err(e) => r == Err::<Flow, Fault>(e) && post == pre,
    }
}

/// Relies on rand::thread_rng and Rng::gen_range: a byte drawn from the whole
/// range 0 to 255. Nothing is known of which one.
#[verifier::external_body]
fn random_byte() -> (r: u8) {
    rand::thread_rng().gen_range(0..=u8::MAX)
}

fn is_plain_instruction(i: Instruction) -> (r: bool)
    ensures
        r == is_plain(i),
{
    match i {
        Instruction::Halt | Instruction::Clear | Instruction::Return | Instruction::Call { .. }
        | Instruction::Draw { .. } | Instruction::WaitKey { .. } | Instruction::SetTimer { .. }
        | Instruction::Decimal { .. } | Instruction::StoreRegisters { .. }
        | Instruction::LoadRegisters { .. } | Instruction::Unknown { .. } => false,
        _ => true,
    }
}

impl CPU {
    fn execute_plain(&mut self, instruction: Instruction, keys: &Keypad, timer: &DelayTimer, byte: u8)
        requires
            is_plain(instruction),
            registers_in_range(instruction),
            2 <= old(self).program_counter <= MEMORY_SIZE,
        ensures
            final(self)@ == plain_result(old(self)@, keys@, timer@, instruction, byte),
    {
        match instruction {
            Instruction::Jump { nnn } => self.jump(nnn),
            Instruction::SkipIfEqualByte { x, kk } => self.skip_x_equal(x, kk),
            Instruction::SkipIfNotEqualByte { x, kk } => self.skip_x_nequal(x, kk),
            Instruction::SkipIfEqual { x, y } => self.skip_equal(x, y),
            Instruction::SetRegister { x, kk } => self.set(x, kk),
            Instruction::Add { x, kk } => self.add(x, kk),
            Instruction::CopyRegister { x, y } => self.set_xy(x, y),
            Instruction::Or { x, y } => self.bitwise_or(x, y),
            Instruction::And { x, y } => self.bitwise_and(x, y),
            Instruction::Xor { x, y } => self.bitwise_xor(x, y),
            Instruction::AddRegisters { x, y } => self.add_xy(x, y),
            Instruction::SubRegisters { x, y } => self.sub_xy(x, y),
            Instruction::ShiftRight { x } => self.shift_right(x),
            Instruction::SubReversed { x, y } => self.sub_yx(x, y),
            Instruction::ShiftLeft { x } => self.shift_left(x),
            Instruction::SkipIfNotEqual { x, y } => self.skip_nequal(x, y),
            Instruction::SetIndex { nnn } => self.set_index(nnn),
            Instruction::JumpOffset { nnn } => self.jump_offset(nnn),
            Instruction::Random { x, kk } => self.random(x, kk, byte),
            Instruction::SkipIfKey { x } => self.skip_key_pressed(x, keys),
            Instruction::SkipIfNotKey { x } => self.skip_key_npressed(x, keys),
            Instruction::ReadTimer { x } => self.read_timer(x, timer),
            Instruction::AddToIndex { x } => self.add_to_index(x),
            Instruction::Font { x } => self.font(x),
            _ => {},
        }
    }

    /// Runs one decoded instruction. The program counter has already been
    /// moved past it; `byte` is the random byte that `Cxkk` uses.
    pub fn execute(
        &mut self,
        instruction: Instruction,
        screen: &mut Framebuffer,
        keys: &Keypad,
        timer: &mut DelayTimer,
        byte: u8,
        policy: Policy,
    ) -> (r: Result<Flow, Fault>)
        requires
            old(self).wf(),
            2 <= old(self).program_counter <= MEMORY_SIZE,
            registers_in_range(instruction),
        ensures
            final(self).wf(),
            ran(
                execute_result(
                    old(self)@,
                    old(screen)@,
                    keys@,
                    old(timer)@,
                    instruction,
                    byte,
                    policy,
                ),
                (old(self)@, old(screen)@, old(timer)@),
                r,
                (final(self)@, final(screen)@, final(timer)@),
            ),
    {
        if is_plain_instruction(instruction) {
            self.execute_plain(instruction, keys, timer, byte);
            return Ok(Flow::Continue);
        }
        match instruction {
            Instruction::Halt => {
                return Ok(Flow::Halt);
            },
            Instruction::Clear => {
                self.clear(screen);
                return Ok(Flow::Redraw);
            },
            Instruction::Return => {
                if let Err(e) = self.ret() {
                    return Err(e);
                }
            },
            Instruction::Call { nnn } => {
                if let Err(e) = self.call(nnn) {
                    return Err(e);
                }
            },
            Instruction::Draw { x, y, n } => {
                if self.index_register as usize + n as usize > MEMORY_SIZE {
                    return Err(Fault::AddressOutOfRange);
                }
                self.display(x, y, n, screen);
                return Ok(Flow::Redraw);
            },
            Instruction::WaitKey { x } => {
                let held = keys.get_depressed_key().is_some();
                self.get_key(x, keys);
                if !held {
                    return Ok(Flow::WaitingForKey);
                }
            },
            Instruction::SetTimer { x } => self.set_timer(x, timer),
            Instruction::Decimal { x } => {
                if self.index_register as usize + 3 > MEMORY_SIZE {
                    return Err(Fault::AddressOutOfRange);
                }
                self.decimal(x);
            },
            Instruction::StoreRegisters { x } => {
                if self.index_register as usize + x as usize >= MEMORY_SIZE {
                    return Err(Fault::AddressOutOfRange);
                }
                self.store_memory(x);
            },
            Instruction::LoadRegisters { x } => {
                if self.index_register as usize + x as usize >= MEMORY_SIZE {
                    return Err(Fault::AddressOutOfRange);
                }
                self.load_memory(x);
            },
            Instruction::Unknown { word } => {
                if let Policy::Strict = policy {
                    return Err(Fault::UnknownInstruction { word });
                }
            },
            _ => {},
        }
        Ok(Flow::Continue)
    }

    /// One cycle of the machine: fetch the instruction at the program
    /// counter, move past it, and run it, drawing a random byte for `Cxkk`.
    /// On a fault nothing changes, so the program counter still points at
    /// the instruction that failed.
    pub fn step(
        &mut self,
        screen: &mut Framebuffer,
        keys: &Keypad,
        timer: &mut DelayTimer,
        policy: Policy,
    ) -> (r: Result<Flow, Fault>)
        requires
            old(self).wf(),
        ensures
            final(self).wf(),
            exists|byte: u8|
                ran(
                    step_result(old(self)@, old(screen)@, keys@, old(timer)@, byte, policy),
                    (old(self)@, old(screen)@, old(timer)@),
                    r,
                    (final(self)@, final(screen)@, final(timer)@),
                ),
    {
        let pc = self.program_counter;
        if pc >= MEMORY_SIZE - 1 {
            assert(ran(
                step_result(old(self)@, old(screen)@, keys@, old(timer)@, 0, policy),
                (old(self)@, old(screen)@, old(timer)@),
                Err(Fault::ProgramCounterOutOfRange),
                (self@, screen@, timer@),
            ));
            return Err(Fault::ProgramCounterOutOfRange);
        }
        let word = self.read_opcode();
        self.program_counter = pc + 2;
        let instruction = decode(word);
        let byte = if let Instruction::Random { .. } = instruction {
            random_byte()
        } else {
            0
        };
        let r = self.execute(instruction, screen, keys, timer, byte, policy);
        if r.is_err() {
            self.program_counter = pc;
        }
        assert(ran(
            step_result(old(self)@, old(screen)@, keys@, old(timer)@, byte, policy),
            (old(self)@, old(screen)@, old(timer)@),
            r,
            (self@, screen@, timer@),
        ));
        r
    }
}

} // verus!
