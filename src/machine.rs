use vstd::prelude::*;

use crate::display::{collides, xor_sprite, Framebuffer};
use crate::keypad::{lowest_held, Keypad, KEY_COUNT};
use crate::timer::DelayTimer;

verus! {

/// Bytes of memory.
pub const MEMORY_SIZE: usize = 0x1000;

/// Number of general registers.
pub const REGISTER_COUNT: usize = 16;

/// The register that doubles as the carry, borrow and collision flag.
pub const FLAG: usize = 0xF;

/// Capacity of the call stack.
pub const STACK_DEPTH: usize = 16;

/// Where a program image is loaded, and where execution starts.
pub const PROGRAM_START: usize = 0x200;

/// Bytes per font glyph.
pub const GLYPH_SIZE: u16 = 5;

/// Why the machine cannot go on.
#[derive(Clone, Copy, Debug, PartialEq, Eq, Structural)]
pub enum Fault {
    /// A call with all stack entries in use.
    StackOverflow,
    /// A return with no call to return from.
    StackUnderflow,
    /// An instruction that reads or writes memory past its last byte.
    AddressOutOfRange,
    /// The program counter does not point at a whole instruction.
    ProgramCounterOutOfRange,
    /// A word that encodes no instruction, under the strict policy.
    UnknownInstruction { word: u16 },
}

/// The state of the processor: registers, program counter, memory, call
/// stack and index register. The display, keypad and delay timer belong to
/// the surroundings and are handed to the operations that use them.
pub struct CPU {
    /// The sixteen general registers `V0` to `VF`; `VF` is also the flag.
    pub registers: [u8; REGISTER_COUNT],
    /// Address of the next instruction.
    pub program_counter: usize,
    /// The 4 KiB of memory: font glyphs at the bottom, the program from
    /// `PROGRAM_START` on.
    pub memory: [u8; MEMORY_SIZE],
    /// Return addresses of the calls in progress, oldest first.
    pub stack: [u16; STACK_DEPTH],
    /// Number of entries of `stack` in use.
    pub stack_pointer: usize,
    /// The index register, most often the address of a sprite.
    pub index_register: u16,
}

/// The mathematical view of a `CPU`.
pub ghost struct CpuState {
    pub registers: Seq<u8>,
    pub pc: int,
    pub memory: Seq<u8>,
    pub stack: Seq<u16>,
    pub sp: int,
    pub index: int,
}

impl View for CPU {
    type V = CpuState;

    open spec fn view(&self) -> CpuState {
        CpuState {
            registers: self.registers@,
            pc: self.program_counter as int,
            memory: self.memory@,
            stack: self.stack@,
            sp: self.stack_pointer as int,
            index: self.index_register as int,
        }
    }
}

impl CpuState {
    /// Sizes as in a `CPU`, and a stack pointer within the stack.
    pub open spec fn wf(self) -> bool {
        &&& self.registers.len() == REGISTER_COUNT
        &&& self.memory.len() == MEMORY_SIZE
        &&& self.stack.len() == STACK_DEPTH
        &&& 0 <= self.sp <= STACK_DEPTH
        &&& 0 <= self.pc <= usize::MAX
        &&& 0 <= self.index <= u16::MAX
    }

    /// The value of register `x`.
    pub open spec fn reg(self, x: u8) -> u8 {
        self.registers[x as int]
    }

    /// The state with register `x` set to `v`.
    pub open spec fn with_register(self, x: int, v: u8) -> CpuState {
        CpuState { registers: self.registers.update(x, v), ..self }
    }

    /// The state with the flag register set to `v`.
    pub open spec fn with_flag(self, v: u8) -> CpuState {
        self.with_register(FLAG as int, v)
    }

    /// The state with the next instruction skipped when `cond` holds.
    pub open spec fn skip_if(self, cond: bool) -> CpuState {
        if cond {
            CpuState { pc: self.pc + 2, ..self }
        } else {
            self
        }
    }

    /// The state with the program counter at `a`.
    pub open spec fn with_pc(self, a: int) -> CpuState {
        CpuState { pc: a, ..self }
    }
}

/// `Vx = Vx + Vy`; the flag is 1 on a carry out of the byte, else 0.
pub open spec fn add_xy_result(s: CpuState, x: u8, y: u8) -> CpuState {
    let sum = s.reg(x) + s.reg(y);
    s.with_register(x as int, (sum % 256) as u8).with_flag(if sum > 255 { 1 } else { 0 })
}

/// `Vx = Vx - Vy`; the flag is 0 on a borrow, else 1.
pub open spec fn sub_xy_result(s: CpuState, x: u8, y: u8) -> CpuState {
    let (a, b) = (s.reg(x), s.reg(y));
    s.with_register(x as int, ((a - b) % 256) as u8).with_flag(if a < b { 0 } else { 1 })
}

/// `Vx = Vy - Vx`; the flag is 0 on a borrow, else 1.
pub open spec fn sub_yx_result(s: CpuState, x: u8, y: u8) -> CpuState {
    let (a, b) = (s.reg(x), s.reg(y));
    s.with_register(x as int, ((b - a) % 256) as u8).with_flag(if b < a { 0 } else { 1 })
}

/// `Vx = Vx >> 1`; the flag takes the bit shifted out, the lowest.
pub open spec fn shift_right_result(s: CpuState, x: u8) -> CpuState {
    let a = s.reg(x);
    s.with_register(x as int, a / 2).with_flag(a % 2)
}

/// `Vx = Vx << 1`, truncated to a byte; the flag takes the bit shifted out,
/// the highest.
pub open spec fn shift_left_result(s: CpuState, x: u8) -> CpuState {
    let a = s.reg(x);
    s.with_register(x as int, ((a * 2) % 256) as u8).with_flag(a / 128)
}

/// `2nnn`: push the program counter (already past the call) and jump to
/// `nnn`; with every stack entry in use the call is a fault.
pub open spec fn call_result(s: CpuState, nnn: u16) -> Result<CpuState, Fault> {
    if s.sp >= STACK_DEPTH {
        Err(Fault::StackOverflow)
    } else {
        Ok(CpuState { stack: s.stack.update(s.sp, s.pc as u16), sp: s.sp + 1, pc: nnn as int, ..s })
    }
}

/// `00EE`: pop the last return address into the program counter; with an
/// empty stack the return is a fault.
pub open spec fn ret_result(s: CpuState) -> Result<CpuState, Fault> {
    if s.sp == 0 {
        Err(Fault::StackUnderflow)
    } else {
        Ok(CpuState { sp: s.sp - 1, pc: s.stack[s.sp - 1] as int, ..s })
    }
}

/// Whether an operation that returned `r`, leaving the machine in `post`,
/// did what `expected` says starting from `pre`: the new state on success,
/// the fault with the machine unchanged otherwise.
pub open spec fn follows(
    expected: Result<CpuState, Fault>,
    pre: CpuState,
    r: Result<(), Fault>,
    post: CpuState,
) -> bool {
    match expected {
        Ok(t) => r is Ok && post == t,
        Err(e) => r == Err::<(), Fault>(e) && post == pre,
    }
}

/// `Fx1E`: `I = I + Vx`, wrapping at 16 bits; the flag is 1 when it wrapped.
pub open spec fn add_to_index_result(s: CpuState, x: u8) -> CpuState {
    let sum = s.index + s.reg(x);
    CpuState { index: sum % 0x10000, ..s }.with_flag(if sum > 0xFFFF { 1 } else { 0 })
}

/// `Fx29`: `I` = address of the glyph of the low nibble of `Vx`.
pub open spec fn font_result(s: CpuState, x: u8) -> CpuState {
    CpuState { index: (s.reg(x) % 16) * GLYPH_SIZE, ..s }
}

/// The decimal digits of `v`: hundreds, tens, ones.
pub open spec fn decimal_digits(v: u8) -> Seq<u8> {
    seq![v / 100, v / 10 % 10, v % 10]
}

/// `Fx33`: the digits of `Vx` go to `I`, `I + 1` and `I + 2`.
pub open spec fn decimal_result(s: CpuState, x: u8) -> CpuState {
    let d = decimal_digits(s.reg(x));
    CpuState {
        memory: s.memory.update(s.index, d[0]).update(s.index + 1, d[1]).update(s.index + 2, d[2]),
        ..s
    }
}

/// `Fx55`: `V0` to `Vx` go to memory from `I` on.
pub open spec fn store_result(s: CpuState, x: u8) -> CpuState {
    CpuState {
        memory: Seq::new(
            MEMORY_SIZE as nat,
            |a: int|
                if s.index <= a <= s.index + x {
                    s.registers[a - s.index]
                } else {
                    s.memory[a]
                },
        ),
        ..s
    }
}

/// `Fx65`: `V0` to `Vx` come from memory from `I` on.
pub open spec fn load_result(s: CpuState, x: u8) -> CpuState {
    CpuState {
        registers: Seq::new(
            REGISTER_COUNT as nat,
            |r: int|
                if r <= x {
                    s.memory[s.index + r]
                } else {
                    s.registers[r]
                },
        ),
        ..s
    }
}

/// `Fx0A`: the lowest held key goes to `Vx`; with no key held the program
/// counter steps back onto this instruction, so that it runs again.
pub open spec fn get_key_result(s: CpuState, x: u8, keys: Seq<bool>) -> CpuState {
    match lowest_held(keys) {
        Some(k) => s.with_register(x as int, k),
        None => s.with_pc(s.pc - 2),
    }
}

/// The `n` sprite rows at the index register.
pub open spec fn sprite_at_index(s: CpuState, n: u8) -> Seq<u8> {
    s.memory.subrange(s.index, s.index + n)
}

/// `Dxyn`, on the machine: the flag is 1 when a lit pixel was turned off.
pub open spec fn draw_result(s: CpuState, g: Seq<Seq<bool>>, x: u8, y: u8, n: u8) -> CpuState {
    s.with_flag(
        if collides(g, sprite_at_index(s, n), s.reg(x) as int, s.reg(y) as int) {
            1
        } else {
            0
        },
    )
}

/// `Dxyn`, on the display.
pub open spec fn draw_grid(s: CpuState, g: Seq<Seq<bool>>, x: u8, y: u8, n: u8) -> Seq<Seq<bool>> {
    xor_sprite(g, sprite_at_index(s, n), s.reg(x) as int, s.reg(y) as int)
}

/// The sixteen font glyphs, hexadecimal digits 0 to F, five rows each.
pub open spec fn font_glyphs() -> Seq<u8> {
    seq![
        0xF0u8, 0x90, 0x90, 0x90, 0xF0, 0x20, 0x60, 0x20, 0x20, 0x70,
        0xF0, 0x10, 0xF0, 0x80, 0xF0, 0xF0, 0x10, 0xF0, 0x10, 0xF0,
        0x90, 0x90, 0xF0, 0x10, 0x10, 0xF0, 0x80, 0xF0, 0x10, 0xF0,
        0xF0, 0x80, 0xF0, 0x90, 0xF0, 0xF0, 0x10, 0x20, 0x40, 0x40,
        0xF0, 0x90, 0xF0, 0x90, 0xF0, 0xF0, 0x90, 0xF0, 0x10, 0xF0,
        0xF0, 0x90, 0xF0, 0x90, 0x90, 0xE0, 0x90, 0xE0, 0x90, 0xE0,
        0xF0, 0x80, 0x80, 0x80, 0xF0, 0xE0, 0x90, 0x90, 0x90, 0xE0,
        0xF0, 0x80, 0xF0, 0x80, 0xF0, 0xF0, 0x80, 0xF0, 0x80, 0x80,
    ]
}

/// Memory at start-up: the font at address 0, the program image from
/// `PROGRAM_START` on, zero elsewhere.
pub open spec fn initial_memory(program: Seq<u8>) -> Seq<u8> {
    Seq::new(
        MEMORY_SIZE as nat,
        |a: int|
            if a < font_glyphs().len() {
                font_glyphs()[a]
            } else if PROGRAM_START <= a < PROGRAM_START + program.len() {
                program[a - PROGRAM_START]
            } else {
                0
            },
    )
}

/// The machine at start-up with `program` loaded: registers, stack and index
/// all zero, execution about to start at `PROGRAM_START`.
pub open spec fn initial_state(program: Seq<u8>) -> CpuState {
    CpuState {
        registers: Seq::new(REGISTER_COUNT as nat, |r: int| 0u8),
        pc: PROGRAM_START as int,
        memory: initial_memory(program),
        stack: Seq::new(STACK_DEPTH as nat, |r: int| 0u16),
        sp: 0,
        index: 0,
    }
}

/// The instruction word at the program counter, most significant byte first.
pub open spec fn opcode_at(s: CpuState) -> u16 {
    (s.memory[s.pc] * 256 + s.memory[s.pc + 1]) as u16
}

fn font_table() -> (r: [u8; 80])
    ensures
        r@ == font_glyphs(),
{
    let r = [
        0xF0u8, 0x90, 0x90, 0x90, 0xF0, 0x20, 0x60, 0x20, 0x20, 0x70,
        0xF0, 0x10, 0xF0, 0x80, 0xF0, 0xF0, 0x10, 0xF0, 0x10, 0xF0,
        0x90, 0x90, 0xF0, 0x10, 0x10, 0xF0, 0x80, 0xF0, 0x10, 0xF0,
        0xF0, 0x80, 0xF0, 0x90, 0xF0, 0xF0, 0x10, 0x20, 0x40, 0x40,
        0xF0, 0x90, 0xF0, 0x90, 0xF0, 0xF0, 0x90, 0xF0, 0x10, 0xF0,
        0xF0, 0x90, 0xF0, 0x90, 0x90, 0xE0, 0x90, 0xE0, 0x90, 0xE0,
        0xF0, 0x80, 0x80, 0x80, 0xF0, 0xE0, 0x90, 0x90, 0x90, 0xE0,
        0xF0, 0x80, 0xF0, 0x80, 0xF0, 0xF0, 0x80, 0xF0, 0x80, 0x80,
    ];
    assert(r@ =~= font_glyphs());
    r
}

impl CPU {
    /// The stack pointer is within the stack.
    pub open spec fn wf(&self) -> bool {
        self.stack_pointer <= STACK_DEPTH
    }

    /// A machine with the font and `program` in memory, ready to run it;
    /// `None` when the program does not fit between `PROGRAM_START` and the
    /// end of memory.
    pub fn new(program: &[u8]) -> (r: Option<CPU>)
        ensures
            r is Some <==> program@.len() <= MEMORY_SIZE - PROGRAM_START,
            r matches Some(c) ==> c.wf() && c@ == initial_state(program@),
    {
        if program.len() > MEMORY_SIZE - PROGRAM_START {
            return None;
        }
        let font = font_table();
        let mut memory = [0u8; MEMORY_SIZE];
        let mut i: usize = 0;
        while i < 80
            invariant
                i <= 80,
                font@ == font_glyphs(),
                forall|a: int| 0 <= a < i ==> memory@[a] == font_glyphs()[a],
                forall|a: int| i <= a < MEMORY_SIZE ==> memory@[a] == 0,
            decreases 80 - i,
        {
            memory[i] = font[i];
            i = i + 1;
        }
        let mut j: usize = 0;
        while j < program.len()
            invariant
                j <= program.len(),
                program.len() <= MEMORY_SIZE - PROGRAM_START,
                forall|a: int| 0 <= a < 80 ==> memory@[a] == font_glyphs()[a],
                forall|a: int|
                    PROGRAM_START <= a < PROGRAM_START + j ==> memory@[a] == program@[a
                        - PROGRAM_START],
                forall|a: int| 80 <= a < MEMORY_SIZE && !(PROGRAM_START <= a < PROGRAM_START + j)
                    ==> memory@[a] == 0,
            decreases program.len() - j,
        {
            memory[PROGRAM_START + j] = program[j];
            j = j + 1;
        }
        assert(memory@ =~= initial_memory(program@));
        let c = CPU {
            registers: [0u8; REGISTER_COUNT],
            program_counter: PROGRAM_START,
            memory,
            stack: [0u16; STACK_DEPTH],
            stack_pointer: 0,
            index_register: 0,
        };
        assert(c@.registers =~= initial_state(program@).registers);
        assert(c@.stack =~= initial_state(program@).stack);
        Some(c)
    }

    /// The instruction word at the program counter.
    pub fn read_opcode(&self) -> (r: u16)
        requires
            self.program_counter + 1 < MEMORY_SIZE,
        ensures
            r == opcode_at(self@),
    {
        let p = self.program_counter;
        let high = self.memory[p] as u16;
        let low = self.memory[p + 1] as u16;
        assert((high << 8) | low == high * 256 + low) by (bit_vector)
            requires
                high < 256,
                low < 256,
        ;
        (high << 8) | low
    }

    /// `1nnn`: jump to `nnn`.
    pub fn jump(&mut self, nnn: u16)
        ensures
            final(self)@ == old(self)@.with_pc(nnn as int),
    {
        self.program_counter = nnn as usize;
    }

    /// `Bnnn`: jump to `nnn + V0`.
    pub fn jump_offset(&mut self, nnn: u16)
        ensures
            final(self)@ == old(self)@.with_pc(nnn + old(self)@.reg(0)),
    {
        self.program_counter = nnn as usize + self.registers[0] as usize;
    }

    /// `2nnn`: call the subroutine at `nnn`, keeping the program counter as
    /// the return address.
    pub fn call(&mut self, nnn: u16) -> (r: Result<(), Fault>)
        requires
            old(self).wf(),
            old(self).program_counter <= u16::MAX,
        ensures
            final(self).wf(),
            follows(call_result(old(self)@, nnn), old(self)@, r, final(self)@),
    {
        let sp = self.stack_pointer;
        if sp >= STACK_DEPTH {
            return Err(Fault::StackOverflow);
        }
        self.stack[sp] = self.program_counter as u16;
        self.stack_pointer = sp + 1;
        self.program_counter = nnn as usize;
        Ok(())
    }

    /// `00EE`: return from the current subroutine.
    pub fn ret(&mut self) -> (r: Result<(), Fault>)
        requires
            old(self).wf(),
        ensures
            final(self).wf(),
            follows(ret_result(old(self)@), old(self)@, r, final(self)@),
    {
        if self.stack_pointer == 0 {
            return Err(Fault::StackUnderflow);
        }
        self.stack_pointer = self.stack_pointer - 1;
        self.program_counter = self.stack[self.stack_pointer] as usize;
        Ok(())
    }

    /// `3xkk`: skip the next instruction if `Vx == kk`.
    pub fn skip_x_equal(&mut self, x: u8, kk: u8)
        requires
            x < REGISTER_COUNT,
            old(self).program_counter + 2 <= usize::MAX,
        ensures
            final(self)@ == old(self)@.skip_if(old(self)@.reg(x) == kk),
    {
        if self.registers[x as usize] == kk {
            self.program_counter = self.program_counter + 2;
        }
    }

    /// `4xkk`: skip the next instruction if `Vx != kk`.
    pub fn skip_x_nequal(&mut self, x: u8, kk: u8)
        requires
            x < REGISTER_COUNT,
            old(self).program_counter + 2 <= usize::MAX,
        ensures
            final(self)@ == old(self)@.skip_if(old(self)@.reg(x) != kk),
    {
        if self.registers[x as usize] != kk {
            self.program_counter = self.program_counter + 2;
        }
    }

    /// `5xy0`: skip the next instruction if `Vx == Vy`.
    pub fn skip_equal(&mut self, x: u8, y: u8)
        requires
            x < REGISTER_COUNT,
            y < REGISTER_COUNT,
            old(self).program_counter + 2 <= usize::MAX,
        ensures
            final(self)@ == old(self)@.skip_if(old(self)@.reg(x) == old(self)@.reg(y)),
    {
        if self.registers[x as usize] == self.registers[y as usize] {
            self.program_counter = self.program_counter + 2;
        }
    }

    /// `9xy0`: skip the next instruction if `Vx != Vy`.
    pub fn skip_nequal(&mut self, x: u8, y: u8)
        requires
            x < REGISTER_COUNT,
            y < REGISTER_COUNT,
            old(self).program_counter + 2 <= usize::MAX,
        ensures
            final(self)@ == old(self)@.skip_if(old(self)@.reg(x) != old(self)@.reg(y)),
    {
        if self.registers[x as usize] != self.registers[y as usize] {
            self.program_counter = self.program_counter + 2;
        }
    }

    /// `Ex9E`: skip the next instruction if the key named by the low nibble
    /// of `Vx` is held.
    pub fn skip_key_pressed(&mut self, x: u8, keys: &Keypad)
        requires
            x < REGISTER_COUNT,
            old(self).program_counter + 2 <= usize::MAX,
        ensures
            final(self)@ == old(self)@.skip_if(keys@[(old(self)@.reg(x) % 16) as int]),
    {
        let v = self.registers[x as usize];
        let key = v & 0xF;
        assert(v & 0xF == v % 16) by (bit_vector);
        if keys.is_key_held(key) {
            self.program_counter = self.program_counter + 2;
        }
    }

    /// `ExA1`: skip the next instruction if the key named by the low nibble
    /// of `Vx` is not held.
    pub fn skip_key_npressed(&mut self, x: u8, keys: &Keypad)
        requires
            x < REGISTER_COUNT,
            old(self).program_counter + 2 <= usize::MAX,
        ensures
            final(self)@ == old(self)@.skip_if(!keys@[(old(self)@.reg(x) % 16) as int]),
    {
        let v = self.registers[x as usize];
        let key = v & 0xF;
        assert(v & 0xF == v % 16) by (bit_vector);
        if !keys.is_key_held(key) {
            self.program_counter = self.program_counter + 2;
        }
    }

    /// `Fx0A`: take the lowest held key into `Vx`, or, with none held, step
    /// back so that this instruction runs again.
    pub fn get_key(&mut self, x: u8, keys: &Keypad)
        requires
            x < REGISTER_COUNT,
            old(self).program_counter >= 2,
        ensures
            final(self)@ == get_key_result(old(self)@, x, keys@),
    {
        match keys.get_depressed_key() {
            Some(k) => self.registers[x as usize] = k,
            None => self.program_counter = self.program_counter - 2,
        }
    }

    /// `Annn`: `I = nnn`.
    pub fn set_index(&mut self, nnn: u16)
        ensures
            final(self)@ == (CpuState { index: nnn as int, ..old(self)@ }),
    {
        self.index_register = nnn;
    }

    /// `Fx1E`: `I = I + Vx`; the flag is 1 if the 16-bit index overflowed.
    pub fn add_to_index(&mut self, x: u8)
        requires
            x < REGISTER_COUNT,
        ensures
            final(self)@ == add_to_index_result(old(self)@, x),
    {
        let v = self.registers[x as usize] as u16;
        let wrapped = self.index_register as u32 + v as u32 > 0xFFFF;
        self.index_register = self.index_register.wrapping_add(v);
        self.registers[FLAG] = if wrapped { 1 } else { 0 };
    }

    /// `Fx29`: point `I` at the font glyph for the low nibble of `Vx`.
    pub fn font(&mut self, x: u8)
        requires
            x < REGISTER_COUNT,
        ensures
            final(self)@ == font_result(old(self)@, x),
    {
        let v = self.registers[x as usize];
        let digit = v & 0xF;
        assert(v & 0xF == v % 16) by (bit_vector);
        self.index_register = digit as u16 * GLYPH_SIZE;
    }

    /// `Fx33`: write the hundreds, tens and ones digits of `Vx` at `I`,
    /// `I + 1` and `I + 2`.
    pub fn decimal(&mut self, x: u8)
        requires
            x < REGISTER_COUNT,
            old(self).index_register + 3 <= MEMORY_SIZE,
        ensures
            final(self)@ == decimal_result(old(self)@, x),
    {
        let v = self.registers[x as usize];
        let i = self.index_register as usize;
        self.memory[i] = v / 100;
        self.memory[i + 1] = v / 10 % 10;
        self.memory[i + 2] = v % 10;
    }

    /// `Fx55`: store `V0` to `Vx` in memory from `I` on.
    pub fn store_memory(&mut self, x: u8)
        requires
            x < REGISTER_COUNT,
            old(self).index_register + x < MEMORY_SIZE,
        ensures
            final(self)@ == store_result(old(self)@, x),
    {
        let ghost s = self@;
        let base = self.index_register as usize;
        let mut i: usize = 0;
        assert(s.memory =~= Seq::new(
            MEMORY_SIZE as nat,
            |a: int|
                if base <= a < base + 0 {
                    s.registers[a - base]
                } else {
                    s.memory[a]
                },
        ));
        while i <= x as usize
            invariant
                x < REGISTER_COUNT,
                base == s.index,
                base + x < MEMORY_SIZE,
                i <= x + 1,
                self@ == (CpuState {
                    memory: Seq::new(
                        MEMORY_SIZE as nat,
                        |a: int|
                            if base <= a < base + i {
                                s.registers[a - base]
                            } else {
                                s.memory[a]
                            },
                    ),
                    ..s
                }),
            decreases x + 1 - i,
        {
            self.memory[base + i] = self.registers[i];
            i = i + 1;
            assert(self.memory@ =~= Seq::new(
                MEMORY_SIZE as nat,
                |a: int|
                    if base <= a < base + i {
                        s.registers[a - base]
                    } else {
                        s.memory[a]
                    },
            ));
        }
        assert(self@.memory =~= store_result(s, x).memory);
    }

    /// `Fx65`: load `V0` to `Vx` from memory from `I` on.
    pub fn load_memory(&mut self, x: u8)
        requires
            x < REGISTER_COUNT,
            old(self).index_register + x < MEMORY_SIZE,
        ensures
            final(self)@ == load_result(old(self)@, x),
    {
        let ghost s = self@;
        let base = self.index_register as usize;
        let mut i: usize = 0;
        assert(s.registers =~= Seq::new(
            REGISTER_COUNT as nat,
            |r: int|
                if r < 0 {
                    s.memory[base + r]
                } else {
                    s.registers[r]
                },
        ));
        while i <= x as usize
            invariant
                x < REGISTER_COUNT,
                base == s.index,
                base + x < MEMORY_SIZE,
                i <= x + 1,
                self@ == (CpuState {
                    registers: Seq::new(
                        REGISTER_COUNT as nat,
                        |r: int|
                            if r < i {
                                s.memory[base + r]
                            } else {
                                s.registers[r]
                            },
                    ),
                    ..s
                }),
            decreases x + 1 - i,
        {
            self.registers[i] = self.memory[base + i];
            i = i + 1;
            assert(self.registers@ =~= Seq::new(
                REGISTER_COUNT as nat,
                |r: int|
                    if r < i {
                        s.memory[base + r]
                    } else {
                        s.registers[r]
                    },
            ));
        }
        assert(self@.registers =~= load_result(s, x).registers);
    }

    /// `Cxkk`: `Vx = byte & kk`, where `byte` is a freshly drawn random byte.
    pub fn random(&mut self, x: u8, kk: u8, byte: u8)
        requires
            x < REGISTER_COUNT,
        ensures
            final(self)@ == old(self)@.with_register(x as int, byte & kk),
    {
        self.registers[x as usize] = byte & kk;
    }

    /// `Fx07`: `Vx` = the delay timer.
    pub fn read_timer(&mut self, x: u8, timer: &DelayTimer)
        requires
            x < REGISTER_COUNT,
        ensures
            final(self)@ == old(self)@.with_register(x as int, timer@),
    {
        self.registers[x as usize] = timer.read();
    }

    /// `Fx15`: the delay timer = `Vx`; it counts down from there.
    pub fn set_timer(&self, x: u8, timer: &mut DelayTimer)
        requires
            x < REGISTER_COUNT,
        ensures
            final(timer)@ == self@.reg(x),
    {
        timer.set(self.registers[x as usize]);
    }

    /// `00E0`: turn every pixel off.
    pub fn clear(&self, screen: &mut Framebuffer)
        ensures
            final(screen)@ == crate::display::blank_grid(),
    {
        screen.clear();
    }

    /// `Dxyn`: XOR-draw the `n` sprite rows at `I` with the top-left corner at
    /// (`Vx`, `Vy`); then the flag is 1 if a lit pixel was turned off, else 0.
    pub fn display(&mut self, x: u8, y: u8, n: u8, screen: &mut Framebuffer)
        requires
            x < REGISTER_COUNT,
            y < REGISTER_COUNT,
            old(self).index_register + n <= MEMORY_SIZE,
        ensures
            final(self)@ == draw_result(old(self)@, old(screen)@, x, y, n),
            final(screen)@ == draw_grid(old(self)@, old(screen)@, x, y, n),
    {
        let base = self.index_register as usize;
        let mut sprite: Vec<u8> = Vec::new();
        let mut i: usize = 0;
        while i < n as usize
            invariant
                base == self@.index,
                base + n <= MEMORY_SIZE,
                i <= n,
                sprite@ == self@.memory.subrange(base as int, base + i),
            decreases n - i,
        {
            sprite.push(self.memory[base + i]);
            i = i + 1;
            assert(sprite@ =~= self@.memory.subrange(base as int, base + i));
        }
        let hit = screen.draw(self.registers[x as usize], self.registers[y as usize], sprite.as_slice());
        self.registers[FLAG] = if hit { 1 } else { 0 };
    }

    /// `6xkk`: `Vx = kk`.
    pub fn set(&mut self, x: u8, kk: u8)
        requires
            x < REGISTER_COUNT,
        ensures
            final(self)@ == old(self)@.with_register(x as int, kk),
    {
        self.registers[x as usize] = kk;
    }

    /// `7xkk`: `Vx = Vx + kk`, wrapping; the flag is left alone.
    pub fn add(&mut self, x: u8, kk: u8)
        requires
            x < REGISTER_COUNT,
        ensures
            final(self)@ == old(self)@.with_register(
                x as int,
                ((old(self)@.reg(x) + kk) % 256) as u8,
            ),
    {
        self.registers[x as usize] = self.registers[x as usize].wrapping_add(kk);
    }

    /// `8xy0`: `Vx = Vy`.
    pub fn set_xy(&mut self, x: u8, y: u8)
        requires
            x < REGISTER_COUNT,
            y < REGISTER_COUNT,
        ensures
            final(self)@ == old(self)@.with_register(x as int, old(self)@.reg(y)),
    {
        self.registers[x as usize] = self.registers[y as usize];
    }

    /// `8xy1`: `Vx = Vx | Vy`.
    pub fn bitwise_or(&mut self, x: u8, y: u8)
        requires
            x < REGISTER_COUNT,
            y < REGISTER_COUNT,
        ensures
            final(self)@ == old(self)@.with_register(x as int, old(self)@.reg(x) | old(self)@.reg(y)),
    {
        self.registers[x as usize] = self.registers[x as usize] | self.registers[y as usize];
    }

    /// `8xy2`: `Vx = Vx & Vy`.
    pub fn bitwise_and(&mut self, x: u8, y: u8)
        requires
            x < REGISTER_COUNT,
            y < REGISTER_COUNT,
        ensures
            final(self)@ == old(self)@.with_register(x as int, old(self)@.reg(x) & old(self)@.reg(y)),
    {
        self.registers[x as usize] = self.registers[x as usize] & self.registers[y as usize];
    }

    /// `8xy3`: `Vx = Vx ^ Vy`.
    pub fn bitwise_xor(&mut self, x: u8, y: u8)
        requires
            x < REGISTER_COUNT,
            y < REGISTER_COUNT,
        ensures
            final(self)@ == old(self)@.with_register(x as int, old(self)@.reg(x) ^ old(self)@.reg(y)),
    {
        self.registers[x as usize] = self.registers[x as usize] ^ self.registers[y as usize];
    }

    /// `8xy4`: `Vx = Vx + Vy`, wrapping; then the flag is 1 on a carry, else 0.
    pub fn add_xy(&mut self, x: u8, y: u8)
        requires
            x < REGISTER_COUNT,
            y < REGISTER_COUNT,
        ensures
            final(self)@ == add_xy_result(old(self)@, x, y),
    {
        let a = self.registers[x as usize];
        let b = self.registers[y as usize];
        let v = a.wrapping_add(b);
        let carry = a as u16 + b as u16 > 255;
        self.registers[x as usize] = v;
        self.registers[FLAG] = if carry { 1 } else { 0 };
    }

    /// `8xy5`: `Vx = Vx - Vy`, wrapping; then the flag is 0 on a borrow, else 1.
    pub fn sub_xy(&mut self, x: u8, y: u8)
        requires
            x < REGISTER_COUNT,
            y < REGISTER_COUNT,
        ensures
            final(self)@ == sub_xy_result(old(self)@, x, y),
    {
        let a = self.registers[x as usize];
        let b = self.registers[y as usize];
        let v = a.wrapping_sub(b);
        let borrow = a < b;
        self.registers[x as usize] = v;
        self.registers[FLAG] = if borrow { 0 } else { 1 };
    }

    /// `8xy7`: `Vx = Vy - Vx`, wrapping; then the flag is 0 on a borrow, else 1.
    pub fn sub_yx(&mut self, x: u8, y: u8)
        requires
            x < REGISTER_COUNT,
            y < REGISTER_COUNT,
        ensures
            final(self)@ == sub_yx_result(old(self)@, x, y),
    {
        let a = self.registers[x as usize];
        let b = self.registers[y as usize];
        let v = b.wrapping_sub(a);
        let borrow = b < a;
        self.registers[x as usize] = v;
        self.registers[FLAG] = if borrow { 0 } else { 1 };
    }

    /// `8xy6`: `Vx = Vx >> 1`; then the flag is the bit shifted out.
    pub fn shift_right(&mut self, x: u8)
        requires
            x < REGISTER_COUNT,
        ensures
            final(self)@ == shift_right_result(old(self)@, x),
    {
        let a = self.registers[x as usize];
        let out: u8 = a & 1;
        self.registers[x as usize] = a >> 1;
        self.registers[FLAG] = out;
        assert(a & 1 == a % 2 && a >> 1 == a / 2) by (bit_vector);
    }

    /// `8xyE`: `Vx = Vx << 1`, truncated; then the flag is the bit shifted out.
    pub fn shift_left(&mut self, x: u8)
        requires
            x < REGISTER_COUNT,
        ensures
            final(self)@ == shift_left_result(old(self)@, x),
    {
        let a = self.registers[x as usize];
        let out: u8 = a >> 7;
        self.registers[x as usize] = a << 1;
        self.registers[FLAG] = out;
        assert(a >> 7 == a / 128 && a << 1 == (a * 2) % 256) by (bit_vector);
    }
}

} // verus!
