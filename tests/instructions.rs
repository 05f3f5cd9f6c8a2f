use chip8::decode::{decode, split, Instruction};
use chip8::display::Framebuffer;
use chip8::execute::{Flow, Policy};
use chip8::keypad::Keypad;
use chip8::machine::{Fault, CPU, FLAG, PROGRAM_START};
use chip8::timer::DelayTimer;

fn machine(program: &[u8]) -> CPU {
    CPU::new(program).expect("program fits")
}

struct Rig {
    screen: Framebuffer,
    keys: Keypad,
    timer: DelayTimer,
}

fn rig() -> Rig {
    Rig { screen: Framebuffer::new(), keys: Keypad::new(), timer: DelayTimer::new() }
}

fn run(cpu: &mut CPU, rig: &mut Rig, steps: usize) -> Result<Flow, Fault> {
    let mut last = Ok(Flow::Continue);
    for _ in 0..steps {
        last = cpu.step(&mut rig.screen, &rig.keys, &mut rig.timer, Policy::Strict);
        if last.is_err() {
            break;
        }
    }
    last
}

#[test]
fn split_gives_every_field() {
    let f = split(0xD1A5);
    assert_eq!((f.category, f.x, f.y, f.d), (0xD, 0x1, 0xA, 0x5));
    assert_eq!(f.nnn, 0x1A5);
    assert_eq!(f.kk, 0xA5);
}

#[test]
fn decode_covers_the_table() {
    assert_eq!(decode(0x0000), Instruction::Halt);
    assert_eq!(decode(0x00E0), Instruction::Clear);
    assert_eq!(decode(0x00EE), Instruction::Return);
    assert_eq!(decode(0x1234), Instruction::Jump { nnn: 0x234 });
    assert_eq!(decode(0x8AB4), Instruction::AddRegisters { x: 0xA, y: 0xB });
    assert_eq!(decode(0x8AB7), Instruction::SubReversed { x: 0xA, y: 0xB });
    assert_eq!(decode(0x8A0E), Instruction::ShiftLeft { x: 0xA });
    assert_eq!(decode(0xD125), Instruction::Draw { x: 1, y: 2, n: 5 });
    assert_eq!(decode(0xE39E), Instruction::SkipIfKey { x: 3 });
    assert_eq!(decode(0xF307), Instruction::ReadTimer { x: 3 });
    assert_eq!(decode(0xF315), Instruction::SetTimer { x: 3 });
    assert_eq!(decode(0xF333), Instruction::Decimal { x: 3 });
    assert_eq!(decode(0x5121), Instruction::Unknown { word: 0x5121 });
    assert_eq!(decode(0x00E1), Instruction::Unknown { word: 0x00E1 });
}

#[test]
fn load_places_font_and_program() {
    let cpu = machine(&[0x12, 0x34]);
    assert_eq!(cpu.program_counter, PROGRAM_START);
    assert_eq!(&cpu.memory[0..5], &[0xF0, 0x90, 0x90, 0x90, 0xF0]);
    assert_eq!(&cpu.memory[75..80], &[0xF0, 0x80, 0xF0, 0x80, 0x80]);
    assert_eq!(cpu.memory[0x200], 0x12);
    assert_eq!(cpu.memory[0x201], 0x34);
    assert_eq!(cpu.memory[0x202], 0);
    assert_eq!(cpu.read_opcode(), 0x1234);
}

#[test]
fn load_refuses_an_oversized_program() {
    assert!(CPU::new(&vec![0u8; 0x1000 - 0x200]).is_some());
    assert!(CPU::new(&vec![0u8; 0x1000 - 0x200 + 1]).is_none());
}

#[test]
fn set_then_add_literal_scenario() {
    let mut cpu = machine(&[0x60, 0x05, 0x70, 0x03, 0x60, 0x14]);
    cpu.registers[FLAG] = 0x77;
    let mut r = rig();
    assert_eq!(run(&mut cpu, &mut r, 2), Ok(Flow::Continue));
    assert_eq!(cpu.registers[0], 8);
    assert_eq!(cpu.registers[FLAG], 0x77);
    assert_eq!(cpu.program_counter, PROGRAM_START + 4);
    assert_eq!(run(&mut cpu, &mut r, 1), Ok(Flow::Continue));
    assert_eq!(cpu.registers[0], 0x14);
    assert_eq!(cpu.program_counter, PROGRAM_START + 6);
}

#[test]
fn add_literal_wraps_without_flag() {
    let mut cpu = machine(&[]);
    cpu.registers[2] = 250;
    cpu.registers[FLAG] = 9;
    cpu.add(2, 10);
    assert_eq!(cpu.registers[2], 4);
    assert_eq!(cpu.registers[FLAG], 9);
}

#[test]
fn add_registers_sets_carry() {
    let mut cpu = machine(&[]);
    cpu.registers[1] = 200;
    cpu.registers[2] = 100;
    cpu.add_xy(1, 2);
    assert_eq!(cpu.registers[1], 44);
    assert_eq!(cpu.registers[FLAG], 1);
    cpu.registers[1] = 200;
    cpu.registers[2] = 55;
    cpu.add_xy(1, 2);
    assert_eq!(cpu.registers[1], 255);
    assert_eq!(cpu.registers[FLAG], 0);
}

#[test]
fn subtract_flags_borrow_with_zero() {
    let mut cpu = machine(&[]);
    cpu.registers[1] = 5;
    cpu.registers[2] = 7;
    cpu.sub_xy(1, 2);
    assert_eq!(cpu.registers[1], 254);
    assert_eq!(cpu.registers[FLAG], 0);
    cpu.registers[1] = 7;
    cpu.registers[2] = 7;
    cpu.sub_xy(1, 2);
    assert_eq!(cpu.registers[1], 0);
    assert_eq!(cpu.registers[FLAG], 1);
    cpu.registers[1] = 5;
    cpu.registers[2] = 7;
    cpu.sub_yx(1, 2);
    assert_eq!(cpu.registers[1], 2);
    assert_eq!(cpu.registers[FLAG], 1);
    cpu.registers[1] = 9;
    cpu.registers[2] = 7;
    cpu.sub_yx(1, 2);
    assert_eq!(cpu.registers[1], 254);
    assert_eq!(cpu.registers[FLAG], 0);
}

#[test]
fn shifts_take_the_evicted_bit() {
    let mut cpu = machine(&[]);
    cpu.registers[3] = 0b1000_0011;
    cpu.shift_left(3);
    assert_eq!(cpu.registers[3], 0b0000_0110);
    assert_eq!(cpu.registers[FLAG], 1);
    cpu.shift_left(3);
    assert_eq!(cpu.registers[3], 0b0000_1100);
    assert_eq!(cpu.registers[FLAG], 0);
    cpu.registers[3] = 0b0000_0011;
    cpu.shift_right(3);
    assert_eq!(cpu.registers[3], 0b0000_0001);
    assert_eq!(cpu.registers[FLAG], 1);
    cpu.registers[3] = 0b1000_0010;
    cpu.shift_right(3);
    assert_eq!(cpu.registers[3], 0b0100_0001);
    assert_eq!(cpu.registers[FLAG], 0);
}

#[test]
fn bitwise_and_copy() {
    let mut cpu = machine(&[]);
    cpu.registers[0] = 0b1100;
    cpu.registers[1] = 0b1010;
    cpu.bitwise_or(0, 1);
    assert_eq!(cpu.registers[0], 0b1110);
    cpu.bitwise_and(0, 1);
    assert_eq!(cpu.registers[0], 0b1010);
    cpu.bitwise_xor(0, 1);
    assert_eq!(cpu.registers[0], 0);
    cpu.set_xy(0, 1);
    assert_eq!(cpu.registers[0], 0b1010);
    cpu.set(4, 0x42);
    assert_eq!(cpu.registers[4], 0x42);
}

#[test]
fn skips_advance_by_one_instruction() {
    let mut cpu = machine(&[]);
    cpu.registers[1] = 3;
    cpu.registers[2] = 3;
    cpu.skip_x_equal(1, 3);
    assert_eq!(cpu.program_counter, 0x202);
    cpu.skip_x_nequal(1, 3);
    assert_eq!(cpu.program_counter, 0x202);
    cpu.skip_equal(1, 2);
    assert_eq!(cpu.program_counter, 0x204);
    cpu.skip_nequal(1, 2);
    assert_eq!(cpu.program_counter, 0x204);
    cpu.registers[2] = 4;
    cpu.skip_nequal(1, 2);
    assert_eq!(cpu.program_counter, 0x206);
}

#[test]
fn jumps() {
    let mut cpu = machine(&[]);
    cpu.jump(0x345);
    assert_eq!(cpu.program_counter, 0x345);
    cpu.registers[0] = 0x10;
    cpu.jump_offset(0x300);
    assert_eq!(cpu.program_counter, 0x310);
}

#[test]
fn calls_return_in_reverse_order() {
    let mut cpu = machine(&[]);
    let mut expected = Vec::new();
    for i in 0..16u16 {
        expected.push(cpu.program_counter);
        assert_eq!(cpu.call(0x300 + 2 * i), Ok(()));
        assert_eq!(cpu.program_counter, (0x300 + 2 * i) as usize);
    }
    assert_eq!(cpu.stack_pointer, 16);
    while let Some(back) = expected.pop() {
        assert_eq!(cpu.ret(), Ok(()));
        assert_eq!(cpu.program_counter, back);
    }
    assert_eq!(cpu.program_counter, PROGRAM_START);
    assert_eq!(cpu.stack_pointer, 0);
}

#[test]
fn seventeenth_call_overflows() {
    let mut cpu = machine(&[]);
    for _ in 0..16 {
        assert_eq!(cpu.call(0x300), Ok(()));
    }
    assert_eq!(cpu.call(0x300), Err(Fault::StackOverflow));
    assert_eq!(cpu.stack_pointer, 16);
}

#[test]
fn return_on_empty_stack_underflows() {
    let mut cpu = machine(&[]);
    assert_eq!(cpu.ret(), Err(Fault::StackUnderflow));
    assert_eq!(cpu.program_counter, PROGRAM_START);
}

#[test]
fn call_and_return_through_step() {
    // 0x200: call 0x206; 0x202: set V1 = 1; 0x204: halt; 0x206: set V2 = 2; return.
    let mut cpu = machine(&[0x22, 0x06, 0x61, 0x01, 0x00, 0x00, 0x62, 0x02, 0x00, 0xEE]);
    let mut r = rig();
    assert_eq!(run(&mut cpu, &mut r, 1), Ok(Flow::Continue));
    assert_eq!(cpu.program_counter, 0x206);
    assert_eq!(cpu.stack[0], 0x202);
    assert_eq!(run(&mut cpu, &mut r, 3), Ok(Flow::Continue));
    assert_eq!(cpu.program_counter, 0x204);
    assert_eq!((cpu.registers[1], cpu.registers[2]), (1, 2));
    assert_eq!(run(&mut cpu, &mut r, 1), Ok(Flow::Halt));
}

#[test]
fn index_operations() {
    let mut cpu = machine(&[]);
    cpu.set_index(0x123);
    assert_eq!(cpu.index_register, 0x123);
    cpu.registers[5] = 0x0E;
    cpu.font(5);
    assert_eq!(cpu.index_register, 70);
    cpu.registers[5] = 0xF3;
    cpu.font(5);
    assert_eq!(cpu.index_register, 15);
    cpu.index_register = 0xFFFF;
    cpu.registers[6] = 2;
    cpu.add_to_index(6);
    assert_eq!(cpu.index_register, 1);
    assert_eq!(cpu.registers[FLAG], 1);
    cpu.add_to_index(6);
    assert_eq!(cpu.index_register, 3);
    assert_eq!(cpu.registers[FLAG], 0);
}

#[test]
fn decimal_digits_and_bulk_memory() {
    let mut cpu = machine(&[]);
    cpu.index_register = 0x300;
    cpu.registers[7] = 254;
    cpu.decimal(7);
    assert_eq!(&cpu.memory[0x300..0x303], &[2, 5, 4]);
    cpu.registers[7] = 7;
    cpu.decimal(7);
    assert_eq!(&cpu.memory[0x300..0x303], &[0, 0, 7]);
    for i in 0..16 {
        cpu.registers[i] = i as u8 + 100;
    }
    cpu.index_register = 0x400;
    cpu.store_memory(3);
    assert_eq!(&cpu.memory[0x400..0x405], &[100, 101, 102, 103, 0]);
    cpu.memory[0x500] = 9;
    cpu.memory[0x501] = 8;
    cpu.index_register = 0x500;
    cpu.load_memory(1);
    assert_eq!(&cpu.registers[0..3], &[9, 8, 102]);
    assert_eq!(cpu.index_register, 0x500);
}

#[test]
fn memory_past_the_end_is_a_fault() {
    // I = 0xFFF; store V0..V1.
    let mut cpu = machine(&[0xAF, 0xFF, 0xF1, 0x55]);
    let mut r = rig();
    assert_eq!(run(&mut cpu, &mut r, 2), Err(Fault::AddressOutOfRange));
    assert_eq!(cpu.program_counter, 0x202);
    // I = 0xFFE; draw two rows is fine, three is not.
    let mut cpu = machine(&[0xAF, 0xFE, 0xD0, 0x02, 0xD0, 0x03]);
    assert_eq!(run(&mut cpu, &mut r, 2), Ok(Flow::Redraw));
    assert_eq!(run(&mut cpu, &mut r, 1), Err(Fault::AddressOutOfRange));
    // I = 0xFFE; three decimal digits do not fit.
    let mut cpu = machine(&[0xAF, 0xFE, 0xF0, 0x33]);
    assert_eq!(run(&mut cpu, &mut r, 2), Err(Fault::AddressOutOfRange));
}

#[test]
fn program_counter_past_memory_is_a_fault() {
    let mut cpu = machine(&[0x1F, 0xFF]);
    let mut r = rig();
    assert_eq!(run(&mut cpu, &mut r, 1), Ok(Flow::Continue));
    assert_eq!(cpu.program_counter, 0xFFF);
    assert_eq!(run(&mut cpu, &mut r, 1), Err(Fault::ProgramCounterOutOfRange));
    assert_eq!(cpu.program_counter, 0xFFF);
}

#[test]
fn unknown_instruction_follows_the_policy() {
    let mut cpu = machine(&[0x51, 0x21]);
    let mut r = rig();
    let strict = cpu.step(&mut r.screen, &r.keys, &mut r.timer, Policy::Strict);
    assert_eq!(strict, Err(Fault::UnknownInstruction { word: 0x5121 }));
    assert_eq!(cpu.program_counter, PROGRAM_START);
    let lenient = cpu.step(&mut r.screen, &r.keys, &mut r.timer, Policy::Lenient);
    assert_eq!(lenient, Ok(Flow::Continue));
    assert_eq!(cpu.program_counter, PROGRAM_START + 2);
}

#[test]
fn halt_stops() {
    let mut cpu = machine(&[0x00, 0x00]);
    let mut r = rig();
    assert_eq!(run(&mut cpu, &mut r, 1), Ok(Flow::Halt));
}

#[test]
fn random_is_masked() {
    // V0 = rand & 0x00, then V1 = rand & 0x0F, many times.
    let mut cpu = machine(&[0x60, 0xFF, 0xC0, 0x00]);
    let mut r = rig();
    assert_eq!(run(&mut cpu, &mut r, 2), Ok(Flow::Continue));
    assert_eq!(cpu.registers[0], 0);
    let mut seen = [false; 16];
    for _ in 0..400 {
        let mut cpu = machine(&[0xC1, 0x0F]);
        assert_eq!(run(&mut cpu, &mut r, 1), Ok(Flow::Continue));
        assert!(cpu.registers[1] <= 0x0F);
        seen[cpu.registers[1] as usize] = true;
    }
    assert!(seen.iter().filter(|s| **s).count() > 1);
    cpu.random(2, 0xF0, 0xAB);
    assert_eq!(cpu.registers[2], 0xA0);
}
