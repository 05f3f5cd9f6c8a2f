use chip8::display::Framebuffer;
use chip8::execute::{Flow, Policy};
use chip8::keypad::{logical_key, Keypad};
use chip8::machine::{CPU, FLAG};
use chip8::timer::DelayTimer;

fn lit(screen: &Framebuffer) -> Vec<(usize, usize)> {
    let mut on = Vec::new();
    for y in 0..32 {
        for x in 0..64 {
            if screen.get_pixel(x, y) {
                on.push((x, y));
            }
        }
    }
    on
}

#[test]
fn draw_xors_and_reports_collision() {
    let mut screen = Framebuffer::new();
    assert!(!screen.draw(10, 5, &[0b1010_0000]));
    assert_eq!(lit(&screen), vec![(10, 5), (12, 5)]);
    assert!(screen.draw(11, 5, &[0b1100_0000]));
    assert_eq!(lit(&screen), vec![(10, 5), (11, 5)]);
}

#[test]
fn draw_clips_at_the_edges() {
    let mut screen = Framebuffer::new();
    assert!(!screen.draw(62, 31, &[0xFF, 0xFF]));
    assert_eq!(lit(&screen), vec![(62, 31), (63, 31)]);
    assert!(!screen.draw(64, 0, &[0xFF]));
    assert!(!screen.draw(0, 40, &[0xFF]));
    assert_eq!(lit(&screen).len(), 2);
}

#[test]
fn drawing_twice_restores_the_display() {
    let mut screen = Framebuffer::new();
    screen.set_pixel(2, 1, true);
    screen.set_pixel(40, 20, true);
    let before = lit(&screen);
    let sprite = [0xF0, 0x90, 0x90, 0x90, 0xF0];
    let first = screen.draw(2, 1, &sprite);
    assert!(first);
    let second = screen.draw(2, 1, &sprite);
    assert!(second);
    assert_eq!(lit(&screen), before);
    let mut blank = Framebuffer::new();
    assert!(!blank.draw(0, 0, &[0x00]));
    assert!(!blank.draw(0, 0, &[0x00]));
}

#[test]
fn draw_instruction_twice_on_the_machine() {
    // I = glyph of 0; draw it at (V0, V1) twice; halt.
    let mut cpu = CPU::new(&[0x60, 0x08, 0x61, 0x04, 0xA0, 0x00, 0xD0, 0x15, 0xD0, 0x15]).unwrap();
    let mut screen = Framebuffer::new();
    let keys = Keypad::new();
    let mut timer = DelayTimer::new();
    for _ in 0..3 {
        assert_eq!(cpu.step(&mut screen, &keys, &mut timer, Policy::Strict), Ok(Flow::Continue));
    }
    assert_eq!(cpu.step(&mut screen, &keys, &mut timer, Policy::Strict), Ok(Flow::Redraw));
    assert_eq!(cpu.registers[FLAG], 0);
    assert_eq!(lit(&screen).len(), 14);
    assert!(screen.get_pixel(8, 4));
    assert!(!screen.get_pixel(9, 5));
    assert_eq!(cpu.step(&mut screen, &keys, &mut timer, Policy::Strict), Ok(Flow::Redraw));
    assert_eq!(cpu.registers[FLAG], 1);
    assert!(lit(&screen).is_empty());
}

#[test]
fn clear_turns_everything_off() {
    let mut cpu = CPU::new(&[0x00, 0xE0]).unwrap();
    let mut screen = Framebuffer::new();
    screen.set_pixel(0, 0, true);
    screen.set_pixel(63, 31, true);
    let mut timer = DelayTimer::new();
    let r = cpu.step(&mut screen, &Keypad::new(), &mut timer, Policy::Strict);
    assert_eq!(r, Ok(Flow::Redraw));
    assert!(lit(&screen).is_empty());
}

#[test]
fn host_keys_map_to_the_block() {
    let hosts = "1234QWERASDFZXCV";
    let codes = [0x1, 0x2, 0x3, 0xC, 0x4, 0x5, 0x6, 0xD, 0x7, 0x8, 0x9, 0xE, 0xA, 0x0, 0xB, 0xF];
    for (h, c) in hosts.chars().zip(codes) {
        assert_eq!(logical_key(h), Some(c));
    }
    assert_eq!(logical_key('P'), None);
    assert_eq!(logical_key('q'), None);
}

#[test]
fn lowest_held_key_wins() {
    let mut keys = Keypad::new();
    assert_eq!(keys.get_depressed_key(), None);
    keys.set_key(0xB, true);
    keys.set_key(0x4, true);
    assert_eq!(keys.get_depressed_key(), Some(0x4));
    keys.set_key(0x4, false);
    assert!(!keys.is_key_held(0x4));
    assert_eq!(keys.get_depressed_key(), Some(0xB));
}

#[test]
fn key_skips_use_the_low_nibble() {
    let mut cpu = CPU::new(&[]).unwrap();
    let mut keys = Keypad::new();
    keys.set_key(0x5, true);
    cpu.registers[2] = 0x35;
    cpu.skip_key_pressed(2, &keys);
    assert_eq!(cpu.program_counter, 0x202);
    cpu.skip_key_npressed(2, &keys);
    assert_eq!(cpu.program_counter, 0x202);
    cpu.registers[2] = 0x06;
    cpu.skip_key_pressed(2, &keys);
    assert_eq!(cpu.program_counter, 0x202);
    cpu.skip_key_npressed(2, &keys);
    assert_eq!(cpu.program_counter, 0x204);
}

#[test]
fn wait_for_key_repeats_until_one_is_held() {
    let mut cpu = CPU::new(&[0xF3, 0x0A, 0x00, 0x00]).unwrap();
    let mut screen = Framebuffer::new();
    let mut timer = DelayTimer::new();
    let mut keys = Keypad::new();
    for _ in 0..3 {
        let r = cpu.step(&mut screen, &keys, &mut timer, Policy::Strict);
        assert_eq!(r, Ok(Flow::WaitingForKey));
        assert_eq!(cpu.program_counter, 0x200);
    }
    keys.set_key(0xE, true);
    assert_eq!(cpu.step(&mut screen, &keys, &mut timer, Policy::Strict), Ok(Flow::Continue));
    assert_eq!(cpu.registers[3], 0xE);
    assert_eq!(cpu.program_counter, 0x202);
}

#[test]
fn timer_counts_down_to_zero() {
    let mut timer = DelayTimer::new();
    assert_eq!(timer.read(), 0);
    timer.set(5);
    for k in 1..5u8 {
        timer.tick();
        assert_eq!(timer.read(), 5 - k);
        assert!(timer.read() < 5);
    }
    timer.tick();
    assert_eq!(timer.read(), 0);
    timer.tick();
    assert_eq!(timer.read(), 0);
}

#[test]
fn timer_instructions() {
    // V4 = 60; delay = V4; tick twice outside; V5 = delay.
    let mut cpu = CPU::new(&[0x64, 0x3C, 0xF4, 0x15, 0xF5, 0x07]).unwrap();
    let mut screen = Framebuffer::new();
    let keys = Keypad::new();
    let mut timer = DelayTimer::new();
    cpu.step(&mut screen, &keys, &mut timer, Policy::Strict).unwrap();
    cpu.step(&mut screen, &keys, &mut timer, Policy::Strict).unwrap();
    assert_eq!(timer.read(), 60);
    timer.tick();
    timer.tick();
    cpu.step(&mut screen, &keys, &mut timer, Policy::Strict).unwrap();
    assert_eq!(cpu.registers[5], 58);
    cpu.set_timer(4, &mut timer);
    assert_eq!(timer.read(), 60);
    cpu.read_timer(6, &timer);
    assert_eq!(cpu.registers[6], 60);
}
