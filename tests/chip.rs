use chip8::{Chip8, Config, CycleState, Fault, FaultKind, LoadError, Rom};

fn config_at(offset: u16) -> Config {
    Config {
        rom_path: String::new(),
        cpu_hertz: 700,
        delay_timer_hertz: 60,
        sound_timer_hertz: 60,
        rom_offset: offset,
    }
}

fn machine(program: &[u8]) -> Chip8 {
    let rom = Rom::from_bytes(program).unwrap();
    Chip8::new(rom, &config_at(512)).unwrap()
}

fn words(program: &[u16]) -> Vec<u8> {
    let mut bytes = Vec::new();
    for w in program {
        bytes.push((w >> 8) as u8);
        bytes.push((w & 0xFF) as u8);
    }
    bytes
}

fn run(c: &mut Chip8, steps: usize) {
    for _ in 0..steps {
        assert_eq!(c.step(None, 0), Ok(CycleState::Running));
    }
}

#[test]
fn clear_program_runs_one_cycle() {
    let mut c = machine(&[0x00, 0xE0]);
    assert_eq!(c.run_cycle(None, 0), Ok(CycleState::Running));
    assert_eq!(c.display, [0u64; 32]);
    assert_eq!(c.pc(), 514);
    assert_eq!(c.run_cycle(None, 0), Ok(CycleState::Halted));
    assert_eq!(c.pc(), 514);
}

#[test]
fn new_machine_state() {
    let c = machine(&[0x12, 0x34, 0x56]);
    assert_eq!(c.pc(), 512);
    assert_eq!(c.index(), 0);
    assert_eq!(c.stack_depth(), 0);
    for r in 0..16 {
        assert_eq!(c.register(r), 0);
    }
    assert_eq!(c.memory_at(0), 0xF0);
    assert_eq!(c.memory_at(5), 0x20);
    assert_eq!(c.memory_at(79), 0x80);
    assert_eq!(c.memory_at(80), 0);
    assert_eq!(c.memory_at(512), 0x12);
    assert_eq!(c.memory_at(514), 0x56);
    assert_eq!(c.memory_at(515), 0);
    assert_eq!(c.memory_at(4095), 0);
    assert_eq!(c.delay_timer(), 0);
    assert_eq!(c.sound_timer(), 0);
}

#[test]
fn load_errors() {
    let empty = Rom::from_bytes(&[]).unwrap();
    assert!(matches!(Chip8::new(empty, &config_at(512)), Err(LoadError::EmptyRom)));
    let low = Rom::from_bytes(&[0x00, 0xE0]).unwrap();
    assert!(matches!(Chip8::new(low, &config_at(0x100)), Err(LoadError::OffsetBelowProgramArea)));
    let big = Rom::from_bytes(&[1u8; 0x200]).unwrap();
    assert!(matches!(Chip8::new(big, &config_at(0xF00)), Err(LoadError::RomTooLarge)));
    let far = Rom::from_bytes(&[1u8]).unwrap();
    assert!(matches!(Chip8::new(far, &config_at(0xFFFF)), Err(LoadError::RomTooLarge)));
    assert!(matches!(Rom::from_bytes(&[0u8; 3585]), Err(LoadError::RomTooLarge)));
}

#[test]
fn largest_rom_fills_memory() {
    let rom = Rom::from_bytes(&[7u8; 3584]).unwrap();
    assert_eq!(rom.length, 3584);
    let c = Chip8::new(rom, &config_at(512)).unwrap();
    assert_eq!(c.memory_at(511), 0);
    assert_eq!(c.memory_at(512), 7);
    assert_eq!(c.memory_at(4095), 7);
}

#[test]
fn add_with_carry_sets_flag_on_overflow() {
    for a in (0u16..=255).step_by(3) {
        for b in (0u16..=255).step_by(7) {
            let mut c = machine(&words(&[0x6A00 | a, 0x6B00 | b, 0x8AB4]));
            run(&mut c, 3);
            assert_eq!(c.register(0xA) as u16, (a + b) % 256);
            assert_eq!(c.register(0xF), if a + b > 255 { 1 } else { 0 });
            assert_eq!(c.register(0xB) as u16, b);
        }
    }
}

#[test]
fn sub_with_borrow_sets_flag_without_borrow() {
    for a in (0i16..=255).step_by(5) {
        for b in (0i16..=255).step_by(3) {
            let mut c = machine(&words(&[0x6A00 | a as u16, 0x6B00 | b as u16, 0x8AB5]));
            run(&mut c, 3);
            assert_eq!(c.register(0xA) as i16, (a - b).rem_euclid(256));
            assert_eq!(c.register(0xF), if a >= b { 1 } else { 0 });
        }
    }
}

#[test]
fn sub_reversed_sets_flag_without_borrow() {
    let mut c = machine(&words(&[0x6A05, 0x6B03, 0x8AB7]));
    run(&mut c, 3);
    assert_eq!(c.register(0xA), 254);
    assert_eq!(c.register(0xF), 0);
    let mut c = machine(&words(&[0x6A03, 0x6B05, 0x8AB7]));
    run(&mut c, 3);
    assert_eq!(c.register(0xA), 2);
    assert_eq!(c.register(0xF), 1);
}

#[test]
fn shift_right_then_left() {
    for v in 0u16..=255 {
        let mut c = machine(&words(&[0x6A00 | v, 0x8A06]));
        run(&mut c, 2);
        assert_eq!(c.register(0xA) as u16, v / 2);
        assert_eq!(c.register(0xF) as u16, v % 2);
        let mut c = machine(&words(&[0x6A00 | v, 0x8A06, 0x8A0E]));
        run(&mut c, 3);
        assert_eq!(c.register(0xA) as u16, v - v % 2);
        if v % 2 == 0 {
            assert_eq!(c.register(0xF), 0);
        }
    }
}

#[test]
fn shift_left_flag_is_top_bit() {
    let mut c = machine(&words(&[0x6A81, 0x8A0E]));
    run(&mut c, 2);
    assert_eq!(c.register(0xA), 0x02);
    assert_eq!(c.register(0xF), 1);
}

#[test]
fn bitwise_operations() {
    let mut c = machine(&words(&[0x6A3C, 0x6B0F, 0x8AB1, 0x6C3C, 0x8CB2, 0x6D3C, 0x8DB3, 0x8EB0]));
    run(&mut c, 8);
    assert_eq!(c.register(0xA), 0x3F);
    assert_eq!(c.register(0xC), 0x0C);
    assert_eq!(c.register(0xD), 0x33);
    assert_eq!(c.register(0xE), 0x0F);
}

#[test]
fn flag_register_as_target_keeps_result() {
    let mut c = machine(&words(&[0x6FF0, 0x6110, 0x8F14]));
    run(&mut c, 3);
    assert_eq!(c.register(0xF), 0x00);
}

#[test]
fn add_immediate_wraps_without_flag() {
    let mut c = machine(&words(&[0x6AFF, 0x6F07, 0x7A02]));
    run(&mut c, 3);
    assert_eq!(c.register(0xA), 0x01);
    assert_eq!(c.register(0xF), 0x07);
}

#[test]
fn call_then_return_resumes_after_call() {
    let mut c = machine(&words(&[0x2204, 0x6A01, 0x00EE]));
    run(&mut c, 1);
    assert_eq!(c.pc(), 0x204);
    assert_eq!(c.stack_depth(), 1);
    run(&mut c, 1);
    assert_eq!(c.pc(), 0x202);
    assert_eq!(c.stack_depth(), 0);
}

/// Subroutine `k` stands at `0x200 + 4k`: it calls subroutine `k + 1`, then
/// returns. The last one only returns.
fn call_chain(depth: u16) -> Vec<u8> {
    let mut program = Vec::new();
    for k in 0..depth {
        program.push(0x2000 | (0x200 + 4 * (k + 1)));
        program.push(0x00EE);
    }
    program.push(0x00EE);
    words(&program)
}

#[test]
fn sixteen_nested_calls_return_in_order() {
    let mut c = machine(&call_chain(16));
    run(&mut c, 16);
    assert_eq!(c.stack_depth(), 16);
    assert_eq!(c.pc(), 0x200 + 4 * 16);
    for k in (0..16).rev() {
        run(&mut c, 1);
        assert_eq!(c.pc(), 0x200 + 4 * k + 2);
        assert_eq!(c.stack_depth(), k);
    }
    let fault = Fault { kind: FaultKind::EmptyStack, pc: 0x202, opcode: 0x00EE };
    assert_eq!(c.step(None, 0), Err(fault));
    assert_eq!(c.pc(), 0x202);
}

#[test]
fn seventeenth_nested_call_overflows() {
    let mut c = machine(&call_chain(17));
    run(&mut c, 16);
    let fault = Fault { kind: FaultKind::StackOverflow, pc: 0x240, opcode: 0x2244 };
    assert_eq!(c.step(None, 0), Err(fault));
    assert_eq!(c.pc(), 0x240);
    assert_eq!(c.stack_depth(), 16);
}

#[test]
fn return_with_empty_stack_faults() {
    let mut c = machine(&words(&[0x00EE]));
    let fault = Fault { kind: FaultKind::EmptyStack, pc: 0x200, opcode: 0x00EE };
    assert_eq!(c.run_cycle(None, 0), Err(fault));
}

#[test]
fn wait_for_key_blocks_until_key() {
    let mut c = machine(&words(&[0xF30A, 0x00E0]));
    for _ in 0..5 {
        assert_eq!(c.step(None, 0), Ok(CycleState::WaitingForKey));
        assert_eq!(c.pc(), 0x200);
    }
    assert_eq!(c.step(Some(7), 0), Ok(CycleState::Running));
    assert_eq!(c.register(3), 7);
    assert_eq!(c.pc(), 0x202);
}

#[test]
fn skips_on_register_comparisons() {
    let mut c = machine(&words(&[0x6A05, 0x3A05, 0x6B01, 0x4A05, 0x6C02, 0x5AD0, 0x6D03, 0x9AD0, 0x6E04]));
    run(&mut c, 7);
    assert_eq!(c.register(0xB), 0);
    assert_eq!(c.register(0xC), 2);
    assert_eq!(c.register(0xD), 3);
    assert_eq!(c.register(0xE), 0);
    assert_eq!(c.pc(), 0x212);
}

#[test]
fn skips_on_keys() {
    let program = words(&[0x6307, 0xE39E]);
    let mut c = machine(&program);
    run(&mut c, 1);
    c.step(Some(7), 0).unwrap();
    assert_eq!(c.pc(), 0x206);
    let mut c = machine(&program);
    run(&mut c, 1);
    c.step(None, 0).unwrap();
    assert_eq!(c.pc(), 0x204);
    let mut c = machine(&program);
    run(&mut c, 1);
    c.step(Some(8), 0).unwrap();
    assert_eq!(c.pc(), 0x204);

    let program = words(&[0x6307, 0xE3A1]);
    let mut c = machine(&program);
    run(&mut c, 1);
    c.step(Some(8), 0).unwrap();
    assert_eq!(c.pc(), 0x206);
    let mut c = machine(&program);
    run(&mut c, 1);
    c.step(Some(7), 0).unwrap();
    assert_eq!(c.pc(), 0x204);
    let mut c = machine(&program);
    run(&mut c, 1);
    c.step(None, 0).unwrap();
    assert_eq!(c.pc(), 0x204);
}

#[test]
fn jumps() {
    let mut c = machine(&words(&[0x1234]));
    run(&mut c, 1);
    assert_eq!(c.pc(), 0x234);
    let mut c = machine(&words(&[0x6002, 0xB300]));
    run(&mut c, 2);
    assert_eq!(c.pc(), 0x302);
}

#[test]
fn halts_past_end_of_memory() {
    let mut c = machine(&words(&[0x60FF, 0xBFFF]));
    run(&mut c, 2);
    assert_eq!(c.pc(), 0xFFF + 0xFF);
    assert_eq!(c.step(None, 0), Ok(CycleState::Halted));
    let mut c = machine(&words(&[0x1FFF]));
    run(&mut c, 1);
    assert_eq!(c.step(None, 0), Ok(CycleState::Halted));
    assert_eq!(c.pc(), 0xFFF);
}

#[test]
fn unknown_instruction_faults() {
    let mut c = machine(&words(&[0x6A01, 0x0123]));
    run(&mut c, 1);
    let fault = Fault { kind: FaultKind::UnknownInstruction, pc: 0x202, opcode: 0x0123 };
    assert_eq!(c.step(None, 0), Err(fault));
    assert_eq!(c.pc(), 0x202);
}

#[test]
fn index_register_operations() {
    let mut c = machine(&words(&[0xA123, 0x6A10, 0xFA1E]));
    run(&mut c, 3);
    assert_eq!(c.index(), 0x133);
    let mut c = machine(&words(&[0x6A0B, 0xFA29]));
    run(&mut c, 2);
    assert_eq!(c.index(), 55);
}

#[test]
fn store_bcd_digits() {
    let mut c = machine(&words(&[0x6A9C, 0xA300, 0xFA33]));
    run(&mut c, 3);
    assert_eq!(c.memory_at(0x300), 1);
    assert_eq!(c.memory_at(0x301), 5);
    assert_eq!(c.memory_at(0x302), 6);
}

#[test]
fn store_and_load_registers() {
    let mut c = machine(&words(&[
        0x6011, 0x6122, 0x6233, 0x6344, 0xA400, 0xF255, 0x6000, 0x6100, 0x6200, 0x6300, 0xF265,
    ]));
    run(&mut c, 11);
    assert_eq!(c.memory_at(0x400), 0x11);
    assert_eq!(c.memory_at(0x401), 0x22);
    assert_eq!(c.memory_at(0x402), 0x33);
    assert_eq!(c.memory_at(0x403), 0);
    assert_eq!(c.register(0), 0x11);
    assert_eq!(c.register(1), 0x22);
    assert_eq!(c.register(2), 0x33);
    assert_eq!(c.register(3), 0);
    assert_eq!(c.index(), 0x400);
}

#[test]
fn memory_access_past_end_faults() {
    let mut c = machine(&words(&[0xAFFF, 0xF155]));
    run(&mut c, 1);
    let fault = Fault { kind: FaultKind::MemoryOutOfBounds, pc: 0x202, opcode: 0xF155 };
    assert_eq!(c.step(None, 0), Err(fault));
    assert_eq!(c.memory_at(0xFFF), 0);
    let mut c = machine(&words(&[0xAFFE, 0xF033]));
    run(&mut c, 1);
    assert_eq!(c.step(None, 0).unwrap_err().kind, FaultKind::MemoryOutOfBounds);
    let mut c = machine(&words(&[0xAFFC, 0xD015]));
    run(&mut c, 1);
    assert_eq!(c.step(None, 0).unwrap_err().kind, FaultKind::MemoryOutOfBounds);
}

#[test]
fn draw_glyph_and_collide() {
    let mut c = machine(&words(&[0x6002, 0x6103, 0xA000, 0xD015, 0xD015]));
    run(&mut c, 4);
    assert_eq!(c.register(0xF), 0);
    assert_eq!(c.display[3], 0xF0u64 << 54);
    assert_eq!(c.display[4], 0x90u64 << 54);
    assert_eq!(c.display[7], 0xF0u64 << 54);
    assert_eq!(c.display[8], 0);
    run(&mut c, 1);
    assert_eq!(c.register(0xF), 1);
    assert_eq!(c.display, [0u64; 32]);
}

#[test]
fn random_byte_is_masked() {
    let mut c = machine(&words(&[0xC0F0, 0xC10F]));
    run(&mut c, 1);
    c.step(None, 0xAB).unwrap();
    assert_eq!(c.register(0), 0x00);
    let mut c = machine(&words(&[0xC0F0]));
    c.step(None, 0xAB).unwrap();
    assert_eq!(c.register(0), 0xA0);
    let mut c = machine(&words(&[0xC000]));
    c.run_cycle(None, 0).unwrap();
    assert_eq!(c.register(0), 0);
}

#[test]
fn timers_decay_with_elapsed_time() {
    let period = 16_666_667u64;
    let mut c = machine(&words(&[0x6A05, 0xFA15, 0xFA18, 0xFB07, 0x1208]));
    for _ in 0..3 {
        c.run_cycle(None, 0).unwrap();
    }
    assert_eq!(c.delay_timer(), 5);
    assert_eq!(c.sound_timer(), 5);
    c.run_cycle(None, 2 * period).unwrap();
    assert_eq!(c.register(0xB), 3);
    assert_eq!(c.sound_timer(), 3);
    c.run_cycle(None, 10 * period).unwrap();
    assert_eq!(c.delay_timer(), 0);
    assert_eq!(c.sound_timer(), 0);
}
