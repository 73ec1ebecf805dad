use chip8::cpu::Cpu;
use chip8::keypad::Keypad;
use chip8::opcode::OpCode;

#[test]
fn binary_conversion_splits_digits() {
    let mut cpu = Cpu::new();
    cpu.set_register(4, 234);
    cpu.set_index(0x300);
    cpu.binary_conversion(4);
    assert_eq!(cpu.read_memory(0x300), 2);
    assert_eq!(cpu.read_memory(0x301), 3);
    assert_eq!(cpu.read_memory(0x302), 4);
    assert_eq!(cpu.read_memory(0x303), 0);
    assert_eq!(cpu.read_memory(0x2FF), 0);
}

#[test]
fn binary_conversion_of_extremes() {
    let mut cpu = Cpu::new();
    cpu.set_index(0x300);
    cpu.set_register(0, 255);
    cpu.binary_conversion(0);
    assert_eq!(
        [cpu.read_memory(0x300), cpu.read_memory(0x301), cpu.read_memory(0x302)],
        [2, 5, 5]
    );
    cpu.set_register(0, 0);
    cpu.binary_conversion(0);
    assert_eq!(
        [cpu.read_memory(0x300), cpu.read_memory(0x301), cpu.read_memory(0x302)],
        [0, 0, 0]
    );
    cpu.set_register(0, 7);
    cpu.binary_conversion(0);
    assert_eq!(
        [cpu.read_memory(0x300), cpu.read_memory(0x301), cpu.read_memory(0x302)],
        [0, 0, 7]
    );
    cpu.set_register(0, 100);
    cpu.binary_conversion(0);
    assert_eq!(
        [cpu.read_memory(0x300), cpu.read_memory(0x301), cpu.read_memory(0x302)],
        [1, 0, 0]
    );
}

#[test]
fn binary_conversion_wraps_around_memory() {
    let mut cpu = Cpu::new();
    cpu.set_register(0, 123);
    cpu.set_index(0xFFF);
    cpu.binary_conversion(0);
    assert_eq!(cpu.read_memory(0xFFF), 1);
    assert_eq!(cpu.read_memory(0x000), 2);
    assert_eq!(cpu.read_memory(0x001), 3);
    assert_eq!(cpu.read_memory(0x002), 0x90);
}

#[test]
fn binary_conversion_with_index_at_the_top() {
    let mut cpu = Cpu::new();
    cpu.set_register(0, 123);
    cpu.set_index(0xFFFF);
    cpu.binary_conversion(0);
    assert_eq!(cpu.read_memory(0xFFF), 1);
    assert_eq!(cpu.read_memory(0x000), 2);
    assert_eq!(cpu.read_memory(0x001), 3);
}

#[test]
fn store_memory_copies_registers_inclusive() {
    let mut cpu = Cpu::new();
    for register in 0..16usize {
        cpu.set_register(register, 0x10 + register as u8);
    }
    cpu.set_index(0x400);
    cpu.store_memory(3);
    assert_eq!(cpu.read_memory(0x3FF), 0);
    assert_eq!(cpu.read_memory(0x400), 0x10);
    assert_eq!(cpu.read_memory(0x401), 0x11);
    assert_eq!(cpu.read_memory(0x402), 0x12);
    assert_eq!(cpu.read_memory(0x403), 0x13);
    assert_eq!(cpu.read_memory(0x404), 0);
    assert_eq!(cpu.get_index(), 0x400);
}

#[test]
fn store_memory_single_and_all() {
    let mut cpu = Cpu::new();
    for register in 0..16usize {
        cpu.set_register(register, 0xA0 + register as u8);
    }
    cpu.set_index(0x500);
    cpu.store_memory(0);
    assert_eq!(cpu.read_memory(0x500), 0xA0);
    assert_eq!(cpu.read_memory(0x501), 0);
    cpu.store_memory(15);
    for offset in 0..16u16 {
        assert_eq!(cpu.read_memory(0x500 + offset), 0xA0 + offset as u8);
    }
    assert_eq!(cpu.read_memory(0x510), 0);
}

#[test]
fn store_memory_wraps_around_memory() {
    let mut cpu = Cpu::new();
    cpu.set_register(0, 0x11);
    cpu.set_register(1, 0x22);
    cpu.set_register(2, 0x33);
    cpu.set_index(0xFFE);
    cpu.store_memory(2);
    assert_eq!(cpu.read_memory(0xFFE), 0x11);
    assert_eq!(cpu.read_memory(0xFFF), 0x22);
    assert_eq!(cpu.read_memory(0x000), 0x33);
    assert_eq!(cpu.read_memory(0x001), 0x90);
}

#[test]
fn load_memory_fills_registers_inclusive() {
    let mut cpu = Cpu::new().load(&[1, 2, 3, 4, 5]);
    cpu.set_register(3, 0x77);
    cpu.set_index(0x200);
    cpu.load_memory(2);
    assert_eq!(cpu.get_register(0), 1);
    assert_eq!(cpu.get_register(1), 2);
    assert_eq!(cpu.get_register(2), 3);
    assert_eq!(cpu.get_register(3), 0x77);
    assert_eq!(cpu.get_index(), 0x200);
    assert_eq!(cpu.read_memory(0x200), 1);
}

#[test]
fn load_memory_all_registers_from_font() {
    let mut cpu = Cpu::new();
    cpu.set_index(0);
    cpu.load_memory(15);
    let expected = [
        0xF0, 0x90, 0x90, 0x90, 0xF0, 0x20, 0x60, 0x20, 0x20, 0x70, 0xF0, 0x10, 0xF0, 0x80, 0xF0,
        0xF0,
    ];
    for (register, value) in expected.iter().enumerate() {
        assert_eq!(cpu.get_register(register), *value);
    }
}

#[test]
fn load_memory_wraps_around_memory() {
    let mut program = vec![0u8; 3584];
    program[3583] = 0x42;
    let mut cpu = Cpu::new().load(&program);
    cpu.set_index(0xFFF);
    cpu.load_memory(1);
    assert_eq!(cpu.get_register(0), 0x42);
    assert_eq!(cpu.get_register(1), 0xF0);
}

#[test]
fn store_then_load_round_trip() {
    let mut cpu = Cpu::new();
    for register in 0..8usize {
        cpu.set_register(register, 200 + register as u8);
    }
    cpu.set_index(0x600);
    cpu.store_memory(7);
    for register in 0..8usize {
        cpu.set_register(register, 0);
    }
    cpu.load_memory(7);
    for register in 0..8usize {
        assert_eq!(cpu.get_register(register), 200 + register as u8);
    }
}

#[test]
fn memory_operations_through_tick() {
    // V0 = 0x9C (156); I = 0x300; BCD V0; load V0..V2
    let mut cpu = Cpu::new().load(&[0x60, 0x9C, 0xA3, 0x00, 0xF0, 0x33, 0xF2, 0x65]);
    let keys = Keypad::new();
    for _ in 0..4 {
        cpu.tick(&keys);
    }
    assert_eq!(cpu.get_register(0), 1);
    assert_eq!(cpu.get_register(1), 5);
    assert_eq!(cpu.get_register(2), 6);
}

#[test]
fn font_address_through_tick() {
    // V5 = 0xA; I = glyph of V5; draw at (V0, V0), five rows
    let mut cpu = Cpu::new().load(&[0x65, 0x0A, 0xF5, 0x29, 0xD0, 0x05]);
    let keys = Keypad::new();
    cpu.tick(&keys);
    cpu.tick(&keys);
    assert_eq!(cpu.get_index(), 50);
    cpu.tick(&keys);
    // Glyph A: F0 90 F0 90 90
    assert_eq!(cpu.get_pixel(0, 0), 1);
    assert_eq!(cpu.get_pixel(1, 1), 0);
    assert_eq!(cpu.get_pixel(1, 2), 1);
    assert_eq!(cpu.get_pixel(1, 4), 0);
    assert_eq!(cpu.get_pixel(3, 4), 1);
}

#[test]
fn execute_covers_every_operation() {
    let keys = Keypad::new();
    let mut cpu = Cpu::new();
    cpu.execute(OpCode::SetRegister(1, 0xAA), &keys);
    assert_eq!(cpu.get_register(1), 0xAA);
    cpu.execute(OpCode::AddToRegister(1, 0x66), &keys);
    assert_eq!(cpu.get_register(1), 0x10);
    cpu.execute(OpCode::SetIndex(0x321), &keys);
    assert_eq!(cpu.get_index(), 0x321);
    cpu.execute(OpCode::Jump(0x456), &keys);
    assert_eq!(cpu.get_pc(), 0x456);
    cpu.execute(OpCode::SetDelayTimer(3), &keys);
    assert_eq!(cpu.get_delay_timer(), 3);
    cpu.execute(OpCode::SetSoundTimer(1), &keys);
    assert!(cpu.should_beep());
    cpu.execute(OpCode::ShiftRight(1), &keys);
    assert_eq!(cpu.get_register(1), 0x08);
    cpu.execute(OpCode::ShiftLeft(1), &keys);
    assert_eq!(cpu.get_register(1), 0x10);
    cpu.execute(OpCode::NoOp, &keys);
    assert_eq!(cpu.get_pc(), 0x456);
    cpu.execute(OpCode::BinaryConversion(1), &keys);
    assert_eq!(cpu.read_memory(0x323), 6);
    cpu.execute(OpCode::StoreMemory(1), &keys);
    assert_eq!(cpu.read_memory(0x322), 0x10);
    cpu.execute(OpCode::LoadMemory(0), &keys);
    assert_eq!(cpu.get_register(0), 0);
    cpu.execute(OpCode::SkipIfKey(0, false), &keys);
    assert_eq!(cpu.get_pc(), 0x458);
    cpu.execute(OpCode::SkipIfKey(0, true), &keys);
    assert_eq!(cpu.get_pc(), 0x458);
    cpu.execute(OpCode::ClearScreen, &keys);
    assert_eq!(cpu.screen, [[0u8; 64]; 32]);
}
