use chip8::cpu::Cpu;
use chip8::keypad::Keypad;
use chip8::opcode::OpCode;

fn holding(keys: &[u8]) -> Keypad {
    let mut keypad = Keypad::new();
    for &key in keys {
        keypad.press(key);
    }
    keypad
}

#[test]
fn keypad_starts_empty() {
    let keypad = Keypad::new();
    for key in 0..=255u8 {
        assert!(!keypad.is_pressed(key));
    }
    assert_eq!(keypad.first_pressed(), None);
}

#[test]
fn keypad_press_and_release() {
    let mut keypad = Keypad::new();
    keypad.press(5);
    assert!(keypad.is_pressed(5));
    assert!(!keypad.is_pressed(4));
    assert_eq!(keypad.first_pressed(), Some(5));
    keypad.release(5);
    assert!(!keypad.is_pressed(5));
    assert_eq!(keypad.first_pressed(), None);
}

#[test]
fn keypad_keeps_report_order() {
    let mut keypad = holding(&[7, 2, 0xF]);
    assert_eq!(keypad.first_pressed(), Some(7));
    keypad.release(7);
    assert_eq!(keypad.first_pressed(), Some(2));
    keypad.press(7);
    assert_eq!(keypad.first_pressed(), Some(2));
    keypad.release(2);
    assert_eq!(keypad.first_pressed(), Some(0xF));
    keypad.release(0xF);
    assert_eq!(keypad.first_pressed(), Some(7));
}

#[test]
fn keypad_ignores_repeated_press() {
    let mut keypad = holding(&[3, 3, 3]);
    keypad.release(3);
    assert!(!keypad.is_pressed(3));
    assert_eq!(keypad.first_pressed(), None);
}

#[test]
fn keypad_ignores_codes_that_are_not_keys() {
    let keypad = holding(&[16, 0x29, 255]);
    assert_eq!(keypad.first_pressed(), None);
    assert!(!keypad.is_pressed(16));
    assert!(!keypad.is_pressed(0x29));
    let keypad = holding(&[0x29, 4]);
    assert_eq!(keypad.first_pressed(), Some(4));
}

#[test]
fn keypad_release_of_idle_key_changes_nothing() {
    let mut keypad = holding(&[1, 2]);
    keypad.release(9);
    keypad.release(200);
    assert_eq!(keypad.first_pressed(), Some(1));
    assert!(keypad.is_pressed(2));
}

#[test]
fn keypad_holds_all_sixteen_keys() {
    let mut keypad = Keypad::new();
    for key in (0..16u8).rev() {
        keypad.press(key);
    }
    for key in 0..16u8 {
        assert!(keypad.is_pressed(key));
    }
    assert_eq!(keypad.first_pressed(), Some(15));
}

#[test]
fn get_key_press_then_release() {
    // F30A waits; 6A12 follows.
    let mut cpu = Cpu::new().load(&[0xF3, 0x0A, 0x6A, 0x12]);
    let mut keys = Keypad::new();
    cpu.tick(&keys);
    assert_eq!(cpu.waiting_key(), Some(3));
    assert_eq!(cpu.get_pc(), 0x202);

    keys.press(5);
    cpu.tick(&keys);
    assert_eq!(cpu.waiting_key(), Some(3));
    assert_eq!(cpu.get_register(3), 0);

    keys.release(5);
    cpu.tick(&keys);
    assert_eq!(cpu.waiting_key(), None);
    assert_eq!(cpu.get_register(3), 5);
    assert_eq!(cpu.get_pc(), 0x202);

    cpu.tick(&keys);
    assert_eq!(cpu.get_register(0xA), 0x12);
    assert_eq!(cpu.get_pc(), 0x204);
}

#[test]
fn get_key_through_execute() {
    let mut cpu = Cpu::new();
    let mut keys = Keypad::new();
    cpu.execute(OpCode::GetKey(3), &keys);
    keys.press(5);
    cpu.tick(&keys);
    keys.release(5);
    cpu.tick(&keys);
    assert_eq!(cpu.get_register(3), 5);
    assert_eq!(cpu.waiting_key(), None);
}

#[test]
fn get_key_held_forever_never_resolves() {
    let mut cpu = Cpu::new().load(&[0xF3, 0x0A, 0x6A, 0x12]);
    cpu.tick(&Keypad::new());
    let keys = holding(&[5]);
    for _ in 0..10_000 {
        cpu.tick(&keys);
        assert_eq!(cpu.waiting_key(), Some(3));
    }
    assert_eq!(cpu.get_register(3), 0);
    assert_eq!(cpu.get_register(0xA), 0);
    assert_eq!(cpu.get_pc(), 0x202);
}

#[test]
fn get_key_without_any_key_keeps_waiting() {
    let mut cpu = Cpu::new().load(&[0xF3, 0x0A, 0x6A, 0x12]);
    let keys = Keypad::new();
    for _ in 0..100 {
        cpu.tick(&keys);
    }
    assert_eq!(cpu.waiting_key(), Some(3));
    assert_eq!(cpu.get_pc(), 0x202);
    assert_eq!(cpu.get_register(0xA), 0);
}

#[test]
fn get_key_takes_key_that_was_down_before_the_wait() {
    // A key already held when the wait begins still has to be released
    // before it counts.
    let mut cpu = Cpu::new().load(&[0xF0, 0x0A]);
    let mut keys = holding(&[9]);
    cpu.tick(&keys);
    cpu.tick(&keys);
    assert_eq!(cpu.waiting_key(), Some(0));
    keys.release(9);
    cpu.tick(&keys);
    assert_eq!(cpu.waiting_key(), None);
    assert_eq!(cpu.get_register(0), 9);
}

#[test]
fn get_key_follows_the_first_reported_key() {
    let mut cpu = Cpu::new().load(&[0xF1, 0x0A]);
    let mut keys = holding(&[4, 8]);
    cpu.tick(&keys);
    cpu.tick(&keys);
    keys.release(4);
    cpu.tick(&keys);
    assert_eq!(cpu.waiting_key(), Some(1));
    keys.release(8);
    cpu.tick(&keys);
    assert_eq!(cpu.waiting_key(), None);
    assert_eq!(cpu.get_register(1), 8);
}

#[test]
fn get_key_can_store_in_flag_register() {
    let mut cpu = Cpu::new().load(&[0xFF, 0x0A]);
    let mut keys = Keypad::new();
    cpu.tick(&keys);
    keys.press(0xC);
    cpu.tick(&keys);
    keys.release(0xC);
    cpu.tick(&keys);
    assert_eq!(cpu.get_register(0xF), 0xC);
}

#[test]
fn waiting_machine_still_counts_timers() {
    let mut cpu = Cpu::new().load(&[0xF3, 0x0A]);
    cpu.set_delay_timer(5);
    cpu.tick(&Keypad::new());
    cpu.tick_timers();
    cpu.tick(&Keypad::new());
    assert_eq!(cpu.get_delay_timer(), 4);
    assert_eq!(cpu.waiting_key(), Some(3));
}

#[test]
fn skip_if_key_pressed() {
    let mut cpu = Cpu::new();
    assert!(cpu.skip_if_key(5, true, &holding(&[5])));
    assert_eq!(cpu.get_pc(), 0x202);
    assert!(!cpu.skip_if_key(5, true, &holding(&[6])));
    assert_eq!(cpu.get_pc(), 0x202);
}

#[test]
fn skip_if_key_not_pressed() {
    let mut cpu = Cpu::new();
    assert!(cpu.skip_if_key(5, false, &holding(&[6])));
    assert_eq!(cpu.get_pc(), 0x202);
    assert!(!cpu.skip_if_key(5, false, &holding(&[5])));
    assert_eq!(cpu.get_pc(), 0x202);
}

#[test]
fn skip_if_key_with_value_that_is_no_key() {
    let mut cpu = Cpu::new();
    assert!(!cpu.skip_if_key(0x29, true, &holding(&[0, 1, 2])));
    assert!(cpu.skip_if_key(0x29, false, &holding(&[0, 1, 2])));
    assert_eq!(cpu.get_pc(), 0x202);
}

#[test]
fn key_skips_through_tick() {
    // V4 = 7; skip if key 7 down; (skipped) V0 = 1; skip if key 7 up; V1 = 1
    let mut cpu = Cpu::new().load(&[
        0x64, 0x07, 0xE4, 0x9E, 0x60, 0x01, 0xE4, 0xA1, 0x61, 0x01,
    ]);
    let keys = holding(&[7]);
    cpu.tick(&keys);
    cpu.tick(&keys);
    assert_eq!(cpu.get_pc(), 0x206);
    cpu.tick(&keys);
    assert_eq!(cpu.get_pc(), 0x208);
    cpu.tick(&keys);
    assert_eq!(cpu.get_register(0), 0);
    assert_eq!(cpu.get_register(1), 1);
}
