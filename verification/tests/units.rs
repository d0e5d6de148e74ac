use chip8emu::key::{Key, KeyBank};
use chip8emu::memory::{Memory, MemoryErr};
use chip8emu::reg::{Reg, RegBank};
use chip8emu::stack::{Stack, StackErr};
use chip8emu::timer::Timer;

#[test]
fn timer_floors_at_zero() {
    let mut t = Timer::new();
    assert_eq!(t.get_value(), 0);
    t.decrement();
    t.decrement();
    t.decrement();
    assert_eq!(t.get_value(), 0);
}

#[test]
fn timer_counts_down() {
    let mut t = Timer::new();
    t.set_value(3);
    t.decrement();
    assert_eq!(t.get_value(), 2);
    t.decrement();
    t.decrement();
    assert_eq!(t.get_value(), 0);
    t.decrement();
    assert_eq!(t.get_value(), 0);
}

#[test]
fn timer_increment_wraps() {
    let mut t = Timer::new();
    t.set_value(0xFF);
    t.increment();
    assert_eq!(t.get_value(), 0);
}

#[test]
fn stack_is_lifo() {
    let mut s = Stack::new();
    s.push(0x200);
    s.push(0x300);
    assert_eq!(s.pop(), Ok(0x300));
    assert_eq!(s.pop(), Ok(0x200));
}

#[test]
fn stack_pop_empty_is_error() {
    let mut s = Stack::new();
    assert_eq!(s.pop(), Err(StackErr));
    s.push(1);
    assert_eq!(s.pop(), Ok(1));
    assert_eq!(s.pop(), Err(StackErr));
}

#[test]
fn regbank_set_get_and_wrapping_add() {
    let mut r = RegBank::new();
    assert_eq!(r.get_value(Reg::V7), 0);
    r.set_value(Reg::V7, 0xAB);
    assert_eq!(r.get_value(Reg::V7), 0xAB);
    r.set_value(Reg::V0, 0xFF);
    r.add_value(Reg::V0, 0x02);
    assert_eq!(r.get_value(Reg::V0), 0x01);
}

#[test]
fn keybank_set_get_and_first_pressed() {
    let mut k = KeyBank::new();
    assert_eq!(k.get_key_pressed(), None);
    k.set_value(Key::Key7, true);
    k.set_value(Key::KeyB, true);
    assert!(k.get_value(Key::Key7));
    assert!(!k.get_value(Key::Key3));
    assert_eq!(k.get_key_pressed(), Some(7));
    k.set_value(Key::Key7, false);
    assert_eq!(k.get_key_pressed(), Some(0xB));
    k.set_value(Key::KeyB, false);
    assert_eq!(k.get_key_pressed(), None);
}

#[test]
fn keybank_reports_lowest_key_zero() {
    let mut k = KeyBank::new();
    k.set_value(Key::Key0, true);
    k.set_value(Key::KeyF, true);
    assert_eq!(k.get_key_pressed(), Some(0));
}

#[test]
fn memory_read_write_round_trip() {
    let mut m = Memory::new(4096);
    assert_eq!(m.len(), 4096);
    m.write_data(0x200, &[1, 2, 3]).unwrap();
    assert_eq!(m.get_data(0x200, 3), Ok(vec![1, 2, 3]));
    assert_eq!(m.get_data(0x1FF, 2), Ok(vec![0, 1]));
}

#[test]
fn memory_out_of_bounds_is_error() {
    let mut m = Memory::new(4096);
    assert_eq!(m.get_data(0xFFF, 2), Err(MemoryErr));
    assert_eq!(m.get_data(0xFFF, 1), Ok(vec![0]));
    assert_eq!(m.write_data(0xFFF, &[1, 2]), Err(MemoryErr));
    assert_eq!(m.write_data(0xFFF, &[9]), Ok(()));
    assert_eq!(m.get_data(0xFFF, 1), Ok(vec![9]));
}

#[test]
fn memory_fetches_command_bytes() {
    let mut m = Memory::new(4096);
    m.write_data(0x200, &[0xAB, 0xCD]).unwrap();
    assert_eq!(m.get_command_data(0x200), Ok((0xAB, 0xCD)));
    assert_eq!(m.get_command_data(0xFFF), Err(MemoryErr));
}
