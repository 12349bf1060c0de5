use apple_ie::cpu::status::{
    StatusFlags, BREAK, CARRY, DECIMAL, DEFAULT, INTERRUPT, NEGATIVE, OVERFLOW, UNUSED, ZERO,
};

#[test]
fn flags_are_the_bits_of_a_byte() {
    assert_eq!(CARRY, 0x01);
    assert_eq!(ZERO, 0x02);
    assert_eq!(INTERRUPT, 0x04);
    assert_eq!(DECIMAL, 0x08);
    assert_eq!(BREAK, 0x10);
    assert_eq!(UNUSED, 0x20);
    assert_eq!(OVERFLOW, 0x40);
    assert_eq!(NEGATIVE, 0x80);
}

#[test]
fn default_flags_are_unused_and_break() {
    let flags = StatusFlags::default();
    assert_eq!(flags.bits(), 0x30);
    assert_eq!(DEFAULT, UNUSED | BREAK);
    assert!(flags.contains(StatusFlags::from_bits(UNUSED)));
    assert!(flags.contains(StatusFlags::from_bits(BREAK)));
    assert!(!flags.intersects(StatusFlags::from_bits(
        CARRY | ZERO | INTERRUPT | DECIMAL | OVERFLOW | NEGATIVE
    )));
}

#[test]
fn set_writes_a_flag() {
    let mut flags = StatusFlags::empty();
    flags.set(StatusFlags::from_bits(ZERO), true);
    assert_eq!(flags.bits(), 0x02);
    flags.set(StatusFlags::from_bits(NEGATIVE), true);
    assert_eq!(flags.bits(), 0x82);
    flags.set(StatusFlags::from_bits(ZERO), false);
    assert_eq!(flags.bits(), 0x80);
    flags.set(StatusFlags::from_bits(ZERO), false);
    assert_eq!(flags.bits(), 0x80);
}

#[test]
fn insert_and_remove_write_flags() {
    let mut flags = StatusFlags::from_bits(0x30);
    flags.insert(StatusFlags::from_bits(CARRY | OVERFLOW));
    assert_eq!(flags.bits(), 0x71);
    flags.remove(StatusFlags::from_bits(BREAK | CARRY));
    assert_eq!(flags.bits(), 0x60);
}

#[test]
fn toggle_turns_flags_over() {
    let mut flags = StatusFlags::from_bits(0x30);
    flags.toggle(StatusFlags::from_bits(ZERO));
    assert_eq!(flags.bits(), 0x32);
    flags.toggle(StatusFlags::from_bits(ZERO));
    assert_eq!(flags.bits(), 0x30);
    flags.toggle(StatusFlags::from_bits(0xFF));
    assert_eq!(flags.bits(), 0xCF);
}

#[test]
fn contains_asks_for_all_and_intersects_for_any() {
    let flags = StatusFlags::from_bits(CARRY | ZERO);
    assert!(flags.contains(StatusFlags::from_bits(CARRY)));
    assert!(flags.contains(StatusFlags::from_bits(CARRY | ZERO)));
    assert!(!flags.contains(StatusFlags::from_bits(CARRY | NEGATIVE)));
    assert!(flags.intersects(StatusFlags::from_bits(CARRY | NEGATIVE)));
    assert!(!flags.intersects(StatusFlags::from_bits(NEGATIVE)));
    assert!(flags.contains(StatusFlags::empty()));
    assert!(!flags.intersects(StatusFlags::empty()));
}
