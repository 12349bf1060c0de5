use apple_ie::error::Error;
use apple_ie::memory::{Memory, MEMORY_SIZE};

#[test]
fn new_memory_is_zero() {
    let memory = Memory::new();
    assert_eq!(memory.ram.len(), 48 * 1024);
    assert_eq!(MEMORY_SIZE, 49152);
    assert!(memory.ram.iter().all(|byte| *byte == 0));
}

#[test]
fn read_gives_the_byte_at_an_address() {
    let mut memory = Memory::new();
    memory.ram[0x1234] = 0xAB;
    assert_eq!(memory.read(0x1234), Some(0xAB));
    assert_eq!(memory.read(0x1235), Some(0x00));
    assert_eq!(memory.read(0xBFFF), Some(0x00));
}

#[test]
fn read_past_the_end_gives_nothing() {
    let memory = Memory::new();
    assert_eq!(memory.read(0xC000), None);
    assert_eq!(memory.read(0xFFFF), None);
}

#[test]
fn write_stores_one_byte() {
    let mut memory = Memory::new();
    assert_eq!(memory.write(0x0200, 0x7F), Ok(()));
    assert_eq!(memory.read(0x0200), Some(0x7F));
    assert_eq!(memory.read(0x01FF), Some(0x00));
    assert_eq!(memory.read(0x0201), Some(0x00));
    assert_eq!(memory.write(0xBFFF, 0x01), Ok(()));
    assert_eq!(memory.read(0xBFFF), Some(0x01));
}

#[test]
fn write_past_the_end_is_refused() {
    let mut memory = Memory::new();
    assert_eq!(memory.write(0xC000, 0x01), Err(Error::MemoryOutOfRange));
    assert!(memory.ram.iter().all(|byte| *byte == 0));
}

#[test]
fn load_copies_a_buffer() {
    let mut memory = Memory::new();
    let buffer = vec![0xAB, 0xCD, 0xEF];
    assert_eq!(memory.load(0x1234, &buffer), Ok(()));
    assert_eq!(memory.ram[0x1233], 0x00);
    assert_eq!(memory.ram[0x1234], 0xAB);
    assert_eq!(memory.ram[0x1235], 0xCD);
    assert_eq!(memory.ram[0x1236], 0xEF);
    assert_eq!(memory.ram[0x1237], 0x00);
}

#[test]
fn load_reaches_the_last_byte() {
    let mut memory = Memory::new();
    assert_eq!(memory.load(0xBFFE, &[1, 2]), Ok(()));
    assert_eq!(memory.read(0xBFFE), Some(1));
    assert_eq!(memory.read(0xBFFF), Some(2));
    assert_eq!(memory.load(0xC000, &[]), Ok(()));
}

#[test]
fn load_past_the_end_is_refused_as_a_whole() {
    let mut memory = Memory::new();
    assert_eq!(memory.load(0xBFFE, &[1, 2, 3]), Err(Error::MemoryOutOfRange));
    assert_eq!(memory.read(0xBFFE), Some(0));
    assert_eq!(memory.read(0xBFFF), Some(0));
    assert_eq!(memory.load(0xC001, &[]), Err(Error::MemoryOutOfRange));
    assert_eq!(memory.load(0xFFFF, &[1]), Err(Error::MemoryOutOfRange));
}
