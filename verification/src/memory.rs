//! The memory of the emulated machine: a flat array of bytes.

use crate::error::Error;
use vstd::prelude::*;

verus! {

/// The number of bytes of memory: 48 KiB, at addresses `0x0000` to `0xBFFF`.
pub const MEMORY_SIZE: usize = 48 * 1024;

/// A fixed 48 KiB of random-access memory.
///
/// Its model is the sequence of its bytes, `MEMORY_SIZE` long, indexed by
/// address.
pub struct Memory {
    pub ram: [u8; MEMORY_SIZE],
}

impl View for Memory {
    type V = Seq<u8>;

    open spec fn view(&self) -> Seq<u8> {
        self.ram@
    }
}

/// What memory holds once `buffer` has been copied to `address` and the bytes
/// that follow it.
pub open spec fn loaded(memory: Seq<u8>, address: int, buffer: Seq<u8>) -> Seq<u8> {
    Seq::new(
        memory.len(),
        |i: int|
            if address <= i < address + buffer.len() {
                buffer[i - address]
            } else {
                memory[i]
            },
    )
}

impl Memory {
    /// Memory in which every byte is zero.
    pub fn new() -> (memory: Memory)
        ensures
            memory@ == Seq::new(MEMORY_SIZE as nat, |i: int| 0u8),
    {
        let memory = Memory { ram: [0u8; MEMORY_SIZE] };
        assert(memory@ =~= Seq::new(MEMORY_SIZE as nat, |i: int| 0u8));
        memory
    }

    /// The byte at `address`, or `None` where `address` is past the end of
    /// memory.
    pub fn read(&self, address: u16) -> (byte: Option<u8>)
        ensures
            byte == (if address < MEMORY_SIZE {
                Some(self@[address as int])
            } else {
                None
            }),
    {
        if (address as usize) < MEMORY_SIZE {
            Some(self.ram[address as usize])
        } else {
            None
        }
    }

    /// Stores `value` at `address`. An address past the end of memory is
    /// refused and memory stays as it was.
    pub fn write(&mut self, address: u16, value: u8) -> (done: Result<(), Error>)
        ensures
            address < MEMORY_SIZE ==> done is Ok
                && final(self)@ == old(self)@.update(address as int, value),
            address >= MEMORY_SIZE ==> done == Err::<(), Error>(Error::MemoryOutOfRange)
                && final(self)@ == old(self)@,
    {
        if (address as usize) < MEMORY_SIZE {
            self.ram[address as usize] = value;
            assert(self@ =~= old(self)@.update(address as int, value));
            Ok(())
        } else {
            Err(Error::MemoryOutOfRange)
        }
    }

    /// Copies `buffer` into memory, its first byte to `address`. A buffer that
    /// would reach past the end of memory is refused as a whole and memory
    /// stays as it was.
    pub fn load(&mut self, address: u16, buffer: &[u8]) -> (done: Result<(), Error>)
        ensures
            address + buffer@.len() <= MEMORY_SIZE ==> done is Ok
                && final(self)@ == loaded(old(self)@, address as int, buffer@),
            address + buffer@.len() > MEMORY_SIZE ==> done == Err::<(), Error>(
                Error::MemoryOutOfRange,
            ) && final(self)@ == old(self)@,
    {
        let base = address as usize;
        let length = buffer.len();
        if base > MEMORY_SIZE || length > MEMORY_SIZE - base {
            return Err(Error::MemoryOutOfRange);
        }
        let mut i: usize = 0;
        while i < length
            invariant
                i <= length,
                length == buffer@.len(),
                base == address,
                base + length <= MEMORY_SIZE,
                self@ == loaded(old(self)@, address as int, buffer@.take(i as int)),
            decreases length - i,
        {
            self.ram[base + i] = buffer[i];
            i += 1;
            assert(self@ =~= loaded(old(self)@, address as int, buffer@.take(i as int)));
        }
        assert(buffer@.take(length as int) =~= buffer@);
        Ok(())
    }
}

} // verus!
