use vstd::prelude::*;

use crate::error::ChipError;

verus! {

/// Number of addressable bytes.
pub const MEMORY_SIZE: usize = 4096;

/// First address available to programs; everything below it is reserved.
pub const PROGRAM_START: u16 = 0x200;

/// Number of return-address slots.
pub const STACK_SIZE: usize = 16;

/// Low byte of a word, stored first.
pub open spec fn low_byte(w: u16) -> u8 {
    (w % 256) as u8
}

/// High byte of a word, stored second.
pub open spec fn high_byte(w: u16) -> u8 {
    (w / 256) as u8
}

/// The word whose low byte sits at `addr` and whose high byte sits at `addr + 1`.
pub open spec fn word_at(bytes: Seq<u8>, addr: int) -> u16 {
    (bytes[addr + 1] as int * 256 + bytes[addr] as int) as u16
}

/// `bytes` with the word `w` stored little-endian at `addr`.
pub open spec fn store_word(bytes: Seq<u8>, addr: int, w: u16) -> Seq<u8> {
    bytes.update(addr, low_byte(w)).update(addr + 1, high_byte(w))
}

/// What a read of `size` bytes at `addr` assembles: the second byte is the high one.
pub open spec fn read_value(bytes: Seq<u8>, addr: int, size: u8) -> u16 {
    if size == 1 {
        bytes[addr] as u16
    } else {
        word_at(bytes, addr)
    }
}

/// The abstract contents of a memory: its bytes and its two independent cursors.
pub struct MemoryView {
    pub bytes: Seq<u8>,
    pub write_cursor: nat,
    pub read_cursor: nat,
}

impl MemoryView {
    pub open spec fn wf(self) -> bool {
        &&& self.bytes.len() == MEMORY_SIZE
        &&& self.write_cursor <= MEMORY_SIZE
        &&& self.read_cursor <= MEMORY_SIZE
    }
}

/// Flat byte store with a write cursor for appending words and a read cursor
/// for fetching them.
#[derive(Debug)]
pub struct Memory {
    memory: Vec<u8>,
    pc: u16,
    read_pc: u16,
}

impl View for Memory {
    type V = MemoryView;

    closed spec fn view(&self) -> MemoryView {
        MemoryView {
            bytes: self.memory@,
            write_cursor: self.pc as nat,
            read_cursor: self.read_pc as nat,
        }
    }
}

impl Memory {
    pub open spec fn wf(&self) -> bool {
        self@.wf()
    }

    /// A zeroed memory with both cursors at the program origin.
    pub fn new() -> (r: Self)
        ensures
            r.wf(),
            r@.bytes == Seq::new(MEMORY_SIZE as nat, |i: int| 0u8),
            r@.write_cursor == PROGRAM_START,
            r@.read_cursor == PROGRAM_START,
    {
        let memory = vec![0u8; MEMORY_SIZE];
        proof {
            assert(memory@ =~= Seq::new(MEMORY_SIZE as nat, |i: int| 0u8));
        }
        Memory { memory, pc: PROGRAM_START, read_pc: PROGRAM_START }
    }

    pub fn read_cursor(&self) -> (r: u16)
        ensures
            r == self@.read_cursor,
    {
        self.read_pc
    }

    pub fn write_cursor(&self) -> (r: u16)
        ensures
            r == self@.write_cursor,
    {
        self.pc
    }

    /// Moves the read cursor to `address`; an address past the end is refused.
    pub fn set_read_cursor(&mut self, address: u16) -> (r: Result<(), ChipError>)
        requires
            old(self).wf(),
        ensures
            final(self).wf(),
            address <= MEMORY_SIZE ==> r == Ok::<(), ChipError>(()) && final(self)@ == (MemoryView {
                read_cursor: address as nat,
                ..old(self)@
            }),
            address > MEMORY_SIZE ==> r == Err::<(), ChipError>(ChipError::AddressOutOfBounds(address))
                && final(self)@ == old(self)@,
    {
        if address as usize > MEMORY_SIZE {
            return Err(ChipError::AddressOutOfBounds(address));
        }
        self.read_pc = address;
        Ok(())
    }

    /// Stores `data` little-endian at `address`, leaving both cursors alone.
    /// Fails when the second byte would fall past the end of memory.
    pub fn write_into(&mut self, data: u16, address: u16) -> (r: Result<(), ChipError>)
        requires
            old(self).wf(),
        ensures
            final(self).wf(),
            address + 2 <= MEMORY_SIZE ==> r == Ok::<(), ChipError>(()) && final(self)@ == (MemoryView {
                bytes: store_word(old(self)@.bytes, address as int, data),
                ..old(self)@
            }),
            address + 2 > MEMORY_SIZE ==> r == Err::<(), ChipError>(ChipError::AddressOutOfBounds(address))
                && final(self)@ == old(self)@,
    {
        if address as usize + 2 > MEMORY_SIZE {
            return Err(ChipError::AddressOutOfBounds(address));
        }
        let a = address as usize;
        self.memory.set(a, (data % 256) as u8);
        self.memory.set(a + 1, (data / 256) as u8);
        Ok(())
    }

    /// Appends `data` little-endian at the write cursor and advances it by two.
    /// Fails when the second byte would fall past the end of memory.
    pub fn write(&mut self, data: u16) -> (r: Result<(), ChipError>)
        requires
            old(self).wf(),
        ensures
            final(self).wf(),
            old(self)@.write_cursor + 2 <= MEMORY_SIZE ==> r == Ok::<(), ChipError>(()) && final(self)@ == (MemoryView {
                bytes: store_word(old(self)@.bytes, old(self)@.write_cursor as int, data),
                write_cursor: (old(self)@.write_cursor + 2) as nat,
                ..old(self)@
            }),
            old(self)@.write_cursor + 2 > MEMORY_SIZE ==> r == Err::<(), ChipError>(
                ChipError::AddressOutOfBounds(old(self)@.write_cursor as u16),
            ) && final(self)@ == old(self)@,
    {
        let at = self.pc;
        let r = self.write_into(data, at);
        if r.is_ok() {
            self.pc = at + 2;
        }
        r
    }

    /// Reads `size` bytes at the read cursor and advances it by `size`; the
    /// second byte read is the high byte of the result. Fails, without moving
    /// the cursor, when a byte would lie past the end of memory.
    pub fn read(&mut self, size: u8) -> (r: Result<u16, ChipError>)
        requires
            old(self).wf(),
            1 <= size <= 2,
        ensures
            final(self).wf(),
            old(self)@.read_cursor + size <= MEMORY_SIZE ==> r == Ok::<u16, ChipError>(
                read_value(old(self)@.bytes, old(self)@.read_cursor as int, size),
            ) && final(self)@ == (MemoryView {
                read_cursor: (old(self)@.read_cursor + size) as nat,
                ..old(self)@
            }),
            old(self)@.read_cursor + size > MEMORY_SIZE ==> r == Err::<u16, ChipError>(
                ChipError::AddressOutOfBounds(old(self)@.read_cursor as u16),
            ) && final(self)@ == old(self)@,
    {
        let at = self.read_pc as usize;
        if at + size as usize > MEMORY_SIZE {
            return Err(ChipError::AddressOutOfBounds(self.read_pc));
        }
        let mut bytes: [u8; 2] = [0, 0];
        let mut i: u8 = 0;
        while i < size
            invariant
                self.wf(),
                1 <= size <= 2,
                i <= size,
                at + size <= MEMORY_SIZE,
                self.memory@ == old(self).memory@,
                self.pc == old(self).pc,
                self.read_pc as int == at + i,
                forall|k: int| 0 <= k < i ==> bytes@[k] == self.memory@[at + k],
                i < 2 ==> bytes@[1] == 0,
            decreases size - i,
        {
            bytes[i as usize] = self.memory[self.read_pc as usize];
            self.read_pc = self.read_pc + 1;
            i = i + 1;
        }
        let byte_1 = bytes[0] as u16;
        let byte_2 = bytes[1] as u16;
        Ok(byte_2 * 256 + byte_1)
    }

    /// Copies `rom` into memory starting at the program origin; cursors are
    /// untouched. Fails, changing nothing, when the image does not fit.
    pub fn load(&mut self, rom: &[u8]) -> (r: Result<(), ChipError>)
        requires
            old(self).wf(),
        ensures
            final(self).wf(),
            PROGRAM_START + rom@.len() <= MEMORY_SIZE ==> r == Ok::<(), ChipError>(()) && final(self)@ == (MemoryView {
                bytes: old(self)@.bytes.take(PROGRAM_START as int) + rom@ + old(self)@.bytes.skip(
                    PROGRAM_START + rom@.len(),
                ),
                ..old(self)@
            }),
            PROGRAM_START + rom@.len() > MEMORY_SIZE ==> r == Err::<(), ChipError>(
                ChipError::AddressOutOfBounds(PROGRAM_START),
            ) && final(self)@ == old(self)@,
    {
        let start = PROGRAM_START as usize;
        if rom.len() > MEMORY_SIZE - start {
            return Err(ChipError::AddressOutOfBounds(PROGRAM_START));
        }
        let mut i: usize = 0;
        while i < rom.len()
            invariant
                self.wf(),
                start == PROGRAM_START,
                start + rom@.len() <= MEMORY_SIZE,
                i <= rom@.len(),
                self.pc == old(self).pc,
                self.read_pc == old(self).read_pc,
                self.memory@.len() == MEMORY_SIZE,
                forall|k: int| 0 <= k < start ==> self.memory@[k] == old(self).memory@[k],
                forall|k: int| 0 <= k < i ==> self.memory@[start + k] == rom@[k],
                forall|k: int| start + i <= k < MEMORY_SIZE ==> self.memory@[k] == old(self).memory@[k],
            decreases rom@.len() - i,
        {
            self.memory.set(start + i, rom[i]);
            i = i + 1;
        }
        proof {
            let expected = old(self)@.bytes.take(start as int) + rom@ + old(self)@.bytes.skip(
                start + rom@.len(),
            );
            assert(self.memory@ =~= expected);
        }
        Ok(())
    }
}

/// The return-address store: a fixed number of slots addressed by an outside
/// stack pointer.
#[derive(Debug)]
pub struct Stack {
    stack: Vec<u16>,
}

impl View for Stack {
    type V = Seq<u16>;

    closed spec fn view(&self) -> Seq<u16> {
        self.stack@
    }
}

impl Stack {
    pub open spec fn wf(&self) -> bool {
        self@.len() == STACK_SIZE
    }

    pub fn new() -> (r: Self)
        ensures
            r.wf(),
            r@ == Seq::new(STACK_SIZE as nat, |i: int| 0u16),
    {
        let stack = vec![0u16; STACK_SIZE];
        proof {
            assert(stack@ =~= Seq::new(STACK_SIZE as nat, |i: int| 0u16));
        }
        Stack { stack }
    }

    /// Stores `address` in slot `sp`.
    pub fn push(&mut self, address: u16, sp: u16)
        requires
            old(self).wf(),
            sp < STACK_SIZE,
        ensures
            final(self).wf(),
            final(self)@ == old(self)@.update(sp as int, address),
    {
        self.stack.set(sp as usize, address);
    }

    /// Returns what slot `sp` holds and clears it.
    pub fn pop(&mut self, sp: u16) -> (r: u16)
        requires
            old(self).wf(),
            sp < STACK_SIZE,
        ensures
            final(self).wf(),
            r == old(self)@[sp as int],
            final(self)@ == old(self)@.update(sp as int, 0),
    {
        let addr = self.stack[sp as usize];
        self.stack.set(sp as usize, 0);
        addr
    }
}

} // verus!
