use crate::console::{Console, IoByte, Terminal};
use vstd::prelude::*;

verus! {

/// Number of words in the address space.
pub const MEMORY_SIZE: usize = 0x1_0000;

/// Address of the keyboard status register.
pub const KBSR: u16 = 0xFE00;

/// Address of the keyboard data register.
pub const KBDR: u16 = 0xFE02;

/// The memory after a poll of the keyboard that returned `byte`: the status word
/// has bit 15 set and the data word holds the byte when a key came, and the
/// status word is zero when none did.
pub open spec fn polled(m: Seq<u16>, byte: u8) -> Seq<u16> {
    if byte != 0 {
        m.update(KBSR as int, 0x8000u16).update(KBDR as int, byte as u16)
    } else {
        m.update(KBSR as int, 0u16)
    }
}

/// The byte that a poll of the keyboard returned, read back from the memory
/// `after` that it left.
pub open spec fn polled_byte(after: Seq<u16>) -> u8 {
    if after[KBSR as int] != 0 {
        after[KBDR as int] as u8
    } else {
        0
    }
}

/// The result of reading `address` from memory `before`, which leaves `after`:
/// a plain read everywhere but at the keyboard status register, whose read
/// first polls the keyboard.
pub open spec fn read_effect(before: Seq<u16>, address: u16, after: Seq<u16>, r: u16) -> bool {
    if address == KBSR {
        exists|byte: u8| after == polled(before, byte) && r == after[KBSR as int]
    } else {
        after == before && r == before[address as int]
    }
}

/// The machine's memory: one word for each 16-bit address.
pub struct Memory {
    mem: Vec<u16>,
}

impl View for Memory {
    /// The word at each address, in order of address.
    type V = Seq<u16>;

    closed spec fn view(&self) -> Seq<u16> {
        self.mem@
    }
}

impl Memory {
    /// Holds when there is a word for each 16-bit address.
    pub open spec fn wf(&self) -> bool {
        self@.len() == MEMORY_SIZE
    }

    /// Creates a memory in which every word is zero.
    pub fn new() -> (r: Self)
        ensures
            r.wf(),
            r@ == Seq::new(MEMORY_SIZE as nat, |i: int| 0u16),
    {
        let r = Self { mem: vec![0u16; MEMORY_SIZE] };
        assert(r@ =~= Seq::new(MEMORY_SIZE as nat, |i: int| 0u16));
        r
    }

    /// Reads the word at `address`. A read of the keyboard status register first
    /// asks `console` for a byte and records in the status and data registers
    /// whether one came and which.
    pub fn read<C: Console>(&mut self, address: u16, console: &mut Terminal<C>) -> (r: u16)
        requires
            old(self).wf(),
        ensures
            final(self).wf(),
            read_effect(old(self)@, address, final(self)@, r),
            final(console).log@ == if address == KBSR {
                old(console).log@.push(IoByte::In(polled_byte(final(self)@)))
            } else {
                old(console).log@
            },
    {
        if address == KBSR {
            let chr = console.read_byte();
            if chr != 0 {
                self.mem.set(KBSR as usize, 0x8000);
                self.mem.set(KBDR as usize, chr as u16);
            } else {
                self.mem.set(KBSR as usize, 0);
            }
            assert(self@ =~= polled(old(self)@, chr));
        }
        self.mem[address as usize]
    }

    /// Writes `value` at `address`.
    pub fn write(&mut self, address: u16, value: u16)
        requires
            old(self).wf(),
        ensures
            final(self).wf(),
            final(self)@ == old(self)@.update(address as int, value),
    {
        self.mem.set(address as usize, value);
    }
}

} // verus!
