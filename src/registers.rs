use vstd::prelude::*;

verus! {

/// Address at which execution starts in a fresh register file.
pub const PC_START: u16 = 0x3000;

/// The condition flag: exactly one of negative, zero and positive.
#[derive(Clone, Copy, Debug, PartialEq, Eq, Structural)]
pub enum CondFlag {
    Pos,
    Zero,
    Neg,
}

impl CondFlag {
    /// The flag's bit in the `nzp` field of a branch instruction.
    pub open spec fn spec_bits(self) -> u16 {
        match self {
            CondFlag::Pos => 0b001,
            CondFlag::Zero => 0b010,
            CondFlag::Neg => 0b100,
        }
    }

    /// Returns the flag's bit in the `nzp` field of a branch instruction.
    pub fn bits(self) -> (r: u16)
        ensures
            r == self.spec_bits(),
    {
        match self {
            CondFlag::Pos => 0b001,
            CondFlag::Zero => 0b010,
            CondFlag::Neg => 0b100,
        }
    }
}

/// The flag that describes the sign of `value` read as a two's-complement word.
pub open spec fn flag_of(value: u16) -> CondFlag {
    if value == 0 {
        CondFlag::Zero
    } else if value >= 0x8000 {
        CondFlag::Neg
    } else {
        CondFlag::Pos
    }
}

/// The flag of a value is zero exactly when the value is zero, negative exactly
/// when its bit 15 is set, and positive otherwise.
pub proof fn lemma_flag_of(value: u16)
    ensures
        (flag_of(value) == CondFlag::Zero) == (value == 0),
        (flag_of(value) == CondFlag::Neg) == ((value >> 15u16) & 1u16 == 1u16),
        (flag_of(value) == CondFlag::Pos) == (value != 0 && (value >> 15u16) & 1u16 == 0u16),
{
    assert(((value >> 15u16) & 1u16 == 1u16) == (value >= 0x8000u16)) by (bit_vector);
    assert(((value >> 15u16) & 1u16 == 0u16) == (value < 0x8000u16)) by (bit_vector);
}

/// The register file: eight general-purpose registers, the program counter and
/// the condition flag.
pub struct Registers {
    /// The general-purpose registers R0 to R7.
    pub base_regs: [u16; 8],
    /// Program counter: the address of the next instruction to fetch.
    pub pc: u16,
    /// Condition flag, set from the sign of the last value written by an
    /// instruction that updates it.
    pub cond: CondFlag,
}

impl View for Registers {
    /// The general-purpose registers R0 to R7, in order.
    type V = Seq<u16>;

    open spec fn view(&self) -> Seq<u16> {
        self.base_regs@
    }
}

impl Registers {
    /// Creates a register file with all registers zero, the flag at zero and the
    /// program counter at the start address.
    pub fn new() -> (r: Self)
        ensures
            r@ == Seq::new(8, |i: int| 0u16),
            r.pc == PC_START,
            r.cond == CondFlag::Zero,
    {
        let r = Self { base_regs: [0; 8], pc: PC_START, cond: CondFlag::Zero };
        assert(r@ =~= Seq::new(8, |i: int| 0u16));
        r
    }

    /// Returns the value of general-purpose register `base_register_index`.
    pub fn read(&self, base_register_index: u16) -> (r: u16)
        requires
            base_register_index < 8,
        ensures
            r == self@[base_register_index as int],
    {
        self.base_regs[base_register_index as usize]
    }

    /// Writes `value` to general-purpose register `base_register_index`.
    pub fn write(&mut self, base_register_index: u16, value: u16)
        requires
            base_register_index < 8,
        ensures
            final(self)@ == old(self)@.update(base_register_index as int, value),
            final(self).pc == old(self).pc,
            final(self).cond == old(self).cond,
    {
        self.base_regs[base_register_index as usize] = value;
    }

    /// Sets the flag from the sign of `last_value`.
    pub fn update_cond_flags(&mut self, last_value: u16)
        ensures
            final(self)@ == old(self)@,
            final(self).pc == old(self).pc,
            final(self).cond == flag_of(last_value),
    {
        assert((last_value >> 15u16 == 1u16) == (last_value >= 0x8000u16)) by (bit_vector);
        self.cond = if last_value == 0x0 {
            CondFlag::Zero
        } else if last_value >> 15 == 0x1 {
            CondFlag::Neg
        } else {
            CondFlag::Pos
        };
    }
}

} // verus!
