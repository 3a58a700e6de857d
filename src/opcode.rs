use vstd::prelude::*;

verus! {

/// The sixteen instruction kinds, selected by bits 15 to 12 of an instruction.
#[derive(Clone, Copy, Debug, PartialEq, Eq, Structural)]
pub enum Opcode {
    /// Add
    Add,
    /// Branch
    Br,
    /// Load
    Ld,
    /// Store
    St,
    /// Jump to subroutine
    Jsr,
    /// Bitwise AND
    And,
    /// Load base + offset
    Ldr,
    /// Store base + offset
    Str,
    /// Return from interrupt (unused)
    Rti,
    /// Bitwise NOT
    Not,
    /// Load indirect
    Ldi,
    /// Store indirect
    Sti,
    /// Jump
    Jmp,
    /// Reserved (unused)
    Res,
    /// Load effective address
    Lea,
    /// System call
    Trap,
}

/// The instruction kind that the 4-bit field `value` names, if it is a 4-bit value.
pub open spec fn opcode_of(value: u16) -> Option<Opcode> {
    match value {
        0b0000 => Some(Opcode::Br),
        0b0001 => Some(Opcode::Add),
        0b0010 => Some(Opcode::Ld),
        0b0011 => Some(Opcode::St),
        0b0100 => Some(Opcode::Jsr),
        0b0101 => Some(Opcode::And),
        0b0110 => Some(Opcode::Ldr),
        0b0111 => Some(Opcode::Str),
        0b1000 => Some(Opcode::Rti),
        0b1001 => Some(Opcode::Not),
        0b1010 => Some(Opcode::Ldi),
        0b1011 => Some(Opcode::Sti),
        0b1100 => Some(Opcode::Jmp),
        0b1101 => Some(Opcode::Res),
        0b1110 => Some(Opcode::Lea),
        0b1111 => Some(Opcode::Trap),
        _ => None,
    }
}

impl TryFrom<u16> for Opcode {
    type Error = ();

    fn try_from(value: u16) -> (r: Result<Self, ()>)
        ensures
            r == match opcode_of(value) {
                Some(op) => Ok::<Opcode, ()>(op),
                None => Err(()),
            },
    {
        let opcode = match value {
            0b0000 => Opcode::Br,
            0b0001 => Opcode::Add,
            0b0010 => Opcode::Ld,
            0b0011 => Opcode::St,
            0b0100 => Opcode::Jsr,
            0b0101 => Opcode::And,
            0b0110 => Opcode::Ldr,
            0b0111 => Opcode::Str,
            0b1000 => Opcode::Rti,
            0b1001 => Opcode::Not,
            0b1010 => Opcode::Ldi,
            0b1011 => Opcode::Sti,
            0b1100 => Opcode::Jmp,
            0b1101 => Opcode::Res,
            0b1110 => Opcode::Lea,
            0b1111 => Opcode::Trap,
            _ => return Err(()),
        };
        Ok(opcode)
    }
}

impl vstd::std_specs::convert::TryFromSpecImpl<u16> for Opcode {
    open spec fn obeys_try_from_spec() -> bool {
        true
    }

    open spec fn try_from_spec(value: u16) -> Result<Self, ()> {
        match opcode_of(value) {
            Some(op) => Ok(op),
            None => Err(()),
        }
    }
}

} // verus!
