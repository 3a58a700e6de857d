//! The semantics of each instruction. An instruction is one 16-bit word; its
//! top four bits select the [`Opcode`](crate::opcode::Opcode) and the other
//! twelve are read per instruction as below. Every function runs after the
//! program counter has been advanced past the instruction, so offsets are
//! relative to the next instruction.
use crate::bits::{sign_extend, sign_extended};
use crate::console::{outputs, Console, IoByte, Terminal};
use crate::memory::{read_effect, Memory};
use crate::registers::{flag_of, CondFlag, Registers};
use crate::trap::{
    self as service, chars_of, clear_of_keyboard, halt_notice, in_prompt, low_byte,
    only_keyboard_changed, packed_chars_of, terminated_at, trap_code_of, TrapCode,
};
use vstd::arithmetic::power2::lemma2_to64;
use vstd::prelude::*;

verus! {

/// The sum of two words, modulo 2^16.
pub open spec fn add16(a: u16, b: u16) -> u16 {
    ((a + b) % 0x1_0000) as u16
}

/// The three-bit register field that starts at bit `shift`.
pub open spec fn reg_at(instr: u16, shift: u16) -> u16 {
    (instr >> shift) & 7u16
}

/// The destination (or, for stores, source) register: bits 11 to 9.
pub open spec fn dr(instr: u16) -> u16 {
    reg_at(instr, 9)
}

/// The first source (or base) register: bits 8 to 6.
pub open spec fn sr1(instr: u16) -> u16 {
    reg_at(instr, 6)
}

/// The second source register: bits 2 to 0.
pub open spec fn sr2(instr: u16) -> u16 {
    reg_at(instr, 0)
}

/// Whether bit 5 selects the immediate form of `ADD` and `AND`.
pub open spec fn imm_mode(instr: u16) -> bool {
    (instr >> 5u16) & 1u16 == 1u16
}

/// The sign-extended 5-bit immediate: bits 4 to 0.
pub open spec fn imm5(instr: u16) -> u16 {
    sign_extended(instr & 0x1Fu16, 5)
}

/// The sign-extended 6-bit base offset: bits 5 to 0.
pub open spec fn offset6(instr: u16) -> u16 {
    sign_extended(instr & 0x3Fu16, 6)
}

/// The sign-extended 9-bit PC offset: bits 8 to 0.
pub open spec fn pc_offset9(instr: u16) -> u16 {
    sign_extended(instr & 0x1FFu16, 9)
}

/// The sign-extended 11-bit PC offset: bits 10 to 0.
pub open spec fn pc_offset11(instr: u16) -> u16 {
    sign_extended(instr & 0x7FFu16, 11)
}

/// The second operand of `ADD` and `AND`: the immediate, or register SR2.
pub open spec fn operand2(instr: u16, regs: Seq<u16>) -> u16 {
    if imm_mode(instr) {
        imm5(instr)
    } else {
        regs[sr2(instr) as int]
    }
}

/// Whether a branch with these `nzp` bits is taken under flag `cond`.
pub open spec fn branch_taken(instr: u16, cond: CondFlag) -> bool {
    (instr >> 9u16) & cond.spec_bits() != 0
}

/// The address of a PC-relative operand.
pub open spec fn pc_relative(instr: u16, regs: &Registers) -> u16 {
    add16(regs.pc, pc_offset9(instr))
}

/// The address of a base-plus-offset operand.
pub open spec fn base_relative(instr: u16, regs: &Registers) -> u16 {
    add16(regs@[sr1(instr) as int], offset6(instr))
}

fn reg_field(instr: u16, shift: u16) -> (r: u16)
    requires
        shift < 16,
    ensures
        r == reg_at(instr, shift),
        r < 8,
{
    assert((instr >> shift) & 7u16 < 8u16) by (bit_vector);
    (instr >> shift) & 0x7
}

fn imm5_field(instr: u16) -> (r: u16)
    ensures
        r == imm5(instr),
{
    proof {
        lemma2_to64();
    }
    assert(instr & 0x1Fu16 <= 0x1Fu16) by (bit_vector);
    sign_extend(instr & 0x1F, 5)
}

fn offset6_field(instr: u16) -> (r: u16)
    ensures
        r == offset6(instr),
{
    proof {
        lemma2_to64();
    }
    assert(instr & 0x3Fu16 <= 0x3Fu16) by (bit_vector);
    sign_extend(instr & 0x3F, 6)
}

fn pc_offset9_field(instr: u16) -> (r: u16)
    ensures
        r == pc_offset9(instr),
{
    proof {
        lemma2_to64();
    }
    assert(instr & 0x1FFu16 <= 0x1FFu16) by (bit_vector);
    sign_extend(instr & 0x1FF, 9)
}

fn pc_offset11_field(instr: u16) -> (r: u16)
    ensures
        r == pc_offset11(instr),
{
    proof {
        lemma2_to64();
    }
    assert(instr & 0x7FFu16 <= 0x7FFu16) by (bit_vector);
    sign_extend(instr & 0x7FF, 11)
}

/// `r1` is `r0` with register `d` set to `v`, the flag set from `v` and the
/// program counter kept.
pub open spec fn sets_reg(r0: Registers, r1: Registers, d: u16, v: u16) -> bool {
    &&& r1@ == r0@.update(d as int, v)
    &&& r1.pc == r0.pc
    &&& r1.cond == flag_of(v)
}

/// `r1` is `r0` with the program counter set to `pc`.
pub open spec fn jumps(r0: Registers, r1: Registers, pc: u16) -> bool {
    &&& r1@ == r0@
    &&& r1.cond == r0.cond
    &&& r1.pc == pc
}

/// The effect of `BR` on the registers.
pub open spec fn br_effect(instr: u16, r0: Registers, r1: Registers) -> bool {
    jumps(
        r0,
        r1,
        if branch_taken(instr, r0.cond) {
            add16(r0.pc, pc_offset9(instr))
        } else {
            r0.pc
        },
    )
}

/// The effect of `ADD` on the registers.
pub open spec fn add_effect(instr: u16, r0: Registers, r1: Registers) -> bool {
    sets_reg(r0, r1, dr(instr), add16(r0@[sr1(instr) as int], operand2(instr, r0@)))
}

/// The effect of `AND` on the registers.
pub open spec fn and_effect(instr: u16, r0: Registers, r1: Registers) -> bool {
    sets_reg(r0, r1, dr(instr), r0@[sr1(instr) as int] & operand2(instr, r0@))
}

/// The effect of `NOT` on the registers.
pub open spec fn not_effect(instr: u16, r0: Registers, r1: Registers) -> bool {
    sets_reg(r0, r1, dr(instr), !r0@[sr1(instr) as int])
}

/// The effect of `JMP` on the registers.
pub open spec fn jmp_effect(instr: u16, r0: Registers, r1: Registers) -> bool {
    jumps(r0, r1, r0@[sr1(instr) as int])
}

/// The effect of `JSR` / `JSRR` on the registers: R7 takes the program counter,
/// and BaseR is read after that write.
pub open spec fn jsr_effect(instr: u16, r0: Registers, r1: Registers) -> bool {
    let saved = r0@.update(7, r0.pc);
    &&& r1@ == saved
    &&& r1.cond == r0.cond
    &&& r1.pc == if (instr >> 11u16) & 1u16 == 1u16 {
        add16(r0.pc, pc_offset11(instr))
    } else {
        saved[sr1(instr) as int]
    }
}

/// The effect of `LEA` on the registers.
pub open spec fn lea_effect(instr: u16, r0: Registers, r1: Registers) -> bool {
    sets_reg(r0, r1, dr(instr), pc_relative(instr, &r0))
}

/// The effect of a load from `a`: the read of `a` takes memory `m0` to `m1`, and
/// what it read goes to DR.
pub open spec fn loads(
    instr: u16,
    a: u16,
    r0: Registers,
    m0: Seq<u16>,
    r1: Registers,
    m1: Seq<u16>,
) -> bool {
    &&& read_effect(m0, a, m1, m1[a as int])
    &&& sets_reg(r0, r1, dr(instr), m1[a as int])
}

/// The effect of `LD`.
pub open spec fn ld_effect(
    instr: u16,
    r0: Registers,
    m0: Seq<u16>,
    r1: Registers,
    m1: Seq<u16>,
) -> bool {
    loads(instr, pc_relative(instr, &r0), r0, m0, r1, m1)
}

/// The effect of `LDR`.
pub open spec fn ldr_effect(
    instr: u16,
    r0: Registers,
    m0: Seq<u16>,
    r1: Registers,
    m1: Seq<u16>,
) -> bool {
    loads(instr, base_relative(instr, &r0), r0, m0, r1, m1)
}

/// The effect of `LDI`: `mid` is the memory between the read of the pointer and
/// the read of the value; it differs from `m0` only where the first read polled
/// the keyboard.
pub open spec fn ldi_effect(
    instr: u16,
    r0: Registers,
    m0: Seq<u16>,
    r1: Registers,
    m1: Seq<u16>,
) -> bool {
    exists|mid: Seq<u16>|
        #![trigger mid[pc_relative(instr, &r0) as int]]
        {
            let a = pc_relative(instr, &r0);
            &&& read_effect(m0, a, mid, mid[a as int])
            &&& loads(instr, mid[a as int], r0, mid, r1, m1)
        }
}

/// The effect of `ST` on memory.
pub open spec fn st_effect(instr: u16, r0: Registers, m0: Seq<u16>, m1: Seq<u16>) -> bool {
    m1 == m0.update(pc_relative(instr, &r0) as int, r0@[dr(instr) as int])
}

/// The effect of `STR` on memory.
pub open spec fn str_effect(instr: u16, r0: Registers, m0: Seq<u16>, m1: Seq<u16>) -> bool {
    m1 == m0.update(base_relative(instr, &r0) as int, r0@[dr(instr) as int])
}

/// The effect of `STI` on memory: `mid` is the memory after the read of the
/// pointer.
pub open spec fn sti_effect(instr: u16, r0: Registers, m0: Seq<u16>, m1: Seq<u16>) -> bool {
    exists|mid: Seq<u16>|
        #![trigger mid[pc_relative(instr, &r0) as int]]
        {
            let a = pc_relative(instr, &r0);
            &&& read_effect(m0, a, mid, mid[a as int])
            &&& m1 == mid.update(mid[a as int] as int, r0@[dr(instr) as int])
        }
}

/// The trap vector of a `TRAP` instruction: bits 7 to 0.
pub open spec fn trap_vector(instr: u16) -> u16 {
    instr & 0xFFu16
}

/// The effect of `TRAP`, whose service is `code`, and whether it asks to halt.
pub open spec fn trap_effect(
    code: TrapCode,
    r0: Registers,
    m0: Seq<u16>,
    r1: Registers,
    m1: Seq<u16>,
    halt: bool,
) -> bool {
    &&& r1.pc == r0.pc
    &&& r1.cond == r0.cond
    &&& halt == (code == TrapCode::Halt)
    &&& match code {
        TrapCode::Getc | TrapCode::In => {
            &&& r1@ == r0@.update(0, r1@[0])
            &&& r1@[0] < 0x100
            &&& m1 == m0
        },
        TrapCode::Puts | TrapCode::Putsp => {
            &&& r1@ == r0@
            &&& only_keyboard_changed(m0, m1)
            &&& forall|k: int|
                #![trigger terminated_at(m0, r0@[0] as int, k)]
                terminated_at(m0, r0@[0] as int, k) && clear_of_keyboard(r0@[0] as int, k) ==> m1
                    == m0
        },
        _ => {
            &&& r1@ == r0@
            &&& m1 == m0
        },
    }
}

/// `AND` with an immediate of zero clears its destination register and sets the
/// flag to zero, whatever the registers held.
pub proof fn lemma_and_zero_immediate(instr: u16, r0: Registers, r1: Registers)
    requires
        imm_mode(instr),
        instr & 0x1Fu16 == 0,
        and_effect(instr, r0, r1),
    ensures
        r1@[dr(instr) as int] == 0,
        r1.cond == CondFlag::Zero,
{
    lemma2_to64();
    let x = r0@[sr1(instr) as int];
    assert(x & 0u16 == 0u16) by (bit_vector);
    assert(dr(instr) < 8) by (bit_vector);
    assert(r0@.len() == 8);
}

/// `BR`: when the `nzp` bits (11 to 9) include the current flag, adds the 9-bit
/// offset to the program counter.
pub fn br(instr: u16, regs: &mut Registers)
    ensures
        br_effect(instr, *old(regs), *final(regs)),
{
    // The AND with the flag's bit masks the field.
    let nzp = instr >> 9;
    if (nzp & regs.cond.bits()) > 0 {
        let pc_offset = pc_offset9_field(instr);
        regs.pc = regs.pc.wrapping_add(pc_offset);
    }
}

/// `ADD`: DR = SR1 + (SR2 or imm5), modulo 2^16; sets the flag.
pub fn add(instr: u16, regs: &mut Registers)
    ensures
        add_effect(instr, *old(regs), *final(regs)),
{
    let dest_reg = reg_field(instr, 9);
    let src_reg1 = reg_field(instr, 6);
    let value: u16;
    if (instr >> 5) & 0x1 == 1 {
        let imm = imm5_field(instr);
        value = regs.read(src_reg1).wrapping_add(imm);
    } else {
        let src_reg2 = reg_field(instr, 0);
        value = regs.read(src_reg1).wrapping_add(regs.read(src_reg2));
    }
    regs.write(dest_reg, value);
    regs.update_cond_flags(value);
}

/// `AND`: DR = SR1 & (SR2 or imm5); sets the flag.
pub fn and(instr: u16, regs: &mut Registers)
    ensures
        and_effect(instr, *old(regs), *final(regs)),
{
    let dest_reg = reg_field(instr, 9);
    let src_reg1 = reg_field(instr, 6);
    let value: u16;
    if (instr >> 5) & 0x1 == 1 {
        let imm = imm5_field(instr);
        value = regs.read(src_reg1) & imm;
    } else {
        let src_reg2 = reg_field(instr, 0);
        value = regs.read(src_reg1) & regs.read(src_reg2);
    }
    regs.write(dest_reg, value);
    regs.update_cond_flags(value);
}

/// `NOT`: DR = bitwise complement of SR; sets the flag.
pub fn not(instr: u16, regs: &mut Registers)
    ensures
        not_effect(instr, *old(regs), *final(regs)),
{
    let dest_reg = reg_field(instr, 9);
    let src_reg = reg_field(instr, 6);
    let value = !regs.read(src_reg);
    regs.write(dest_reg, value);
    regs.update_cond_flags(value);
}

/// `JMP` (and `RET`, its form with BaseR = R7): PC = BaseR.
pub fn jmp(instr: u16, regs: &mut Registers)
    ensures
        jmp_effect(instr, *old(regs), *final(regs)),
{
    let base_reg = reg_field(instr, 6);
    regs.pc = regs.read(base_reg);
}

/// `JSR` / `JSRR`: saves the program counter in R7, then jumps: by the 11-bit
/// offset when bit 11 is set, else to BaseR (read after R7 was written).
pub fn jsr(instr: u16, regs: &mut Registers)
    ensures
        jsr_effect(instr, *old(regs), *final(regs)),
{
    let pc = regs.pc;
    regs.write(7, pc);
    if (instr >> 11) & 0x1 == 1 {
        let pc_offset = pc_offset11_field(instr);
        regs.pc = regs.pc.wrapping_add(pc_offset);
    } else {
        let base_reg = reg_field(instr, 6);
        regs.pc = regs.read(base_reg);
    }
}

/// `LEA`: DR = PC + offset9; sets the flag.
pub fn lea(instr: u16, regs: &mut Registers)
    ensures
        lea_effect(instr, *old(regs), *final(regs)),
{
    let dest_reg = reg_field(instr, 9);
    let pc_offset = pc_offset9_field(instr);
    let value = regs.pc.wrapping_add(pc_offset);
    regs.write(dest_reg, value);
    regs.update_cond_flags(value);
}

/// `LD`: DR = Memory[PC + offset9]; sets the flag.
pub fn ld<C: Console>(instr: u16, regs: &mut Registers, mem: &mut Memory, console: &mut Terminal<C>)
    requires
        old(mem).wf(),
    ensures
        final(mem).wf(),
        ld_effect(instr, *old(regs), old(mem)@, *final(regs), final(mem)@),
{
    let dest_reg = reg_field(instr, 9);
    let pc_offset = pc_offset9_field(instr);
    let value = mem.read(regs.pc.wrapping_add(pc_offset), console);
    regs.write(dest_reg, value);
    regs.update_cond_flags(value);
}

/// `ST`: Memory[PC + offset9] = SR.
pub fn st(instr: u16, regs: &Registers, mem: &mut Memory)
    requires
        old(mem).wf(),
    ensures
        final(mem).wf(),
        st_effect(instr, *regs, old(mem)@, final(mem)@),
{
    let src_reg = reg_field(instr, 9);
    let pc_offset = pc_offset9_field(instr);
    let value = regs.read(src_reg);
    mem.write(regs.pc.wrapping_add(pc_offset), value);
}

/// `LDR`: DR = Memory[BaseR + offset6]; sets the flag.
pub fn ldr<C: Console>(instr: u16, regs: &mut Registers, mem: &mut Memory, console: &mut Terminal<C>)
    requires
        old(mem).wf(),
    ensures
        final(mem).wf(),
        ldr_effect(instr, *old(regs), old(mem)@, *final(regs), final(mem)@),
{
    let dest_reg = reg_field(instr, 9);
    let base_reg = reg_field(instr, 6);
    let offset = offset6_field(instr);
    let value = mem.read(regs.read(base_reg).wrapping_add(offset), console);
    regs.write(dest_reg, value);
    regs.update_cond_flags(value);
}

/// `STR`: Memory[BaseR + offset6] = SR.
pub fn str(instr: u16, regs: &Registers, mem: &mut Memory)
    requires
        old(mem).wf(),
    ensures
        final(mem).wf(),
        str_effect(instr, *regs, old(mem)@, final(mem)@),
{
    let src_reg = reg_field(instr, 9);
    let base_reg = reg_field(instr, 6);
    let offset = offset6_field(instr);
    let value = regs.read(src_reg);
    mem.write(regs.read(base_reg).wrapping_add(offset), value);
}

/// `LDI`: DR = Memory[Memory[PC + offset9]]; sets the flag.
pub fn ldi<C: Console>(instr: u16, regs: &mut Registers, mem: &mut Memory, console: &mut Terminal<C>)
    requires
        old(mem).wf(),
    ensures
        final(mem).wf(),
        ldi_effect(instr, *old(regs), old(mem)@, *final(regs), final(mem)@),
{
    let dest_reg = reg_field(instr, 9);
    let pc_offset = pc_offset9_field(instr);
    let mem_addr = mem.read(regs.pc.wrapping_add(pc_offset), console);
    let ghost mid = mem@;
    let value = mem.read(mem_addr, console);
    regs.write(dest_reg, value);
    regs.update_cond_flags(value);
    assert(mid[pc_relative(instr, old(regs)) as int] == mem_addr);
}

/// `STI`: Memory[Memory[PC + offset9]] = SR.
pub fn sti<C: Console>(instr: u16, regs: &Registers, mem: &mut Memory, console: &mut Terminal<C>)
    requires
        old(mem).wf(),
    ensures
        final(mem).wf(),
        sti_effect(instr, *regs, old(mem)@, final(mem)@),
{
    let src_reg = reg_field(instr, 9);
    let pc_offset = pc_offset9_field(instr);
    let mem_addr = mem.read(regs.pc.wrapping_add(pc_offset), console);
    let ghost mid = mem@;
    mem.write(mem_addr, regs.read(src_reg));
    assert(mid[pc_relative(instr, regs) as int] == mem_addr);
}

/// What the service `code` exchanges with the console, from log `l0` to log
/// `l1`, when run from registers `r0` and memory `m0` to registers `r1`.
pub open spec fn trap_output(
    code: TrapCode,
    r0: Registers,
    m0: Seq<u16>,
    r1: Registers,
    l0: Seq<IoByte>,
    l1: Seq<IoByte>,
) -> bool {
    match code {
        TrapCode::Getc => l1 == l0.push(IoByte::In(r1@[0] as u8)),
        TrapCode::In => l1 == (l0 + outputs(in_prompt())).push(IoByte::In(r1@[0] as u8)),
        TrapCode::Out => l1 == l0 + outputs(seq![low_byte(r0@[0])]),
        TrapCode::Puts => forall|k: int|
            #![trigger terminated_at(m0, r0@[0] as int, k)]
            terminated_at(m0, r0@[0] as int, k) && clear_of_keyboard(r0@[0] as int, k) ==> l1 == l0
                + outputs(chars_of(m0, r0@[0] as int, k)),
        TrapCode::Putsp => forall|k: int|
            #![trigger terminated_at(m0, r0@[0] as int, k)]
            terminated_at(m0, r0@[0] as int, k) && clear_of_keyboard(r0@[0] as int, k) ==> l1 == l0
                + outputs(packed_chars_of(m0, r0@[0] as int, k)),
        TrapCode::Halt => l1 == l0 + outputs(halt_notice()),
    }
}

/// `TRAP`: runs the service that the trap vector names and returns whether the
/// machine should halt, which only `HALT` asks for.
pub fn trap<C: Console>(instr: u16, regs: &mut Registers, mem: &mut Memory, console: &mut Terminal<C>) -> (r:
    bool)
    requires
        old(mem).wf(),
        trap_code_of(trap_vector(instr)) is Some,
    ensures
        trap_output(
            trap_code_of(trap_vector(instr))->Some_0,
            *old(regs),
            old(mem)@,
            *final(regs),
            old(console).log@,
            final(console).log@,
        ),
        final(mem).wf(),
        trap_effect(
            trap_code_of(trap_vector(instr))->Some_0,
            *old(regs),
            old(mem)@,
            *final(regs),
            final(mem)@,
            r,
        ),
{
    let trapvector = instr & 0xFF;
    let trap_code = match TrapCode::try_from(trapvector) {
        Ok(code) => code,
        Err(_) => {
            assert(false);
            TrapCode::Halt
        },
    };
    match trap_code {
        TrapCode::Getc => service::getc(regs, console),
        TrapCode::Out => service::out(regs, console),
        TrapCode::Puts => service::puts(regs, mem, console),
        TrapCode::In => service::in_char(regs, console),
        TrapCode::Putsp => service::putsp(regs, mem, console),
        TrapCode::Halt => {
            service::halt(console);
            return true;
        },
    }
    false
}

} // verus!
