//! The machine: registers, memory and the fetch-decode-execute cycle.
use crate::console::{Console, Terminal};
use crate::instructions::{
    self, add16, add_effect, and_effect, br_effect, jmp_effect, jsr_effect, ld_effect, ldi_effect,
    ldr_effect, lea_effect, not_effect, st_effect, sti_effect, str_effect, trap_effect,
    trap_vector,
};
use crate::memory::{read_effect, Memory, MEMORY_SIZE};
use crate::opcode::{opcode_of, Opcode};
use crate::registers::{CondFlag, Registers, PC_START};
use crate::trap::{trap_code_of, TrapCode};
use byteorder::{BigEndian, ByteOrder};
use vstd::prelude::*;

verus! {

/// Why a program image could not be loaded.
#[derive(Clone, Copy, Debug, PartialEq, Eq, Structural)]
pub enum LoadError {
    /// The image is shorter than its two-byte origin.
    MissingOrigin,
}

/// Why execution stopped on a fatal error.
#[derive(Clone, Copy, Debug, PartialEq, Eq, Structural)]
pub enum ExecError {
    /// The instruction's opcode has no semantics here (`RTI` or the reserved one).
    IllegalOpcode(Opcode),
    /// The `TRAP` instruction names no built-in service.
    UnsupportedTrap(u16),
}

/// The big-endian word at bytes `i` and `i + 1` of `image`.
pub open spec fn be_word(image: Seq<u8>, i: int) -> u16 {
    (image[i] * 0x100 + image[i + 1]) as u16
}

/// The number of words that loading `image` writes: those that follow the
/// origin, but not past the end of the address space.
pub open spec fn loaded_words(image: Seq<u8>) -> int {
    let origin = be_word(image, 0) as int;
    let words = (image.len() - 2) / 2;
    if words < MEMORY_SIZE - origin {
        words
    } else {
        MEMORY_SIZE - origin
    }
}

/// Memory `m` after loading `image`, which holds at least its origin.
pub open spec fn loaded(m: Seq<u16>, image: Seq<u8>) -> Seq<u16> {
    let origin = be_word(image, 0) as int;
    Seq::new(
        m.len(),
        |a: int|
            if origin <= a < origin + loaded_words(image) {
                be_word(image, 2 + 2 * (a - origin))
            } else {
                m[a]
            },
    )
}

/// Registers `r` with the program counter advanced past one instruction.
pub open spec fn advanced(r: Registers) -> Registers {
    Registers { base_regs: r.base_regs, pc: add16(r.pc, 1), cond: r.cond }
}

/// What executing `instr` from registers `r0` (the program counter already
/// advanced) and memory `m0` leads to: registers `r1`, memory `m1`, and `outcome`,
/// which is whether the machine should halt, or the fatal error.
pub open spec fn execute_effect(
    instr: u16,
    r0: Registers,
    m0: Seq<u16>,
    r1: Registers,
    m1: Seq<u16>,
    outcome: Result<bool, ExecError>,
) -> bool {
    let unchanged = r1 == r0 && m1 == m0;
    let mem_kept = m1 == m0 && outcome == Ok::<bool, ExecError>(false);
    let regs_kept = r1 == r0 && outcome == Ok::<bool, ExecError>(false);
    match opcode_of(instr >> 12u16) {
        Some(Opcode::Br) => br_effect(instr, r0, r1) && mem_kept,
        Some(Opcode::Add) => add_effect(instr, r0, r1) && mem_kept,
        Some(Opcode::Ld) => ld_effect(instr, r0, m0, r1, m1) && outcome == Ok::<bool, ExecError>(
            false,
        ),
        Some(Opcode::St) => st_effect(instr, r0, m0, m1) && regs_kept,
        Some(Opcode::Jsr) => jsr_effect(instr, r0, r1) && mem_kept,
        Some(Opcode::And) => and_effect(instr, r0, r1) && mem_kept,
        Some(Opcode::Ldr) => ldr_effect(instr, r0, m0, r1, m1) && outcome == Ok::<bool, ExecError>(
            false,
        ),
        Some(Opcode::Str) => str_effect(instr, r0, m0, m1) && regs_kept,
        Some(Opcode::Not) => not_effect(instr, r0, r1) && mem_kept,
        Some(Opcode::Ldi) => ldi_effect(instr, r0, m0, r1, m1) && outcome == Ok::<bool, ExecError>(
            false,
        ),
        Some(Opcode::Sti) => sti_effect(instr, r0, m0, m1) && regs_kept,
        Some(Opcode::Jmp) => jmp_effect(instr, r0, r1) && mem_kept,
        Some(Opcode::Lea) => lea_effect(instr, r0, r1) && mem_kept,
        Some(Opcode::Trap) => match trap_code_of(trap_vector(instr)) {
            Some(code) => match outcome {
                Ok(halt) => trap_effect(code, r0, m0, r1, m1, halt),
                Err(_) => false,
            },
            None => unchanged && outcome == Err::<bool, ExecError>(
                ExecError::UnsupportedTrap(trap_vector(instr)),
            ),
        },
        Some(op) => unchanged && outcome == Err::<bool, ExecError>(ExecError::IllegalOpcode(op)),
        None => false,
    }
}

/// The instruction at `r0.pc` is fetched from memory `m0` and executed, which
/// leads to registers `r1`, memory `m1` and `outcome`.
pub open spec fn step_effect(
    r0: Registers,
    m0: Seq<u16>,
    r1: Registers,
    m1: Seq<u16>,
    outcome: Result<bool, ExecError>,
) -> bool {
    exists|mid: Seq<u16>|
        #![trigger mid[r0.pc as int]]
        {
            let instr = mid[r0.pc as int];
            &&& read_effect(m0, r0.pc, mid, instr)
            &&& execute_effect(instr, advanced(r0), mid, r1, m1, outcome)
        }
}

/// `regs` and `mems` list the states of `n` instructions in a row, each of which
/// neither halts nor fails.
pub open spec fn trace(regs: Seq<Registers>, mems: Seq<Seq<u16>>, n: nat) -> bool {
    &&& regs.len() == n + 1
    &&& mems.len() == n + 1
    &&& forall|i: int|
        0 <= i < n ==> #[trigger] step_effect(
            regs[i],
            mems[i],
            regs[i + 1],
            mems[i + 1],
            Ok::<bool, ExecError>(false),
        )
}

/// `n` instructions, each of which neither halts nor fails, lead from registers
/// `r0` and memory `m0` to registers `r1` and memory `m1`.
pub open spec fn runs(r0: Registers, m0: Seq<u16>, r1: Registers, m1: Seq<u16>, n: nat) -> bool {
    exists|regs: Seq<Registers>, mems: Seq<Seq<u16>>|
        #![trigger trace(regs, mems, n)]
        {
            &&& trace(regs, mems, n)
            &&& regs[0] == r0
            &&& mems[0] == m0
            &&& regs[n as int] == r1
            &&& mems[n as int] == m1
        }
}

/// `n` instructions that neither halt nor fail, then one more whose outcome is
/// `outcome`, lead from `r0`, `m0` to `r1`, `m1`.
pub open spec fn runs_then(
    r0: Registers,
    m0: Seq<u16>,
    r1: Registers,
    m1: Seq<u16>,
    n: nat,
    outcome: Result<bool, ExecError>,
) -> bool {
    exists|rm: Registers, mm: Seq<u16>|
        #![trigger runs(r0, m0, rm, mm, n)]
        runs(r0, m0, rm, mm, n) && step_effect(rm, mm, r1, m1, outcome)
}

/// One more instruction that goes on extends a run by one.
proof fn lemma_runs_extend(
    r0: Registers,
    m0: Seq<u16>,
    rm: Registers,
    mm: Seq<u16>,
    r1: Registers,
    m1: Seq<u16>,
    n: nat,
)
    requires
        runs(r0, m0, rm, mm, n),
        step_effect(rm, mm, r1, m1, Ok::<bool, ExecError>(false)),
    ensures
        runs(r0, m0, r1, m1, n + 1),
{
    let (regs, mems) = choose|regs: Seq<Registers>, mems: Seq<Seq<u16>>|
        {
            &&& trace(regs, mems, n)
            &&& regs[0] == r0
            &&& mems[0] == m0
            &&& regs[n as int] == rm
            &&& mems[n as int] == mm
        };
    let regs2 = regs.push(r1);
    let mems2 = mems.push(m1);
    assert forall|i: int| 0 <= i < n + 1 implies #[trigger] step_effect(
        regs2[i],
        mems2[i],
        regs2[i + 1],
        mems2[i + 1],
        Ok::<bool, ExecError>(false),
    ) by {
        if i < n {
            assert(step_effect(regs[i], mems[i], regs[i + 1], mems[i + 1], Ok::<bool, ExecError>(false)));
        }
    }
    assert(trace(regs2, mems2, n + 1));
}

/// What running a machine with registers `r0` and memory `m0` for at most
/// `max_steps` instructions leads to: registers `r1`, memory `m1`, whether it
/// still runs, and the result. `Ok(n)` counts the instructions executed: either
/// all `max_steps` of them went on, or the last of them halted. `Err(e)` is the
/// fatal error of the instruction after those that went on.
pub open spec fn loop_effect(
    r0: Registers,
    m0: Seq<u16>,
    r1: Registers,
    m1: Seq<u16>,
    running: bool,
    max_steps: u64,
    result: Result<u64, ExecError>,
) -> bool {
    match result {
        Ok(n) => n <= max_steps && if running {
            n == max_steps && runs(r0, m0, r1, m1, n as nat)
        } else {
            n >= 1 && runs_then(r0, m0, r1, m1, (n - 1) as nat, Ok::<bool, ExecError>(true))
        },
        Err(e) => running && exists|k: nat|
            k < max_steps && #[trigger] runs_then(r0, m0, r1, m1, k, Err::<bool, ExecError>(e)),
    }
}

/// A `TRAP` with the `HALT` vector asks the machine to halt and changes no
/// register and no memory word.
pub proof fn lemma_halt_changes_nothing(
    instr: u16,
    r0: Registers,
    m0: Seq<u16>,
    r1: Registers,
    m1: Seq<u16>,
    outcome: Result<bool, ExecError>,
)
    requires
        instr >> 12u16 == 0b1111,
        trap_vector(instr) == 0x25,
        execute_effect(instr, r0, m0, r1, m1, outcome),
    ensures
        outcome == Ok::<bool, ExecError>(true),
        r1 == r0,
        m1 == m0,
{
    assert(r1@ =~= r0@);
    assert(r1.base_regs@ == r1@ && r0.base_regs@ == r0@);
    assert(r1.base_regs == r0.base_regs);
}

/// Relies on byteorder's `BigEndian::read_u16`: the word whose high byte is
/// `buf[pos]` and whose low byte is `buf[pos + 1]`.
#[verifier::external_body]
fn read_be_u16(buf: &[u8], pos: usize) -> (r: u16)
    requires
        pos + 2 <= buf@.len(),
    ensures
        r == be_word(buf@, pos as int),
{
    BigEndian::read_u16(&buf[pos..])
}

/// An execution session: one register file, one memory, and whether it runs.
pub struct Vm {
    /// The register file.
    pub regs: Registers,
    /// The memory.
    pub mem: Memory,
    /// Whether the machine is running.
    pub running: bool,
}

impl Vm {
    /// Holds when the memory covers the address space.
    pub open spec fn wf(&self) -> bool {
        self.mem.wf()
    }

    /// Creates a stopped machine with fresh registers and zeroed memory.
    pub fn new() -> (r: Self)
        ensures
            r.wf(),
            r.regs@ == Seq::new(8, |i: int| 0u16),
            r.regs.pc == PC_START,
            r.regs.cond == CondFlag::Zero,
            r.mem@ == Seq::new(MEMORY_SIZE as nat, |i: int| 0u16),
            !r.running,
    {
        Self { regs: Registers::new(), mem: Memory::new(), running: false }
    }

    /// Loads a program image: a big-endian origin, then big-endian words, which
    /// are written from the origin on until the image or the address space ends.
    /// A trailing odd byte is ignored. Fails, changing nothing, when the image
    /// holds no origin.
    pub fn load_program(&mut self, image: &[u8]) -> (r: Result<(), LoadError>)
        requires
            old(self).wf(),
        ensures
            final(self).wf(),
            final(self).regs == old(self).regs,
            final(self).running == old(self).running,
            r is Err <==> image@.len() < 2,
            r is Err ==> r == Err::<(), LoadError>(LoadError::MissingOrigin) && final(self).mem@
                == old(self).mem@,
            r is Ok ==> final(self).mem@ == loaded(old(self).mem@, image@),
    {
        if image.len() < 2 {
            return Err(LoadError::MissingOrigin);
        }
        let origin = read_be_u16(image, 0);
        let ghost m0 = self.mem@;
        let ghost n = loaded_words(image@);
        let mut address: u32 = origin as u32;
        let mut pos: usize = 2;
        while address < MEMORY_SIZE as u32 && pos + 1 < image.len()
            invariant
                self.wf(),
                self.regs == old(self).regs,
                self.running == old(self).running,
                n == loaded_words(image@),
                origin == be_word(image@, 0),
                origin <= address <= MEMORY_SIZE,
                pos == 2 + 2 * (address - origin),
                pos <= image@.len(),
                address - origin <= n,
                self.mem@.len() == m0.len(),
                forall|a: int|
                    0 <= a < MEMORY_SIZE ==> #[trigger] self.mem@[a] == if origin <= a < address {
                        be_word(image@, 2 + 2 * (a - origin))
                    } else {
                        m0[a]
                    },
            decreases MEMORY_SIZE - address,
        {
            assert(address - origin + 1 <= (image@.len() - 2) / 2);
            let word = read_be_u16(image, pos);
            self.mem.write(address as u16, word);
            address = address + 1;
            pos = pos + 2;
        }
        assert(address - origin == n);
        assert(self.mem@ =~= loaded(m0, image@));
        Ok(())
    }

    /// Starts the machine and runs it for at most `max_steps` instructions, as
    /// [`Vm::main_loop`] does.
    pub fn run<C: Console>(&mut self, console: &mut Terminal<C>, max_steps: u64) -> (r: Result<
        u64,
        ExecError,
    >)
        requires
            old(self).wf(),
        ensures
            final(self).wf(),
            loop_effect(
                old(self).regs,
                old(self).mem@,
                final(self).regs,
                final(self).mem@,
                final(self).running,
                max_steps,
                r,
            ),
    {
        self.running = true;
        self.main_loop(console, max_steps)
    }

    /// Stops the machine before its next instruction.
    pub fn abort(&mut self)
        ensures
            final(self).regs == old(self).regs,
            final(self).mem == old(self).mem,
            !final(self).running,
    {
        self.running = false;
    }

    /// Executes one instruction: fetches the word at the program counter,
    /// advances the counter, and carries the instruction out. Returns whether it
    /// asked to halt, which stops the machine, or the fatal error that it met.
    pub fn step<C: Console>(&mut self, console: &mut Terminal<C>) -> (r: Result<bool, ExecError>)
        requires
            old(self).wf(),
        ensures
            final(self).wf(),
            step_effect(old(self).regs, old(self).mem@, final(self).regs, final(self).mem@, r),
            final(self).running == (old(self).running && r != Ok::<bool, ExecError>(true)),
    {
        let pc = self.regs.pc;
        let instr = self.mem.read(pc, console);
        let ghost mid = self.mem@;
        self.regs.pc = pc.wrapping_add(1);
        assert(self.regs == advanced(old(self).regs));
        assert(instr >> 12u16 < 16u16) by (bit_vector);
        let opcode = match Opcode::try_from(instr >> 12) {
            Ok(op) => op,
            Err(_) => {
                assert(false);
                Opcode::Rti
            },
        };
        let regs = &mut self.regs;
        let mem = &mut self.mem;
        let r = match opcode {
            Opcode::Br => {
                instructions::br(instr, regs);
                Ok(false)
            },
            Opcode::Add => {
                instructions::add(instr, regs);
                Ok(false)
            },
            Opcode::Ld => {
                instructions::ld(instr, regs, mem, console);
                Ok(false)
            },
            Opcode::St => {
                instructions::st(instr, regs, mem);
                Ok(false)
            },
            Opcode::Jsr => {
                instructions::jsr(instr, regs);
                Ok(false)
            },
            Opcode::And => {
                instructions::and(instr, regs);
                Ok(false)
            },
            Opcode::Ldr => {
                instructions::ldr(instr, regs, mem, console);
                Ok(false)
            },
            Opcode::Str => {
                instructions::str(instr, regs, mem);
                Ok(false)
            },
            Opcode::Not => {
                instructions::not(instr, regs);
                Ok(false)
            },
            Opcode::Ldi => {
                instructions::ldi(instr, regs, mem, console);
                Ok(false)
            },
            Opcode::Sti => {
                instructions::sti(instr, regs, mem, console);
                Ok(false)
            },
            Opcode::Jmp => {
                instructions::jmp(instr, regs);
                Ok(false)
            },
            Opcode::Lea => {
                instructions::lea(instr, regs);
                Ok(false)
            },
            Opcode::Trap => {
                let vector = instr & 0xFF;
                match TrapCode::try_from(vector) {
                    Ok(_) => Ok(instructions::trap(instr, regs, mem, console)),
                    Err(_) => Err(ExecError::UnsupportedTrap(vector)),
                }
            },
            Opcode::Rti | Opcode::Res => Err(ExecError::IllegalOpcode(opcode)),
        };
        if let Ok(true) = r {
            self.running = false;
        }
        assert(mid[old(self).regs.pc as int] == instr);
        r
    }

    /// Executes instructions while the machine runs, at most `max_steps` of them,
    /// and returns how many it executed; stops at the first fatal error.
    pub fn main_loop<C: Console>(&mut self, console: &mut Terminal<C>, max_steps: u64) -> (r: Result<
        u64,
        ExecError,
    >)
        requires
            old(self).wf(),
        ensures
            final(self).wf(),
            !old(self).running ==> r == Ok::<u64, ExecError>(0) && *final(self) == *old(self),
            old(self).running ==> loop_effect(
                old(self).regs,
                old(self).mem@,
                final(self).regs,
                final(self).mem@,
                final(self).running,
                max_steps,
                r,
            ),
    {
        if !self.running {
            return Ok(0);
        }
        let ghost r0 = self.regs;
        let ghost m0 = self.mem@;
        let mut steps: u64 = 0;
        assert(trace(seq![r0], seq![m0], 0));
        while steps < max_steps
            invariant
                self.wf(),
                self.running,
                steps <= max_steps,
                old(self).running,
                r0 == old(self).regs,
                m0 == old(self).mem@,
                runs(r0, m0, self.regs, self.mem@, steps as nat),
            decreases max_steps - steps,
        {
            let ghost pr = self.regs;
            let ghost pm = self.mem@;
            let ghost k = steps as nat;
            match self.step(console) {
                Ok(false) => {
                    proof {
                        lemma_runs_extend(r0, m0, pr, pm, self.regs, self.mem@, k);
                    }
                    steps = steps + 1;
                },
                Ok(true) => {
                    assert(runs(r0, m0, pr, pm, k));
                    assert(runs_then(r0, m0, self.regs, self.mem@, k, Ok::<bool, ExecError>(true)));
                    return Ok(steps + 1);
                },
                Err(e) => {
                    assert(runs(r0, m0, pr, pm, k));
                    assert(runs_then(r0, m0, self.regs, self.mem@, k, Err::<bool, ExecError>(e)));
                    return Err(e);
                },
            }
        }
        Ok(steps)
    }
}

} // verus!
