//! The system calls that a `TRAP` instruction invokes.
use crate::console::{outputs, Console, IoByte, Terminal};
use crate::memory::{Memory, KBDR, KBSR, MEMORY_SIZE};
use crate::registers::Registers;
use vstd::prelude::*;
use vstd::string::StringSliceAdditionalSpecFns;

verus! {

/// The six built-in services, named by the low eight bits of a `TRAP` instruction.
#[derive(Clone, Copy, Debug, PartialEq, Eq, Structural)]
pub enum TrapCode {
    /// Reads a character into R0, without echo.
    Getc,
    /// Writes the character in R0.
    Out,
    /// Writes the string of one character per word that R0 points at.
    Puts,
    /// Prompts, then reads a character into R0.
    In,
    /// Writes the string of two characters per word that R0 points at.
    Putsp,
    /// Stops the machine.
    Halt,
}

/// The service that trap vector `value` names, if any.
pub open spec fn trap_code_of(value: u16) -> Option<TrapCode> {
    match value {
        0x20 => Some(TrapCode::Getc),
        0x21 => Some(TrapCode::Out),
        0x22 => Some(TrapCode::Puts),
        0x23 => Some(TrapCode::In),
        0x24 => Some(TrapCode::Putsp),
        0x25 => Some(TrapCode::Halt),
        _ => None,
    }
}

impl TryFrom<u16> for TrapCode {
    type Error = ();

    fn try_from(value: u16) -> (r: Result<Self, ()>)
        ensures
            r == match trap_code_of(value) {
                Some(code) => Ok::<TrapCode, ()>(code),
                None => Err(()),
            },
    {
        let trap_code = match value {
            0x20 => TrapCode::Getc,
            0x21 => TrapCode::Out,
            0x22 => TrapCode::Puts,
            0x23 => TrapCode::In,
            0x24 => TrapCode::Putsp,
            0x25 => TrapCode::Halt,
            _ => return Err(()),
        };
        Ok(trap_code)
    }
}

impl vstd::std_specs::convert::TryFromSpecImpl<u16> for TrapCode {
    open spec fn obeys_try_from_spec() -> bool {
        true
    }

    open spec fn try_from_spec(value: u16) -> Result<Self, ()> {
        match trap_code_of(value) {
            Some(code) => Ok(code),
            None => Err(()),
        }
    }
}

/// The low byte of a word.
pub open spec fn low_byte(w: u16) -> u8 {
    (w % 0x100) as u8
}

/// The high byte of a word.
pub open spec fn high_byte(w: u16) -> u8 {
    (w / 0x100) as u8
}

/// Holds when the `k` words of `m` from `start` on are nonzero and are followed
/// by a zero word or by the end of the address space.
pub open spec fn terminated_at(m: Seq<u16>, start: int, k: int) -> bool {
    &&& 0 <= k
    &&& start + k <= MEMORY_SIZE
    &&& forall|i: int| start <= i < start + k ==> m[i] != 0
    &&& (start + k == MEMORY_SIZE || m[start + k] == 0)
}

/// The characters of the `k` words of `m` from `start` on, one per word.
pub open spec fn chars_of(m: Seq<u16>, start: int, k: int) -> Seq<u8> {
    Seq::new(k as nat, |i: int| low_byte(m[start + i]))
}

/// The characters of the `k` words of `m` from `start` on, two per word, low byte
/// first.
pub open spec fn packed_chars_of(m: Seq<u16>, start: int, k: int) -> Seq<u8> {
    Seq::new(
        (2 * k) as nat,
        |j: int|
            if j % 2 == 0 {
                low_byte(m[start + j / 2])
            } else {
                high_byte(m[start + j / 2])
            },
    )
}

/// Holds when `after` differs from `before` at most in the keyboard registers.
pub open spec fn only_keyboard_changed(before: Seq<u16>, after: Seq<u16>) -> bool {
    &&& after.len() == before.len()
    &&& forall|i: int|
        0 <= i < before.len() && i != KBSR as int && i != KBDR as int ==> #[trigger] after[i]
            == before[i]
}

/// The characters of the `k` words of `m` from `start` on: one per word, or two
/// per word (low byte first) when `packed`.
pub open spec fn text_of(m: Seq<u16>, start: int, k: int, packed: bool) -> Seq<u8> {
    if packed {
        packed_chars_of(m, start, k)
    } else {
        chars_of(m, start, k)
    }
}

/// The number of characters that one word holds.
pub open spec fn chars_per_word(packed: bool) -> int {
    if packed {
        2
    } else {
        1
    }
}

/// Where a scan of the `k` words from `start` on stops being a plain read: at
/// the keyboard status register if the scan reads it, else at its end.
pub open spec fn before_poll(start: int, k: int) -> int {
    if start <= KBSR && KBSR < start + k {
        KBSR as int
    } else {
        start + k
    }
}

/// Holds when the `k` words from `start` on, and the word after them, lie clear
/// of the keyboard status register.
pub open spec fn clear_of_keyboard(start: int, k: int) -> bool {
    KBSR < start || start + k < KBSR
}

/// Reads the zero-terminated string of words that starts at `start`, up to the
/// terminator or the end of the address space, and returns its characters: one
/// per word, or two per word (low byte first) when `packed`. The words before the
/// keyboard status register are plain reads; where the scan does not reach that
/// register, memory is unchanged and the result is the whole string.
pub fn string_at<C: Console>(mem: &mut Memory, start: u16, packed: bool, console: &mut Terminal<C>) -> (r:
    Vec<u8>)
    requires
        old(mem).wf(),
    ensures
        final(mem).wf(),
        only_keyboard_changed(old(mem)@, final(mem)@),
        r@.len() as int % chars_per_word(packed) == 0,
        ({
            let k = r@.len() as int / chars_per_word(packed);
            let plain = before_poll(start as int, k) - start;
            &&& start + k <= MEMORY_SIZE
            &&& forall|i: int| start <= i < start + plain ==> old(mem)@[i] != 0
            &&& r@.subrange(0, chars_per_word(packed) * plain) == text_of(
                old(mem)@,
                start as int,
                plain,
                packed,
            )
            &&& clear_of_keyboard(start as int, k) ==> {
                &&& final(mem)@ == old(mem)@
                &&& final(console).log@ == old(console).log@
                &&& terminated_at(old(mem)@, start as int, k)
            }
        }),
{
    let mut out: Vec<u8> = Vec::new();
    let mut addr: u32 = start as u32;
    let mut done = false;
    let ghost w = chars_per_word(packed);
    while addr < MEMORY_SIZE as u32 && !done
        invariant
            w == chars_per_word(packed),
            start <= addr <= MEMORY_SIZE,
            done ==> addr < MEMORY_SIZE,
            mem.wf(),
            only_keyboard_changed(old(mem)@, mem@),
            out@.len() == w * (addr - start),
            forall|i: int|
                start <= i < before_poll(start as int, addr - start) ==> old(mem)@[i] != 0,
            out@.subrange(0, w * (before_poll(start as int, addr - start) - start)) == text_of(
                old(mem)@,
                start as int,
                before_poll(start as int, addr - start) - start,
                packed,
            ),
            (KBSR < start || addr < KBSR || (addr == KBSR && !done)) ==> {
                &&& mem@ == old(mem)@
                &&& console.log@ == old(console).log@
                &&& done ==> old(mem)@[addr as int] == 0
            },
        decreases MEMORY_SIZE - addr, if done { 0int } else { 1int },
    {
        let ghost prev = out@;
        let ghost clean = KBSR < start || addr < KBSR;
        let word = mem.read(addr as u16, console);
        if word == 0 {
            done = true;
        } else {
            proof {
                assert((word & 0xFFu16) < 0x100u16) by (bit_vector);
                assert((word & 0xFFu16) == word % 0x100) by (bit_vector);
                assert((word >> 8u16) == word / 0x100) by (bit_vector);
            }
            if packed {
                out.push((word & 0xFF) as u8);
                out.push((word >> 8) as u8);
            } else {
                out.push((word & 0xFF) as u8);
            }
            proof {
                let bp0 = before_poll(start as int, addr - start);
                let bp1 = before_poll(start as int, addr + 1 - start);
                if clean {
                    assert(bp0 == addr && bp1 == addr + 1);
                    assert(prev.subrange(0, w * (addr - start)) =~= prev);
                    assert(out@.subrange(0, w * (addr + 1 - start)) =~= out@);
                    assert(out@ =~= text_of(old(mem)@, start as int, addr + 1 - start, packed));
                } else {
                    assert(bp0 == bp1);
                    assert(out@.subrange(0, w * (bp1 - start)) =~= prev.subrange(
                        0,
                        w * (bp0 - start),
                    ));
                }
            }
            addr = addr + 1;
        }
    }
    proof {
        let k = addr - start;
        assert(out@.len() as int / w == k && out@.len() as int % w == 0) by (nonlinear_arith)
            requires
                out@.len() as int == w * k,
                w == 1 || w == 2,
        ;
    }
    out
}

/// `GETC`: reads one byte into R0.
pub fn getc<C: Console>(regs: &mut Registers, console: &mut Terminal<C>)
    ensures
        final(regs)@ == old(regs)@.update(0, final(regs)@[0]),
        final(regs)@[0] < 0x100,
        final(regs).pc == old(regs).pc,
        final(regs).cond == old(regs).cond,
        final(console).log@ == old(console).log@.push(IoByte::In(final(regs)@[0] as u8)),
{
    let byte = console.read_byte();
    regs.write(0, byte as u16);
}

/// `OUT`: writes the low byte of R0 as one character.
pub fn out<C: Console>(regs: &Registers, console: &mut Terminal<C>)
    ensures
        final(console).log@ == old(console).log@ + outputs(seq![low_byte(regs@[0])]),
{
    let word = regs.read(0);
    assert((word & 0xFFu16) < 0x100u16 && (word & 0xFFu16) == word % 0x100) by (bit_vector);
    let chr = (word & 0xFF) as u8;
    let bytes: Vec<u8> = vec![chr];
    console.write_bytes(bytes.as_slice());
    assert(bytes@ =~= seq![low_byte(regs@[0])]);
}

/// A terminated string is as long as a scan that read up to its terminator.
proof fn lemma_scan_length(m: Seq<u16>, start: int, k: int, kp: int)
    requires
        terminated_at(m, start, k),
        clear_of_keyboard(start, k),
        0 <= kp,
        start + kp <= MEMORY_SIZE,
        forall|i: int| start <= i < before_poll(start, kp) ==> m[i] != 0,
        clear_of_keyboard(start, kp) ==> terminated_at(m, start, kp),
    ensures
        kp == k,
{
    if kp > k {
        assert(start <= start + k < before_poll(start, kp));
        assert(m[start + k] != 0);
    } else if kp < k {
        assert(m[start + kp] != 0);
    }
}

/// Writes the string that R0 points at: one character per word, or two (low
/// byte first) when `packed`. Where the string and its terminator lie clear of
/// the keyboard status register, memory is unchanged and exactly its text is
/// written.
fn write_string<C: Console>(
    regs: &Registers,
    mem: &mut Memory,
    console: &mut Terminal<C>,
    packed: bool,
)
    requires
        old(mem).wf(),
    ensures
        final(mem).wf(),
        only_keyboard_changed(old(mem)@, final(mem)@),
        forall|k: int|
            #![trigger terminated_at(old(mem)@, regs@[0] as int, k)]
            terminated_at(old(mem)@, regs@[0] as int, k) && clear_of_keyboard(regs@[0] as int, k)
                ==> {
                &&& final(mem)@ == old(mem)@
                &&& final(console).log@ == old(console).log@ + outputs(
                    text_of(old(mem)@, regs@[0] as int, k, packed),
                )
            },
{
    let start = regs.read(0);
    let text = string_at(mem, start, packed, console);
    console.write_bytes(text.as_slice());
    proof {
        let w = chars_per_word(packed);
        let kp = text@.len() as int / w;
        assert forall|k: int|
            terminated_at(old(mem)@, start as int, k) && clear_of_keyboard(
                start as int,
                k,
            ) implies #[trigger] text_of(old(mem)@, start as int, k, packed) == text@ by {
            lemma_scan_length(old(mem)@, start as int, k, kp);
            assert(before_poll(start as int, kp) == start + kp);
            assert(text@.subrange(0, w * kp) =~= text@);
        }
    }
}

/// `PUTS`: writes the string of one character per word that R0 points at.
pub fn puts<C: Console>(regs: &Registers, mem: &mut Memory, console: &mut Terminal<C>)
    requires
        old(mem).wf(),
    ensures
        final(mem).wf(),
        only_keyboard_changed(old(mem)@, final(mem)@),
        forall|k: int|
            #![trigger terminated_at(old(mem)@, regs@[0] as int, k)]
            terminated_at(old(mem)@, regs@[0] as int, k) && clear_of_keyboard(regs@[0] as int, k)
                ==> {
                &&& final(mem)@ == old(mem)@
                &&& final(console).log@ == old(console).log@ + outputs(
                    chars_of(old(mem)@, regs@[0] as int, k),
                )
            },
{
    write_string(regs, mem, console, false);
}

/// `PUTSP`: writes the string of two characters per word that R0 points at.
pub fn putsp<C: Console>(regs: &Registers, mem: &mut Memory, console: &mut Terminal<C>)
    requires
        old(mem).wf(),
    ensures
        final(mem).wf(),
        only_keyboard_changed(old(mem)@, final(mem)@),
        forall|k: int|
            #![trigger terminated_at(old(mem)@, regs@[0] as int, k)]
            terminated_at(old(mem)@, regs@[0] as int, k) && clear_of_keyboard(regs@[0] as int, k)
                ==> {
                &&& final(mem)@ == old(mem)@
                &&& final(console).log@ == old(console).log@ + outputs(
                    packed_chars_of(old(mem)@, regs@[0] as int, k),
                )
            },
{
    write_string(regs, mem, console, true);
}

/// The prompt that `IN` writes before it reads.
pub open spec fn in_prompt() -> Seq<u8> {
    "Enter character: ".spec_bytes()
}

/// The notice that `HALT` writes.
pub open spec fn halt_notice() -> Seq<u8> {
    "HALT".spec_bytes()
}

/// `IN`: writes a prompt, then reads one byte into R0.
pub fn in_char<C: Console>(regs: &mut Registers, console: &mut Terminal<C>)
    ensures
        final(regs)@ == old(regs)@.update(0, final(regs)@[0]),
        final(regs)@[0] < 0x100,
        final(regs).pc == old(regs).pc,
        final(regs).cond == old(regs).cond,
        final(console).log@ == (old(console).log@ + outputs(in_prompt())).push(
            IoByte::In(final(regs)@[0] as u8),
        ),
{
    console.write_bytes("Enter character: ".as_bytes());
    getc(regs, console);
}

/// `HALT`: writes the halt notice.
pub fn halt<C: Console>(console: &mut Terminal<C>)
    ensures
        final(console).log@ == old(console).log@ + outputs(halt_notice()),
{
    console.write_bytes("HALT".as_bytes());
}

} // verus!
