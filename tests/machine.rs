use lc3_vm::instructions::{add, and, br, jmp, jsr, ld, ldi, ldr, lea, not, st, sti, str, trap};
use lc3_vm::trap::{string_at, TrapCode};
use lc3_vm::vm::{ExecError, LoadError};
use lc3_vm::{sign_extend, CondFlag, Console, Memory, Opcode, Registers, Terminal, Vm};
use std::convert::TryFrom;

/// A console that hands out scripted input and records output.
struct Scripted {
    input: Vec<u8>,
    output: Vec<u8>,
    reads: usize,
}

impl Scripted {
    fn new(input: &[u8]) -> Self {
        Scripted { input: input.to_vec(), output: Vec::new(), reads: 0 }
    }
}

impl Console for Scripted {
    fn read_byte(&mut self) -> u8 {
        let b = if self.reads < self.input.len() { self.input[self.reads] } else { 0 };
        self.reads += 1;
        b
    }

    fn write_bytes(&mut self, bytes: &[u8]) {
        self.output.extend_from_slice(bytes);
    }
}

fn words_to_image(words: &[u16]) -> Vec<u8> {
    let mut image = Vec::new();
    for w in words {
        image.push((w >> 8) as u8);
        image.push((w & 0xFF) as u8);
    }
    image
}

#[test]
fn sign_extend_boundaries() {
    for n in 1..=16usize {
        let full: u32 = 1 << n;
        let half: u32 = 1 << (n - 1);
        let cases: [(u32, i64); 4] = [
            (0, 0),
            (half - 1, (half - 1) as i64),
            (half, half as i64 - full as i64),
            (full - 1, -1),
        ];
        for (v, expected) in cases {
            let r = sign_extend(v as u16, n);
            assert_eq!(r, (expected as i16) as u16, "v={:#x} n={}", v, n);
        }
    }
    assert_eq!(sign_extend(0x1F, 5), 0xFFFF);
    assert_eq!(sign_extend(0x0F, 5), 0x000F);
    assert_eq!(sign_extend(0x10, 5), 0xFFF0);
    assert_eq!(sign_extend(0x100, 9), 0xFF00);
}

#[test]
fn cond_flags_follow_sign() {
    let mut regs = Registers::new();
    for (v, flag) in [
        (0u16, CondFlag::Zero),
        (1, CondFlag::Pos),
        (0x7FFF, CondFlag::Pos),
        (0x8000, CondFlag::Neg),
        (0xFFFF, CondFlag::Neg),
    ] {
        regs.write(3, v);
        regs.update_cond_flags(regs.read(3));
        assert_eq!(regs.cond, flag);
    }
    assert_eq!(CondFlag::Pos.bits(), 0b001);
    assert_eq!(CondFlag::Zero.bits(), 0b010);
    assert_eq!(CondFlag::Neg.bits(), 0b100);
}

#[test]
fn load_then_read() {
    let mut vm = Vm::new();
    assert_eq!(vm.regs.pc, 0x3000);
    assert!(!vm.running);
    let image = words_to_image(&[0x3000, 0x1234, 0x5678]);
    assert_eq!(vm.load_program(&image), Ok(()));
    let mut console = Terminal::new(Scripted::new(&[]));
    assert_eq!(vm.mem.read(0x3000, &mut console), 0x1234);
    assert_eq!(vm.mem.read(0x3001, &mut console), 0x5678);
    assert_eq!(vm.mem.read(0x3002, &mut console), 0);
    assert_eq!(vm.regs.pc, 0x3000);
}

#[test]
fn load_stops_at_end_of_memory_and_ignores_odd_byte() {
    let mut vm = Vm::new();
    let mut image = words_to_image(&[0xFFFF, 0xABCD, 0x1111]);
    image.push(0x77);
    assert_eq!(vm.load_program(&image), Ok(()));
    let mut console = Terminal::new(Scripted::new(&[]));
    assert_eq!(vm.mem.read(0xFFFF, &mut console), 0xABCD);
    assert_eq!(vm.mem.read(0x0000, &mut console), 0);

    let mut vm = Vm::new();
    let mut image = words_to_image(&[0x4000, 0x0102]);
    image.push(0x99);
    assert_eq!(vm.load_program(&image), Ok(()));
    assert_eq!(vm.mem.read(0x4000, &mut console), 0x0102);
    assert_eq!(vm.mem.read(0x4001, &mut console), 0);
}

#[test]
fn load_without_origin_fails() {
    let mut vm = Vm::new();
    assert_eq!(vm.load_program(&[]), Err(LoadError::MissingOrigin));
    assert_eq!(vm.load_program(&[0x30]), Err(LoadError::MissingOrigin));
}

#[test]
fn add_wraps_to_zero() {
    let mut regs = Registers::new();
    regs.write(0, 0xFFFF);
    regs.cond = CondFlag::Pos;
    regs.pc = 0x3001;
    // ADD R0, R0, #1
    add(0x1021, &mut regs);
    assert_eq!(regs.read(0), 0x0000);
    assert_eq!(regs.cond, CondFlag::Zero);
    assert_eq!(regs.pc, 0x3001);
}

#[test]
fn add_through_the_machine() {
    let mut vm = Vm::new();
    vm.load_program(&words_to_image(&[0x3000, 0x1021])).unwrap();
    vm.regs.write(0, 0xFFFF);
    let mut console = Terminal::new(Scripted::new(&[]));
    assert_eq!(vm.step(&mut console), Ok(false));
    assert_eq!(vm.regs.read(0), 0);
    assert_eq!(vm.regs.cond, CondFlag::Zero);
    assert_eq!(vm.regs.pc, 0x3001);
}

#[test]
fn add_register_form() {
    let mut regs = Registers::new();
    regs.write(1, 5);
    regs.write(2, 0xFFFD);
    // ADD R3, R1, R2
    add(0x1642, &mut regs);
    assert_eq!(regs.read(3), 2);
    assert_eq!(regs.cond, CondFlag::Pos);
}

#[test]
fn and_with_zero_clears() {
    for v in [0u16, 1, 0x7FFF, 0x8000, 0xFFFF, 0x1234] {
        let mut regs = Registers::new();
        regs.write(1, v);
        regs.cond = CondFlag::Neg;
        // AND R1, R1, #0
        and(0x5260, &mut regs);
        assert_eq!(regs.read(1), 0);
        assert_eq!(regs.cond, CondFlag::Zero);
    }
}

#[test]
fn halt_stops_without_changes() {
    let mut vm = Vm::new();
    vm.load_program(&words_to_image(&[0x3000, 0xF025])).unwrap();
    vm.regs.write(4, 0xBEEF);
    let mut console = Terminal::new(Scripted::new(&[]));
    assert_eq!(vm.run(&mut console, 100), Ok(1));
    assert!(!vm.running);
    assert_eq!(vm.regs.read(4), 0xBEEF);
    assert_eq!(vm.regs.read(0), 0);
    assert_eq!(vm.regs.cond, CondFlag::Zero);
    assert_eq!(vm.mem.read(0x3000, &mut console), 0xF025);
    assert_eq!(console.device.output, b"HALT".to_vec());

    let mut regs = Registers::new();
    let mut mem = Memory::new();
    assert!(trap(0xF025, &mut regs, &mut mem, &mut console));
    assert!(!trap(0xF021, &mut regs, &mut mem, &mut console));
}

#[test]
fn puts_writes_until_terminator() {
    let mut regs = Registers::new();
    let mut mem = Memory::new();
    mem.write(0x4000, 0x0048);
    mem.write(0x4001, 0x0069);
    mem.write(0x4002, 0x0000);
    mem.write(0x4003, 0x0041);
    regs.write(0, 0x4000);
    let mut console = Terminal::new(Scripted::new(&[]));
    // TRAP PUTS
    assert!(!trap(0xF022, &mut regs, &mut mem, &mut console));
    assert_eq!(console.device.output, b"Hi".to_vec());
    assert_eq!(console.device.reads, 0);
}

#[test]
fn puts_stops_at_end_of_memory() {
    let mut mem = Memory::new();
    mem.write(0xFFFE, 0x0041);
    mem.write(0xFFFF, 0x0142);
    let mut console = Terminal::new(Scripted::new(&[]));
    assert_eq!(string_at(&mut mem, 0xFFFE, false, &mut console), b"AB".to_vec());
}

#[test]
fn putsp_writes_two_characters_per_word() {
    let mut regs = Registers::new();
    let mut mem = Memory::new();
    mem.write(0x5000, 0x6548); // "He"
    mem.write(0x5001, 0x6C6C); // "ll"
    mem.write(0x5002, 0x006F); // "o" and a zero high byte
    mem.write(0x5003, 0x0000);
    regs.write(0, 0x5000);
    let mut console = Terminal::new(Scripted::new(&[]));
    assert!(!trap(0xF024, &mut regs, &mut mem, &mut console));
    assert_eq!(console.device.output, vec![b'H', b'e', b'l', b'l', b'o', 0]);
}

#[test]
fn getc_and_in_read_into_r0() {
    let mut regs = Registers::new();
    let mut mem = Memory::new();
    regs.write(0, 0xFFFF);
    let mut console = Terminal::new(Scripted::new(b"xy"));
    assert!(!trap(0xF020, &mut regs, &mut mem, &mut console));
    assert_eq!(regs.read(0), b'x' as u16);
    assert!(console.device.output.is_empty());
    assert!(!trap(0xF023, &mut regs, &mut mem, &mut console));
    assert_eq!(regs.read(0), b'y' as u16);
    assert_eq!(console.device.output, b"Enter character: ".to_vec());
}

#[test]
fn out_writes_low_byte() {
    let mut regs = Registers::new();
    let mut mem = Memory::new();
    regs.write(0, 0x1241);
    let mut console = Terminal::new(Scripted::new(&[]));
    assert!(!trap(0xF021, &mut regs, &mut mem, &mut console));
    assert_eq!(console.device.output, b"A".to_vec());
}

#[test]
fn jsr_saves_return_address() {
    let mut vm = Vm::new();
    // JSR #5
    vm.load_program(&words_to_image(&[0x3000, 0x4805])).unwrap();
    let mut console = Terminal::new(Scripted::new(&[]));
    assert_eq!(vm.step(&mut console), Ok(false));
    assert_eq!(vm.regs.read(7), 0x3001);
    assert_eq!(vm.regs.pc, 0x3006);

    let mut regs = Registers::new();
    regs.pc = 0x3001;
    regs.write(2, 0x4000);
    // JSRR R2
    jsr(0x4080, &mut regs);
    assert_eq!(regs.read(7), 0x3001);
    assert_eq!(regs.pc, 0x4000);
}

#[test]
fn keyboard_status_polls_console() {
    let mut mem = Memory::new();
    let mut console = Terminal::new(Scripted::new(b"a"));
    assert_eq!(mem.read(0xFE00, &mut console), 0x8000);
    assert_eq!(mem.read(0xFE02, &mut console), b'a' as u16);
    assert_eq!(mem.read(0xFE00, &mut console), 0);
    assert_eq!(console.device.reads, 2);
}

#[test]
fn illegal_opcodes_and_traps_are_errors() {
    let mut console = Terminal::new(Scripted::new(&[]));
    let mut vm = Vm::new();
    vm.load_program(&words_to_image(&[0x3000, 0x8000])).unwrap();
    assert_eq!(vm.step(&mut console), Err(ExecError::IllegalOpcode(Opcode::Rti)));
    let mut vm = Vm::new();
    vm.load_program(&words_to_image(&[0x3000, 0xD000])).unwrap();
    assert_eq!(vm.step(&mut console), Err(ExecError::IllegalOpcode(Opcode::Res)));
    let mut vm = Vm::new();
    vm.load_program(&words_to_image(&[0x3000, 0xF030])).unwrap();
    assert_eq!(vm.run(&mut console, 10), Err(ExecError::UnsupportedTrap(0x30)));
}

#[test]
fn opcode_and_trap_code_classification() {
    assert_eq!(Opcode::try_from(0b0000), Ok(Opcode::Br));
    assert_eq!(Opcode::try_from(0b0001), Ok(Opcode::Add));
    assert_eq!(Opcode::try_from(0b1111), Ok(Opcode::Trap));
    assert_eq!(Opcode::try_from(16), Err(()));
    assert_eq!(TrapCode::try_from(0x20), Ok(TrapCode::Getc));
    assert_eq!(TrapCode::try_from(0x25), Ok(TrapCode::Halt));
    assert_eq!(TrapCode::try_from(0x26), Err(()));
}

#[test]
fn program_with_loop_and_memory_ops() {
    // Counts R1 down from 3 with a branch, stores it, loads it back, then halts.
    let program = [
        0x3000, // origin
        0x5260, // AND R1, R1, #0
        0x1263, // ADD R1, R1, #3
        0x127F, // loop: ADD R1, R1, #-1
        0x03FE, // BRp loop
        0x3203, // ST R1, data
        0x2402, // LD R2, data
        0xE601, // LEA R3, data
        0xF025, // HALT
        0x7777, // data
    ];
    let mut vm = Vm::new();
    vm.load_program(&words_to_image(&program)).unwrap();
    let mut console = Terminal::new(Scripted::new(&[]));
    let steps = vm.run(&mut console, 1000).unwrap();
    assert_eq!(steps, 12);
    assert_eq!(vm.regs.read(1), 0);
    assert_eq!(vm.regs.read(2), 0);
    assert_eq!(vm.regs.read(3), 0x3008);
    assert_eq!(vm.mem.read(0x3008, &mut console), 0);
    assert!(!vm.running);
}

#[test]
fn abort_stops_running() {
    let mut vm = Vm::new();
    // BR always to itself.
    vm.load_program(&words_to_image(&[0x3000, 0x0FFF])).unwrap();
    let mut console = Terminal::new(Scripted::new(&[]));
    assert_eq!(vm.run(&mut console, 5), Ok(5));
    assert!(vm.running);
    assert_eq!(vm.regs.pc, 0x3000);
    vm.abort();
    assert!(!vm.running);
    assert_eq!(vm.main_loop(&mut console, 5), Ok(0));
}

#[test]
fn branch_taken_only_on_matching_flag() {
    let mut regs = Registers::new();
    regs.pc = 0x3001;
    regs.cond = CondFlag::Pos;
    // BRn #4: not taken under a positive flag
    br(0x0804, &mut regs);
    assert_eq!(regs.pc, 0x3001);
    // BRzp #-1: taken
    br(0x07FF, &mut regs);
    assert_eq!(regs.pc, 0x3000);
}

#[test]
fn not_and_jmp() {
    let mut regs = Registers::new();
    regs.write(2, 0x00F0);
    // NOT R1, R2
    not(0x92BF, &mut regs);
    assert_eq!(regs.read(1), 0xFF0F);
    assert_eq!(regs.cond, CondFlag::Neg);
    // JMP R2
    jmp(0xC080, &mut regs);
    assert_eq!(regs.pc, 0x00F0);
    // RET
    regs.write(7, 0x3456);
    jmp(0xC1C0, &mut regs);
    assert_eq!(regs.pc, 0x3456);
}

#[test]
fn loads_and_stores() {
    let mut regs = Registers::new();
    let mut mem = Memory::new();
    let mut console = Terminal::new(Scripted::new(&[]));
    regs.pc = 0x3001;
    regs.write(1, 0x4000);
    regs.write(2, 0xABCD);
    // STR R2, R1, #-2
    str(0x747E, &regs, &mut mem);
    assert_eq!(mem.read(0x3FFE, &mut console), 0xABCD);
    // LDR R3, R1, #-2
    ldr(0x667E, &mut regs, &mut mem, &mut console);
    assert_eq!(regs.read(3), 0xABCD);
    assert_eq!(regs.cond, CondFlag::Neg);
    // ST R2, #2
    st(0x3402, &regs, &mut mem);
    assert_eq!(mem.read(0x3003, &mut console), 0xABCD);
    // LD R4, #2
    ld(0x2802, &mut regs, &mut mem, &mut console);
    assert_eq!(regs.read(4), 0xABCD);
    // LEA R5, #-1
    lea(0xEBFF, &mut regs);
    assert_eq!(regs.read(5), 0x3000);
    assert_eq!(regs.cond, CondFlag::Pos);
    // STI R1, #5 with the pointer at 0x3006
    mem.write(0x3006, 0x5000);
    sti(0xB205, &regs, &mut mem, &mut console);
    assert_eq!(mem.read(0x5000, &mut console), 0x4000);
    // LDI R6, #5
    ldi(0xAC05, &mut regs, &mut mem, &mut console);
    assert_eq!(regs.read(6), 0x4000);
    assert_eq!(regs.cond, CondFlag::Pos);
    assert_eq!(console.device.reads, 0);
}

#[test]
fn add_then_halt_program() {
    let mut vm = Vm::new();
    vm.load_program(&words_to_image(&[0x3000, 0x1021, 0xF025])).unwrap();
    vm.regs.write(0, 0xFFFF);
    let mut console = Terminal::new(Scripted::new(&[]));
    assert_eq!(vm.run(&mut console, 10), Ok(2));
    assert_eq!(vm.regs.read(0), 0);
    assert_eq!(vm.regs.cond, CondFlag::Zero);
    assert_eq!(vm.regs.pc, 0x3002);
    assert!(!vm.running);
}

#[test]
fn halt_alone_advances_pc_only() {
    let mut vm = Vm::new();
    vm.load_program(&words_to_image(&[0x3000, 0xF025])).unwrap();
    let mut console = Terminal::new(Scripted::new(&[]));
    assert_eq!(vm.run(&mut console, 1), Ok(1));
    assert_eq!(vm.regs.pc, 0x3001);
    for i in 0..8 {
        assert_eq!(vm.regs.read(i), 0);
    }
    assert_eq!(vm.regs.cond, CondFlag::Zero);
}

#[test]
fn illegal_opcode_stops_loop_unchanged() {
    let mut vm = Vm::new();
    vm.load_program(&words_to_image(&[0x3000, 0x8000])).unwrap();
    let mut console = Terminal::new(Scripted::new(&[]));
    assert_eq!(vm.run(&mut console, 10), Err(ExecError::IllegalOpcode(Opcode::Rti)));
    assert!(vm.running);
    assert_eq!(vm.regs.pc, 0x3001);
    assert_eq!(vm.regs.read(0), 0);
}

#[test]
fn halt_at_last_address_wraps_pc() {
    let mut vm = Vm::new();
    vm.load_program(&words_to_image(&[0xFFFF, 0xF025])).unwrap();
    vm.regs.pc = 0xFFFF;
    let mut console = Terminal::new(Scripted::new(&[]));
    assert_eq!(vm.run(&mut console, 3), Ok(1));
    assert_eq!(vm.regs.pc, 0x0000);
    assert!(!vm.running);
}
