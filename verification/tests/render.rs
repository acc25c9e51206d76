//! The decoder table and every piece of text the library renders: the
//! formatters, instruction rendering, snapshots and disassembly.

use vm16::cpu::{Cpu, HaltReason};
use vm16::insn::{arity, Insn};
use vm16::layout;
use vm16::text::{push_dec5, push_hex2_upper, push_hex4};

fn rom(words: &[u16]) -> Vec<u8> {
    let mut bytes = Vec::new();
    for w in words {
        bytes.push((w & 0xFF) as u8);
        bytes.push((w >> 8) as u8);
    }
    bytes
}

fn loaded(words: &[u16]) -> Cpu {
    Cpu::load(rom(words)).unwrap()
}

#[test]
fn arity_table_is_bit_exact() {
    let expected: [usize; 22] = [
        0, 2, 1, 1, 3, 3, 1, 2, 2, 3, 3, 3, 3, 3, 2, 2, 2, 1, 0, 1, 1, 0,
    ];
    for op in 0..22u16 {
        assert_eq!(arity(op), expected[op as usize], "opcode {}", op);
    }
}

#[test]
fn decode_consumes_one_plus_arity_words() {
    // Add r0 <- 1 + 2 sits at address 0 and spans four words.
    let mut cpu = loaded(&[9, 32768, 1, 2, 0]);
    cpu.step(false);
    assert_eq!(cpu.ip, 4);
    assert_eq!(cpu.regs[0], 3);
    // A zero-operand instruction consumes one word.
    let mut cpu = loaded(&[21, 0]);
    cpu.step(false);
    assert_eq!(cpu.ip, 1);
}

#[test]
fn is_mem_and_is_reg_split_the_address_space() {
    assert!(layout::is_mem(0));
    assert!(layout::is_mem(32767));
    assert!(!layout::is_mem(32768));
    assert!(!layout::is_reg(32767));
    assert!(layout::is_reg(32768));
    assert!(layout::is_reg(32775));
    assert!(!layout::is_reg(32776));
}

#[test]
fn dec5_pads_to_five_digits() {
    let mut out: Vec<char> = Vec::new();
    push_dec5(&mut out, 42);
    push_dec5(&mut out, 65535);
    push_dec5(&mut out, 0);
    let s: String = out.iter().collect();
    assert_eq!(s, "000426553500000");
}

#[test]
fn hex4_pads_and_cases() {
    let mut out: Vec<char> = Vec::new();
    push_hex4(&mut out, 0x2A, false);
    push_hex4(&mut out, 0xBEEF, false);
    push_hex4(&mut out, 0xBEEF, true);
    push_hex2_upper(&mut out, 0x1F);
    let s: String = out.iter().collect();
    assert_eq!(s, "002abeefBEEF1F");
}

#[test]
fn insn_text_shows_opcode_mnemonic_and_operands() {
    assert_eq!(
        Insn::Add(32768, 1, 2).text(),
        "09: Add   8000 0001 0002"
    );
    assert_eq!(Insn::Halt.text(), "00: Halt");
    assert_eq!(Insn::Noop.text(), "15: Noop");
    assert_eq!(Insn::SetReg(32769, 65).text(), "01: Set   8001 0041");
    assert_eq!(Insn::Out('A').text(), "13: Out   <A>");
    assert_eq!(Insn::In('\u{8000}').text(), "14: In    <\u{8000}>");
    assert_eq!(Insn::Ret.text(), "12: Ret");
    assert_eq!(Insn::Or(32768, 12, 10).text(), "0D: Or    8000 000C 000A");
    assert_eq!(Insn::Rmem(32768, 100).text(), "0F: Rmem  8000 0064");
}

#[test]
fn disassemble_emits_one_line_per_out_instruction() {
    let mut words = Vec::new();
    for code in 32u16..=126 {
        words.push(19);
        words.push(code);
    }
    let mut cpu = loaded(&words);
    let regs_before = cpu.regs.clone();
    let stack_before = cpu.stack.clone();
    let lines = cpu.disassemble();
    // One line per Out instruction, plus one for the zeroed word at the
    // footprint itself, which decodes as Halt.
    assert_eq!(lines.len(), 96);
    assert_eq!(lines[0], "Mem[00000 (0x0000)]-> 13: Out   < >");
    assert_eq!(lines[33], "Mem[00066 (0x0042)]-> 13: Out   <A>");
    assert_eq!(lines[94], "Mem[00188 (0x00bc)]-> 13: Out   <~>");
    assert_eq!(cpu.regs, regs_before, "disassembly mutates no register");
    assert_eq!(cpu.stack, stack_before, "disassembly mutates no stack");
    assert!(cpu.output.is_empty(), "disassembly executes nothing");
}

#[test]
fn disassemble_marks_undecodable_words() {
    // 22 is no opcode; the traversal skips it and carries on.
    let mut cpu = loaded(&[22, 21]);
    let lines = cpu.disassemble();
    assert_eq!(lines[0], "Mem[00000 (0x0000)]-> <skipped>");
    assert_eq!(lines[1], "Mem[00001 (0x0001)]-> 15: Noop");
    assert_eq!(cpu.reason, Some(HaltReason::UnknownOpcode));
}

#[test]
fn print_formats_the_window_and_registers() {
    let mut cpu = loaded(&[21, 0x2A]);
    cpu.regs[1] = 0xBEEF;
    let mut expected = String::new();
    expected.push_str("   -- Memory --\n");
    expected.push_str("=> Mem[00000 (0x0000)]: 0x0015\n");
    expected.push_str("   Mem[00001 (0x0001)]: 0x002a\n");
    expected.push_str("   Mem[00002 (0x0002)]: 0x0000\n");
    expected.push_str("   Mem[00003 (0x0003)]: 0x0000\n");
    expected.push_str("   Mem[00004 (0x0004)]: 0x0000\n");
    expected.push_str("   Mem[00005 (0x0005)]: 0x0000\n");
    expected.push_str("   -- Registers --\n");
    expected.push_str("   [0]:0x0000 [1]:0xbeef [2]:0x0000 [3]:0x0000 ");
    expected.push_str("[4]:0x0000 [5]:0x0000 [6]:0x0000 [7]:0x0000 \n");
    assert_eq!(cpu.print(), expected);
}

#[test]
fn print_clamps_the_window_at_the_top_of_memory() {
    let mut cpu = loaded(&[21]);
    cpu.ip = 32767;
    let snapshot = cpu.print();
    assert!(snapshot.contains("=> Mem[32767 (0x7FFF)]: 0x0000\n"));
    assert!(!snapshot.contains("Mem[32768"));
}

#[test]
fn halt_reason_messages_are_fixed() {
    assert_eq!(
        HaltReason::HaltInstruction.message(),
        "Reached Halt instruction"
    );
    assert_eq!(HaltReason::BadCodePoint.message(), "failed to convert char");
    assert_eq!(HaltReason::WaitingForInput.message(), "waiting for input");
}
