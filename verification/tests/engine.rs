//! End-to-end behaviour of the engine: loading, running whole programs,
//! breakpoints, and the error paths that stop it.

use vm16::cpu::{Cpu, HaltReason, LoadError, State};
use vm16::insn::{get, Insn};

/// Encode a word list as the little-endian ROM byte format.
fn rom(words: &[u16]) -> Vec<u8> {
    let mut bytes = Vec::new();
    for w in words {
        bytes.push((w & 0xFF) as u8);
        bytes.push((w >> 8) as u8);
    }
    bytes
}

fn loaded(words: &[u16]) -> Cpu {
    Cpu::load(rom(words)).unwrap()
}

fn output_string(cpu: &Cpu) -> String {
    cpu.output.iter().collect()
}

#[test]
fn load_populates_exactly_the_rom_words() {
    let cpu = loaded(&[513, 0xABCD, 7]);
    assert_eq!(cpu.footprint, 3);
    assert_eq!(cpu.mem.len(), 32768);
    assert_eq!(cpu.mem[0], 513);
    assert_eq!(cpu.mem[1], 0xABCD);
    assert_eq!(cpu.mem[2], 7);
    for addr in 3..32768 {
        assert_eq!(cpu.mem[addr], 0);
    }
    assert_eq!(cpu.regs, vec![0u16; 8]);
    assert!(cpu.stack.is_empty());
    assert_eq!(cpu.ip, 0);
    assert_eq!(cpu.state, State::Stopped);
    assert_eq!(cpu.breakpoint, None);
}

#[test]
fn load_rejects_odd_length() {
    assert_eq!(Cpu::load(vec![1, 2, 3]).err(), Some(LoadError::OddLength));
}

#[test]
fn load_rejects_oversized_rom() {
    assert_eq!(
        Cpu::load(vec![0u8; 2 * 32769]).err(),
        Some(LoadError::TooLarge)
    );
    assert!(Cpu::load(vec![0u8; 2 * 32768]).is_ok());
}

#[test]
fn noops_then_halt_terminates_cleanly() {
    let mut words = vec![21u16; 5];
    words.push(0);
    let mut cpu = loaded(&words);
    cpu.run(false);
    assert_eq!(cpu.state, State::Stopped);
    assert_eq!(cpu.reason, Some(HaltReason::HaltInstruction));
    assert_eq!(cpu.regs, vec![0u16; 8]);
    assert!(cpu.output.is_empty());
}

#[test]
fn set_then_out_register_prints_a() {
    // Set register 0 to 65, Out register 0, Halt.
    let mut cpu = loaded(&[1, 32768, 65, 19, 32768, 0]);
    cpu.run(false);
    assert_eq!(cpu.state, State::Stopped);
    assert_eq!(output_string(&cpu), "A");
}

#[test]
fn out_literal_prints_its_code_point() {
    let mut cpu = loaded(&[19, 66, 0]);
    cpu.run(false);
    assert_eq!(output_string(&cpu), "B");
}

#[test]
fn breakpoint_on_jmp_target_pauses_then_resumes() {
    // Jmp 3; Halt (skipped); Noop; Halt.
    let mut cpu = loaded(&[6, 3, 0, 21, 0]);
    assert!(cpu.set_breakpoint(3));
    cpu.cont(false);
    assert_eq!(cpu.ip, 3);
    assert_eq!(cpu.state, State::Running);
    cpu.cont(false);
    assert_eq!(cpu.state, State::Stopped);
    assert_eq!(cpu.reason, Some(HaltReason::HaltInstruction));
}

#[test]
fn pop_on_empty_stack_halts_with_reason() {
    let mut cpu = loaded(&[3, 32768, 0]);
    cpu.run(false);
    assert_eq!(cpu.state, State::Stopped);
    assert_eq!(cpu.reason, Some(HaltReason::StackUnderflow));
    assert_eq!(cpu.reason.unwrap().message(), "cannot pop empty stack");
}

#[test]
fn ret_on_empty_stack_halts_with_reason() {
    let mut cpu = loaded(&[18]);
    cpu.run(false);
    assert_eq!(cpu.reason, Some(HaltReason::StackUnderflow));
}

#[test]
fn add_wraps_modulo_32768() {
    // Set r0 = 32767; Add r0 = r0 + 1; Halt.
    let mut cpu = loaded(&[1, 32768, 32767, 9, 32768, 32768, 1, 0]);
    cpu.run(false);
    assert_eq!(cpu.regs[0], 0);
}

#[test]
fn mult_wraps_modulo_32768() {
    // Set r1 = 300; Mult r0 = r1 * 200; Halt.
    let mut cpu = loaded(&[1, 32769, 300, 10, 32768, 32769, 200, 0]);
    cpu.run(false);
    assert_eq!(cpu.regs[0], (300 * 200) % 32768);
}

#[test]
fn not_inverts_low_fifteen_bits() {
    // Not r0 = !5; Halt.
    let mut cpu = loaded(&[14, 32768, 5, 0]);
    cpu.run(false);
    assert_eq!(cpu.regs[0], !5u16 & 0x7FFF);
    assert_eq!(cpu.regs[0] & 0x8000, 0);
}

#[test]
fn eq_gt_write_one_or_zero() {
    // Eq r0 = (7 == 7); Gt r1 = (3 > 9); Gt r2 = (9 > 3); Halt.
    let mut cpu = loaded(&[
        4, 32768, 7, 7, 5, 32769, 3, 9, 5, 32770, 9, 3, 0,
    ]);
    cpu.run(false);
    assert_eq!(cpu.regs[0], 1);
    assert_eq!(cpu.regs[1], 0);
    assert_eq!(cpu.regs[2], 1);
}

#[test]
fn mod_and_or_compute_exactly() {
    // Mod r0 = 17 % 5; And r1 = 12 & 10; Or r2 = 12 | 10; Halt.
    let mut cpu = loaded(&[
        11, 32768, 17, 5, 12, 32769, 12, 10, 13, 32770, 12, 10, 0,
    ]);
    cpu.run(false);
    assert_eq!(cpu.regs[0], 2);
    assert_eq!(cpu.regs[1], 8);
    assert_eq!(cpu.regs[2], 14);
}

#[test]
fn mod_by_zero_halts() {
    let mut cpu = loaded(&[11, 32768, 17, 0, 0]);
    cpu.run(false);
    assert_eq!(cpu.reason, Some(HaltReason::DivideByZero));
}

#[test]
fn jt_and_jf_follow_their_conditions() {
    // Jt 1 -> 4; (skipped words); Jf 0 -> 7; Halt at 7.
    let mut cpu = loaded(&[7, 1, 4, 0, 8, 0, 7, 0]);
    cpu.run(false);
    assert_eq!(cpu.state, State::Stopped);
    assert_eq!(cpu.reason, Some(HaltReason::HaltInstruction));
    assert_eq!(cpu.ip, 8);
}

#[test]
fn jump_to_invalid_target_halts() {
    // Set r0 = 40000; Jmp r0.
    let mut cpu = loaded(&[1, 32768, 40000, 6, 32768]);
    cpu.run(false);
    assert_eq!(cpu.reason, Some(HaltReason::IpOutOfRange));
    assert!(cpu.ip <= 32767);
}

#[test]
fn wmem_and_rmem_move_words_through_memory() {
    // Wmem 100 <- 4660; Rmem r0 <- mem[100]; Halt.
    let mut cpu = loaded(&[16, 100, 4660, 15, 32768, 100, 0]);
    cpu.run(false);
    assert_eq!(cpu.mem[100], 4660);
    assert_eq!(cpu.regs[0], 4660);
}

#[test]
fn push_pop_roundtrip() {
    // Push 77; Pop r3; Halt.
    let mut cpu = loaded(&[2, 77, 3, 32771, 0]);
    cpu.run(false);
    assert_eq!(cpu.regs[3], 77);
    assert!(cpu.stack.is_empty());
}

#[test]
fn call_pushes_return_address_and_ret_returns() {
    // 0: Call 3; 2: Halt; 3: Ret.
    let mut cpu = loaded(&[17, 3, 0, 18]);
    cpu.run(false);
    assert_eq!(cpu.state, State::Stopped);
    assert_eq!(cpu.reason, Some(HaltReason::HaltInstruction));
    assert_eq!(cpu.ip, 3);
    assert!(cpu.stack.is_empty());
}

#[test]
fn write_to_non_register_destination_halts() {
    // Set 5 <- 1: destination is a memory address, not a register.
    let mut cpu = loaded(&[1, 5, 1, 0]);
    cpu.run(false);
    assert_eq!(cpu.reason, Some(HaltReason::NotRegister));
}

#[test]
fn invalid_operand_halts() {
    // Push 40000: neither memory nor register address.
    let mut cpu = loaded(&[2, 40000, 0]);
    cpu.run(false);
    assert_eq!(cpu.reason, Some(HaltReason::InvalidOperand));
}

#[test]
fn unknown_opcode_halts() {
    let mut cpu = loaded(&[22, 0]);
    cpu.run(false);
    assert_eq!(cpu.state, State::Stopped);
    assert_eq!(cpu.reason, Some(HaltReason::UnknownOpcode));
    assert_eq!(cpu.reason.unwrap().message(), "unknown opcode");
}

#[test]
fn surrogate_out_operand_is_a_fatal_decode_error() {
    let mut cpu = loaded(&[19, 0xD800, 0]);
    cpu.run(false);
    assert_eq!(cpu.reason, Some(HaltReason::BadCodePoint));
    assert!(cpu.output.is_empty());
}

#[test]
fn in_consumes_buffered_input_symmetrically_with_out() {
    // In r0; Out r0; Halt.
    let mut cpu = loaded(&[20, 32768, 19, 32768, 0]);
    cpu.input.push('Z');
    cpu.run(false);
    assert_eq!(cpu.regs[0], 'Z' as u16);
    assert_eq!(output_string(&cpu), "Z");
    assert!(cpu.input.is_empty());
}

#[test]
fn in_without_input_waits_and_resumes_once_fed() {
    // In r0; Out r0; Halt.
    let mut cpu = loaded(&[20, 32768, 19, 32768, 0]);
    cpu.run(false);
    assert_eq!(cpu.state, State::Stopped);
    assert_eq!(cpu.reason, Some(HaltReason::WaitingForInput));
    assert_eq!(cpu.ip, 0, "the In instruction is still pending");
    cpu.input.push('Q');
    cpu.cont(false);
    assert_eq!(cpu.reason, Some(HaltReason::HaltInstruction));
    assert_eq!(output_string(&cpu), "Q");
}

#[test]
fn set_breakpoint_rejects_address_outside_memory() {
    let mut cpu = loaded(&[0]);
    assert!(cpu.set_breakpoint(5));
    assert!(!cpu.set_breakpoint(40000));
    assert_eq!(cpu.breakpoint, Some(5));
    cpu.clear_breakpoint();
    assert_eq!(cpu.breakpoint, None);
}

#[test]
fn read_resolves_memory_and_registers() {
    let mut cpu = loaded(&[513, 7]);
    cpu.regs[2] = 99;
    assert_eq!(cpu.read(0), Some(513));
    assert_eq!(cpu.read(1), Some(7));
    assert_eq!(cpu.read(32770), Some(99));
    assert_eq!(cpu.read(40000), None);
}

#[test]
fn resolve_addr_returns_literal_or_register_content() {
    let mut cpu = loaded(&[0]);
    cpu.regs[1] = 4242;
    assert_eq!(cpu.resolve_addr(123), Some(123));
    assert_eq!(cpu.resolve_addr(32769), Some(4242));
    assert_eq!(cpu.resolve_addr(32776), None);
}

#[test]
fn reset_keeps_memory_and_stack() {
    // Push 7; Set r0 5; Halt.
    let mut cpu = loaded(&[2, 7, 1, 32768, 5, 0]);
    cpu.run(false);
    assert_eq!(cpu.stack, vec![7]);
    assert_eq!(cpu.regs[0], 5);
    cpu.reset();
    assert_eq!(cpu.regs, vec![0u16; 8]);
    assert_eq!(cpu.ip, 0);
    assert_eq!(cpu.stack, vec![7], "reset keeps the stack");
    assert_eq!(cpu.mem[1], 7, "reset keeps memory");
}

#[test]
fn verbose_step_captures_trace_events() {
    let mut cpu = loaded(&[21, 21, 0]);
    cpu.run(true);
    assert_eq!(cpu.trace.len(), 3);
    assert_eq!(cpu.trace[0].ip, 1);
    assert_eq!(cpu.trace[0].insn, Insn::Noop);
    assert_eq!(cpu.trace[1].ip, 2);
    assert_eq!(cpu.trace[2].ip, 3);
    assert_eq!(cpu.trace[2].insn, Insn::Halt);
    cpu.run(false);
    assert_eq!(cpu.trace.len(), 3, "quiet runs add no events");
}

#[test]
fn get_decodes_one_instruction_in_place() {
    let mut cpu = loaded(&[1, 32768, 65, 0]);
    assert_eq!(get(&mut cpu), Some(Insn::SetReg(32768, 65)));
    assert_eq!(cpu.ip, 3);
    assert_eq!(get(&mut cpu), Some(Insn::Halt));
    assert_eq!(cpu.ip, 4);
    assert_eq!(cpu.regs[0], 0, "decoding executes nothing");
}

#[test]
fn get_halts_on_unknown_opcode_without_an_instruction() {
    let mut cpu = loaded(&[500]);
    assert_eq!(get(&mut cpu), None);
    assert_eq!(cpu.state, State::Stopped);
    assert_eq!(cpu.reason, Some(HaltReason::UnknownOpcode));
}
