//! Instruction decoding: the opcode/arity table and the decoder that turns
//! raw words into one fully-formed instruction value.

use vstd::prelude::*;

use crate::cpu::{Cpu, CpuView, HaltReason};
use crate::cpu::spec_halted;
use crate::layout;
use crate::text::{push_hex2_upper, push_hex4, push_str_chars, string_from_chars};
use crate::text::{spec_hex2_upper, spec_hex4_upper};

verus! {

/// One decoded instruction. The 22 variants carry their operand words;
/// `Out` and `In` carry the operand already decoded as a character.
#[derive(Clone, Copy, Debug, PartialEq, Eq, Structural)]
pub enum Insn {
    Add(u16, u16, u16),
    And(u16, u16, u16),
    Call(u16),
    Eq(u16, u16, u16),
    Gt(u16, u16, u16),
    Halt,
    In(char),
    Jf(u16, u16),
    Jmp(u16),
    Jt(u16, u16),
    Mod(u16, u16, u16),
    Mult(u16, u16, u16),
    Noop,
    Not(u16, u16),
    Or(u16, u16, u16),
    Out(char),
    Pop(u16),
    Push(u16),
    Ret,
    Rmem(u16, u16),
    SetReg(u16, u16),
    Wmem(u16, u16),
}

/// The canonical opcode -> operand-count table:
/// Halt, Set, Push, Pop, Eq, Gt, Jmp, Jt, Jf, Add, Mult,
/// Mod, And, Or, Not, Rmem, Wmem, Call, Ret, Out, In, Noop.
pub open spec fn spec_arity(op: u16) -> int {
    seq![0int, 2, 1, 1, 3, 3, 1, 2, 2, 3, 3, 3, 3, 3, 2, 2, 2, 1, 0, 1, 1, 0][op as int]
}

/// Number of operand words that follow opcode `op`.
pub fn arity(op: u16) -> (r: usize)
    requires
        op <= 21,
    ensures
        r == spec_arity(op),
{
    match op {
        0 => 0,
        1 => 2,
        2 => 1,
        3 => 1,
        4 => 3,
        5 => 3,
        6 => 1,
        7 => 2,
        8 => 2,
        9 => 3,
        10 => 3,
        11 => 3,
        12 => 3,
        13 => 3,
        14 => 2,
        15 => 2,
        16 => 2,
        17 => 1,
        18 => 0,
        19 => 1,
        20 => 1,
        _ => 0,
    }
}

/// A 16-bit word that is not a Unicode scalar value (a UTF-16 surrogate).
pub open spec fn spec_is_surrogate(w: u16) -> bool {
    0xD800 <= w <= 0xDFFF
}

/// Relies on char::from_u32: it returns Some exactly when the value is a
/// Unicode scalar value — for 16-bit input, everything outside the
/// surrogate range — and the character holds that code point.
#[verifier::external_body]
pub(crate) fn char_from_word(w: u16) -> (r: Option<char>)
    ensures
        spec_is_surrogate(w) ==> r is None,
        !spec_is_surrogate(w) ==> r == Some(w as char),
{
    char::from_u32(w as u32)
}

/// What decoding does once the opcode word `op` is fetched: an opcode
/// outside the table stops the engine; otherwise exactly `spec_arity(op)`
/// further words are consumed (stopping instead if memory runs out) and
/// packaged into the matching variant. A surrogate operand of `Out`/`In`
/// is a fatal decode error.
pub open spec fn spec_gen(c: CpuView, op: u16) -> (Option<Insn>, CpuView) {
    if op > 21 {
        (None::<Insn>, spec_halted(c, HaltReason::UnknownOpcode))
    } else if c.ip + spec_arity(op) > layout::MEM_SIZE {
        (
            None::<Insn>,
            spec_halted(
                CpuView { ip: layout::MEM_SIZE as int, ..c },
                HaltReason::IpOutOfRange,
            ),
        )
    } else {
        let x = c.mem[c.ip];
        let y = c.mem[c.ip + 1];
        let z = c.mem[c.ip + 2];
        let c2 = CpuView { ip: c.ip + spec_arity(op), ..c };
        if op == 0 {
            (Some(Insn::Halt), c2)
        } else if op == 1 {
            (Some(Insn::SetReg(x, y)), c2)
        } else if op == 2 {
            (Some(Insn::Push(x)), c2)
        } else if op == 3 {
            (Some(Insn::Pop(x)), c2)
        } else if op == 4 {
            (Some(Insn::Eq(x, y, z)), c2)
        } else if op == 5 {
            (Some(Insn::Gt(x, y, z)), c2)
        } else if op == 6 {
            (Some(Insn::Jmp(x)), c2)
        } else if op == 7 {
            (Some(Insn::Jt(x, y)), c2)
        } else if op == 8 {
            (Some(Insn::Jf(x, y)), c2)
        } else if op == 9 {
            (Some(Insn::Add(x, y, z)), c2)
        } else if op == 10 {
            (Some(Insn::Mult(x, y, z)), c2)
        } else if op == 11 {
            (Some(Insn::Mod(x, y, z)), c2)
        } else if op == 12 {
            (Some(Insn::And(x, y, z)), c2)
        } else if op == 13 {
            (Some(Insn::Or(x, y, z)), c2)
        } else if op == 14 {
            (Some(Insn::Not(x, y)), c2)
        } else if op == 15 {
            (Some(Insn::Rmem(x, y)), c2)
        } else if op == 16 {
            (Some(Insn::Wmem(x, y)), c2)
        } else if op == 17 {
            (Some(Insn::Call(x)), c2)
        } else if op == 18 {
            (Some(Insn::Ret), c2)
        } else if op == 19 {
            if spec_is_surrogate(x) {
                (None::<Insn>, spec_halted(c2, HaltReason::BadCodePoint))
            } else {
                (Some(Insn::Out(x as char)), c2)
            }
        } else if op == 20 {
            if spec_is_surrogate(x) {
                (None::<Insn>, spec_halted(c2, HaltReason::BadCodePoint))
            } else {
                (Some(Insn::In(x as char)), c2)
            }
        } else {
            (Some(Insn::Noop), c2)
        }
    }
}

/// What one whole decode does: fetch the opcode word, then `spec_gen`.
pub open spec fn spec_decode(c: CpuView) -> (Option<Insn>, CpuView) {
    if c.ip >= layout::MEM_SIZE {
        (None::<Insn>, spec_halted(c, HaltReason::IpOutOfRange))
    } else {
        spec_gen(CpuView { ip: c.ip + 1, ..c }, c.mem[c.ip])
    }
}

/// The opcode a decoded instruction encodes.
pub open spec fn spec_opcode(i: Insn) -> int {
    match i {
        Insn::Halt => 0,
        Insn::SetReg(_, _) => 1,
        Insn::Push(_) => 2,
        Insn::Pop(_) => 3,
        Insn::Eq(_, _, _) => 4,
        Insn::Gt(_, _, _) => 5,
        Insn::Jmp(_) => 6,
        Insn::Jt(_, _) => 7,
        Insn::Jf(_, _) => 8,
        Insn::Add(_, _, _) => 9,
        Insn::Mult(_, _, _) => 10,
        Insn::Mod(_, _, _) => 11,
        Insn::And(_, _, _) => 12,
        Insn::Or(_, _, _) => 13,
        Insn::Not(_, _) => 14,
        Insn::Rmem(_, _) => 15,
        Insn::Wmem(_, _) => 16,
        Insn::Call(_) => 17,
        Insn::Ret => 18,
        Insn::Out(_) => 19,
        Insn::In(_) => 20,
        Insn::Noop => 21,
    }
}

/// The mnemonic-and-operands column of an instruction's rendering:
/// the padded mnemonic, then each operand as four upper-case hexadecimal
/// digits; `Out`/`In` show their decoded character in angle brackets.
pub open spec fn spec_insn_body(i: Insn) -> Seq<char> {
    match i {
        Insn::Halt => "Halt"@,
        Insn::SetReg(a, b) => "Set   "@ + spec_hex4_upper(a as int) + " "@ + spec_hex4_upper(
            b as int,
        ),
        Insn::Push(a) => "Push  "@ + spec_hex4_upper(a as int),
        Insn::Pop(a) => "Pop   "@ + spec_hex4_upper(a as int),
        Insn::Eq(a, b, cc) => "Eq    "@ + spec_hex4_upper(a as int) + " "@ + spec_hex4_upper(
            b as int,
        ) + " "@ + spec_hex4_upper(cc as int),
        Insn::Gt(a, b, cc) => "Gt    "@ + spec_hex4_upper(a as int) + " "@ + spec_hex4_upper(
            b as int,
        ) + " "@ + spec_hex4_upper(cc as int),
        Insn::Jmp(a) => "Jmp   "@ + spec_hex4_upper(a as int),
        Insn::Jt(a, b) => "Jt    "@ + spec_hex4_upper(a as int) + " "@ + spec_hex4_upper(
            b as int,
        ),
        Insn::Jf(a, b) => "Jf    "@ + spec_hex4_upper(a as int) + " "@ + spec_hex4_upper(
            b as int,
        ),
        Insn::Add(a, b, cc) => "Add   "@ + spec_hex4_upper(a as int) + " "@ + spec_hex4_upper(
            b as int,
        ) + " "@ + spec_hex4_upper(cc as int),
        Insn::Mult(a, b, cc) => "Mult  "@ + spec_hex4_upper(a as int) + " "@ + spec_hex4_upper(
            b as int,
        ) + " "@ + spec_hex4_upper(cc as int),
        Insn::Mod(a, b, cc) => "Mod   "@ + spec_hex4_upper(a as int) + " "@ + spec_hex4_upper(
            b as int,
        ) + " "@ + spec_hex4_upper(cc as int),
        Insn::And(a, b, cc) => "And   "@ + spec_hex4_upper(a as int) + " "@ + spec_hex4_upper(
            b as int,
        ) + " "@ + spec_hex4_upper(cc as int),
        Insn::Or(a, b, cc) => "Or    "@ + spec_hex4_upper(a as int) + " "@ + spec_hex4_upper(
            b as int,
        ) + " "@ + spec_hex4_upper(cc as int),
        Insn::Not(a, b) => "Not   "@ + spec_hex4_upper(a as int) + " "@ + spec_hex4_upper(
            b as int,
        ),
        Insn::Rmem(a, b) => "Rmem  "@ + spec_hex4_upper(a as int) + " "@ + spec_hex4_upper(
            b as int,
        ),
        Insn::Wmem(a, b) => "Wmem  "@ + spec_hex4_upper(a as int) + " "@ + spec_hex4_upper(
            b as int,
        ),
        Insn::Call(a) => "Call  "@ + spec_hex4_upper(a as int),
        Insn::Ret => "Ret"@,
        Insn::Out(ch) => "Out   <"@ + seq![ch] + ">"@,
        Insn::In(ch) => "In    <"@ + seq![ch] + ">"@,
        Insn::Noop => "Noop"@,
    }
}

/// The whole rendering: the opcode as two upper-case hexadecimal digits,
/// a separator, then the mnemonic and operands.
pub open spec fn spec_insn_text(i: Insn) -> Seq<char> {
    spec_hex2_upper(spec_opcode(i)) + ": "@ + spec_insn_body(i)
}

impl Insn {
    /// The opcode this instruction encodes.
    pub fn opcode(&self) -> (r: u16)
        ensures
            r == spec_opcode(*self),
            r <= 21,
    {
        match self {
            Insn::Halt => 0,
            Insn::SetReg(_, _) => 1,
            Insn::Push(_) => 2,
            Insn::Pop(_) => 3,
            Insn::Eq(_, _, _) => 4,
            Insn::Gt(_, _, _) => 5,
            Insn::Jmp(_) => 6,
            Insn::Jt(_, _) => 7,
            Insn::Jf(_, _) => 8,
            Insn::Add(_, _, _) => 9,
            Insn::Mult(_, _, _) => 10,
            Insn::Mod(_, _, _) => 11,
            Insn::And(_, _, _) => 12,
            Insn::Or(_, _, _) => 13,
            Insn::Not(_, _) => 14,
            Insn::Rmem(_, _) => 15,
            Insn::Wmem(_, _) => 16,
            Insn::Call(_) => 17,
            Insn::Ret => 18,
            Insn::Out(_) => 19,
            Insn::In(_) => 20,
            Insn::Noop => 21,
        }
    }

    /// Render the instruction as the disassembler shows it: opcode,
    /// mnemonic, operands.
    #[verifier::rlimit(100)]
    pub fn text(&self) -> (r: String)
        ensures
            r@ == spec_insn_text(*self),
    {
        let mut out: Vec<char> = Vec::new();
        push_hex2_upper(&mut out, self.opcode());
        push_str_chars(&mut out, ": ");
        match self {
            Insn::Halt => {
                push_str_chars(&mut out, "Halt");
            },
            Insn::SetReg(a, b) => {
                push_str_chars(&mut out, "Set   ");
                push_hex4(&mut out, *a, true);
                push_str_chars(&mut out, " ");
                push_hex4(&mut out, *b, true);
            },
            Insn::Push(a) => {
                push_str_chars(&mut out, "Push  ");
                push_hex4(&mut out, *a, true);
            },
            Insn::Pop(a) => {
                push_str_chars(&mut out, "Pop   ");
                push_hex4(&mut out, *a, true);
            },
            Insn::Eq(a, b, cc) => {
                push_str_chars(&mut out, "Eq    ");
                push_hex4(&mut out, *a, true);
                push_str_chars(&mut out, " ");
                push_hex4(&mut out, *b, true);
                push_str_chars(&mut out, " ");
                push_hex4(&mut out, *cc, true);
            },
            Insn::Gt(a, b, cc) => {
                push_str_chars(&mut out, "Gt    ");
                push_hex4(&mut out, *a, true);
                push_str_chars(&mut out, " ");
                push_hex4(&mut out, *b, true);
                push_str_chars(&mut out, " ");
                push_hex4(&mut out, *cc, true);
            },
            Insn::Jmp(a) => {
                push_str_chars(&mut out, "Jmp   ");
                push_hex4(&mut out, *a, true);
            },
            Insn::Jt(a, b) => {
                push_str_chars(&mut out, "Jt    ");
                push_hex4(&mut out, *a, true);
                push_str_chars(&mut out, " ");
                push_hex4(&mut out, *b, true);
            },
            Insn::Jf(a, b) => {
                push_str_chars(&mut out, "Jf    ");
                push_hex4(&mut out, *a, true);
                push_str_chars(&mut out, " ");
                push_hex4(&mut out, *b, true);
            },
            Insn::Add(a, b, cc) => {
                push_str_chars(&mut out, "Add   ");
                push_hex4(&mut out, *a, true);
                push_str_chars(&mut out, " ");
                push_hex4(&mut out, *b, true);
                push_str_chars(&mut out, " ");
                push_hex4(&mut out, *cc, true);
            },
            Insn::Mult(a, b, cc) => {
                push_str_chars(&mut out, "Mult  ");
                push_hex4(&mut out, *a, true);
                push_str_chars(&mut out, " ");
                push_hex4(&mut out, *b, true);
                push_str_chars(&mut out, " ");
                push_hex4(&mut out, *cc, true);
            },
            Insn::Mod(a, b, cc) => {
                push_str_chars(&mut out, "Mod   ");
                push_hex4(&mut out, *a, true);
                push_str_chars(&mut out, " ");
                push_hex4(&mut out, *b, true);
                push_str_chars(&mut out, " ");
                push_hex4(&mut out, *cc, true);
            },
            Insn::And(a, b, cc) => {
                push_str_chars(&mut out, "And   ");
                push_hex4(&mut out, *a, true);
                push_str_chars(&mut out, " ");
                push_hex4(&mut out, *b, true);
                push_str_chars(&mut out, " ");
                push_hex4(&mut out, *cc, true);
            },
            Insn::Or(a, b, cc) => {
                push_str_chars(&mut out, "Or    ");
                push_hex4(&mut out, *a, true);
                push_str_chars(&mut out, " ");
                push_hex4(&mut out, *b, true);
                push_str_chars(&mut out, " ");
                push_hex4(&mut out, *cc, true);
            },
            Insn::Not(a, b) => {
                push_str_chars(&mut out, "Not   ");
                push_hex4(&mut out, *a, true);
                push_str_chars(&mut out, " ");
                push_hex4(&mut out, *b, true);
            },
            Insn::Rmem(a, b) => {
                push_str_chars(&mut out, "Rmem  ");
                push_hex4(&mut out, *a, true);
                push_str_chars(&mut out, " ");
                push_hex4(&mut out, *b, true);
            },
            Insn::Wmem(a, b) => {
                push_str_chars(&mut out, "Wmem  ");
                push_hex4(&mut out, *a, true);
                push_str_chars(&mut out, " ");
                push_hex4(&mut out, *b, true);
            },
            Insn::Call(a) => {
                push_str_chars(&mut out, "Call  ");
                push_hex4(&mut out, *a, true);
            },
            Insn::Ret => {
                push_str_chars(&mut out, "Ret");
            },
            Insn::Out(ch) => {
                push_str_chars(&mut out, "Out   <");
                out.push(*ch);
                push_str_chars(&mut out, ">");
            },
            Insn::In(ch) => {
                push_str_chars(&mut out, "In    <");
                out.push(*ch);
                push_str_chars(&mut out, ">");
            },
            Insn::Noop => {
                push_str_chars(&mut out, "Noop");
            },
        }
        proof {
            assert(out@ =~= spec_insn_text(*self));
        }
        string_from_chars(&out)
    }
}

/// Decode the instruction whose opcode word is already fetched. On a
/// decode failure the engine is halted with the reason recorded and no
/// instruction is produced.
pub fn gen_insn(opcode: u16, cpu: &mut Cpu) -> (r: Option<Insn>)
    requires
        old(cpu).wf(),
    ensures
        final(cpu).wf(),
        (r, final(cpu)@) == spec_gen(old(cpu)@, opcode),
{
    if opcode > 21 {
        cpu.halt(HaltReason::UnknownOpcode);
        return None;
    }
    let ar = arity(opcode);
    let mut x: u16 = 0;
    let mut y: u16 = 0;
    let mut z: u16 = 0;
    if ar >= 1 {
        match cpu.fetch() {
            Some(w) => {
                x = w;
            },
            None => {
                return None;
            },
        }
    }
    if ar >= 2 {
        match cpu.fetch() {
            Some(w) => {
                y = w;
            },
            None => {
                return None;
            },
        }
    }
    if ar >= 3 {
        match cpu.fetch() {
            Some(w) => {
                z = w;
            },
            None => {
                return None;
            },
        }
    }
    match opcode {
        0 => Some(Insn::Halt),
        1 => Some(Insn::SetReg(x, y)),
        2 => Some(Insn::Push(x)),
        3 => Some(Insn::Pop(x)),
        4 => Some(Insn::Eq(x, y, z)),
        5 => Some(Insn::Gt(x, y, z)),
        6 => Some(Insn::Jmp(x)),
        7 => Some(Insn::Jt(x, y)),
        8 => Some(Insn::Jf(x, y)),
        9 => Some(Insn::Add(x, y, z)),
        10 => Some(Insn::Mult(x, y, z)),
        11 => Some(Insn::Mod(x, y, z)),
        12 => Some(Insn::And(x, y, z)),
        13 => Some(Insn::Or(x, y, z)),
        14 => Some(Insn::Not(x, y)),
        15 => Some(Insn::Rmem(x, y)),
        16 => Some(Insn::Wmem(x, y)),
        17 => Some(Insn::Call(x)),
        18 => Some(Insn::Ret),
        19 => match char_from_word(x) {
            Some(ch) => Some(Insn::Out(ch)),
            None => {
                cpu.halt(HaltReason::BadCodePoint);
                None
            },
        },
        20 => match char_from_word(x) {
            Some(ch) => Some(Insn::In(ch)),
            None => {
                cpu.halt(HaltReason::BadCodePoint);
                None
            },
        },
        _ => Some(Insn::Noop),
    }
}

/// Decode one instruction at the instruction pointer, consuming exactly
/// one word for the opcode plus one per operand.
pub fn get(cpu: &mut Cpu) -> (r: Option<Insn>)
    requires
        old(cpu).wf(),
    ensures
        final(cpu).wf(),
        (r, final(cpu)@) == spec_decode(old(cpu)@),
{
    match cpu.fetch() {
        Some(op) => gen_insn(op, cpu),
        None => None,
    }
}

} // verus!
