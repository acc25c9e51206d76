//! Machine-checked statements of the engine's general guarantees: how much
//! a decode consumes, the range of arithmetic results, and where jumps can
//! point the instruction pointer.

use vstd::prelude::*;

use crate::cpu::{spec_cont_iter, spec_cont_stop, spec_exec, spec_halted, spec_resolve, spec_step};
use crate::cpu::{CpuView, HaltReason, State};
use crate::insn::{spec_arity, spec_decode, spec_is_surrogate, Insn};
use crate::layout;

verus! {

/// Decoding an encoded instruction consumes exactly `1 + arity` words:
/// whenever the opcode at the instruction pointer is in the table, the
/// operand words fit in memory, and — for `Out`/`In` — the operand is a
/// valid code point, the decode yields an instruction and advances the
/// pointer by exactly one plus the opcode's arity.
pub proof fn lemma_decode_advances_ip(c: CpuView)
    requires
        c.wf(),
        c.ip < layout::MEM_SIZE,
        c.mem[c.ip] <= 21,
        c.ip + 1 + spec_arity(c.mem[c.ip]) <= layout::MEM_SIZE,
        c.mem[c.ip] == 19 || c.mem[c.ip] == 20 ==> !spec_is_surrogate(c.mem[c.ip + 1]),
    ensures
        spec_decode(c).0 is Some,
        spec_decode(c).1.ip == c.ip + 1 + spec_arity(c.mem[c.ip]),
        crate::insn::spec_opcode(spec_decode(c).0.unwrap()) == c.mem[c.ip],
{
}

/// `Add` writes a value in `[0, 32767]` that is congruent to the sum of
/// the resolved operands modulo 32768.
pub proof fn lemma_add_in_range(c: CpuView, a: u16, b: u16, cc: u16, ip0: int)
    requires
        c.wf(),
        layout::spec_is_reg(a),
        spec_resolve(c, b) is Some,
        spec_resolve(c, cc) is Some,
    ensures
        ({
            let written = spec_exec(c, Insn::Add(a, b, cc), ip0).regs[a - layout::REG_MIN];
            &&& 0 <= written <= 32767
            &&& written == (spec_resolve(c, b).unwrap() + spec_resolve(c, cc).unwrap()) % 32768
        }),
{
}

/// `Mult` writes a value in `[0, 32767]` that is congruent to the product
/// of the resolved operands modulo 32768.
pub proof fn lemma_mult_in_range(c: CpuView, a: u16, b: u16, cc: u16, ip0: int)
    requires
        c.wf(),
        layout::spec_is_reg(a),
        spec_resolve(c, b) is Some,
        spec_resolve(c, cc) is Some,
    ensures
        ({
            let written = spec_exec(c, Insn::Mult(a, b, cc), ip0).regs[a - layout::REG_MIN];
            &&& 0 <= written <= 32767
            &&& written == (spec_resolve(c, b).unwrap() * spec_resolve(c, cc).unwrap()) % 32768
        }),
{
    let vb = spec_resolve(c, b).unwrap();
    let vc = spec_resolve(c, cc).unwrap();
    assert(0 <= (vb * vc) % 32768 < 32768) by (nonlinear_arith);
}

/// `Not` writes the bitwise complement of the low 15 bits: bit 15 of the
/// result is always clear.
pub proof fn lemma_not_clears_top_bit(c: CpuView, a: u16, b: u16, ip0: int)
    requires
        c.wf(),
        layout::spec_is_reg(a),
        spec_resolve(c, b) is Some,
    ensures
        ({
            let written = spec_exec(c, Insn::Not(a, b), ip0).regs[a - layout::REG_MIN];
            &&& written & 0x8000 == 0
            &&& written <= 32767
        }),
{
    let vb = spec_resolve(c, b).unwrap();
    assert((!vb & 0x7FFF) & 0x8000 == 0 && (!vb & 0x7FFF) <= 32767) by (bit_vector);
}

/// The jump instructions never point the instruction pointer outside
/// memory: whenever `Jmp`, `Jt` or `Jf` changes the pointer at all, the
/// new value lies in `[0, 32767]`.
pub proof fn lemma_jumps_stay_in_memory(c: CpuView, i: Insn, ip0: int)
    requires
        c.wf(),
        i is Jmp || i is Jt || i is Jf,
    ensures
        ({
            let c2 = spec_exec(c, i, ip0);
            &&& c2.ip == c.ip || (0 <= c2.ip <= layout::MEM_MAX)
            &&& 0 <= c2.ip <= layout::MEM_SIZE
        }),
{
}

/// While only `Noop` words have been executed, the engine just walks
/// forward: after `m` quiet steps over a `Noop` prefix the state is the
/// starting one with the pointer moved to `m`.
proof fn lemma_noop_prefix_walks(c0: CpuView, nn: int, m: nat)
    requires
        c0.wf(),
        c0.ip == 0,
        0 <= nn <= 32766,
        forall|i: int| 0 <= i < nn ==> c0.mem[i] == 21,
        m <= nn,
    ensures
        spec_cont_iter(c0, false, m) == (CpuView { ip: m as int, state: State::Running, ..c0 }),
    decreases m,
{
    reveal(spec_step);
    if m == 0 {
        assert(spec_cont_iter(c0, false, 0) =~= (CpuView {
            ip: 0,
            state: State::Running,
            ..c0
        }));
    } else {
        lemma_noop_prefix_walks(c0, nn, (m - 1) as nat);
        assert(spec_cont_iter(c0, false, m) =~= (CpuView {
            ip: m as int,
            state: State::Running,
            ..c0
        }));
    }
}

/// A program of `Noop` repeated `nn` times followed by `Halt`, started
/// from address 0 with no breakpoint, stops exactly when the `Halt` is
/// executed: after `nn + 1` steps, with the `Halt` recorded as the reason
/// and registers, stack and output exactly as they started. The last three
/// `requires` clauses are what `cont` and `run` ensure of the step count
/// they return.
pub proof fn lemma_noops_then_halt_run_clean(c0: CpuView, nn: int, n: nat)
    requires
        c0.wf(),
        c0.ip == 0,
        0 <= nn <= 32766,
        forall|i: int| 0 <= i < nn ==> c0.mem[i] == 21,
        c0.mem[nn] == 0,
        c0.breakpoint is None,
        1 <= n <= u64::MAX,
        forall|m: nat| 1 <= m < n ==> !spec_cont_stop(spec_cont_iter(c0, false, m)),
        spec_cont_stop(spec_cont_iter(c0, false, n)) || n == u64::MAX,
    ensures
        n == nn + 1,
        spec_cont_iter(c0, false, n) == spec_halted(
            CpuView { ip: nn + 1, state: State::Running, ..c0 },
            HaltReason::HaltInstruction,
        ),
{
    reveal(spec_step);
    lemma_noop_prefix_walks(c0, nn, nn as nat);
    let at_halt = CpuView { ip: nn, state: State::Running, ..c0 };
    let stopped = spec_halted(
        CpuView { ip: nn + 1, state: State::Running, ..c0 },
        HaltReason::HaltInstruction,
    );
    assert(spec_step(at_halt, false) =~= stopped);
    assert(spec_cont_iter(c0, false, (nn + 1) as nat) == stopped);
    if n <= nn {
        lemma_noop_prefix_walks(c0, nn, n);
        assert(!spec_cont_stop(spec_cont_iter(c0, false, n)));
        assert(false);
    }
    if n > nn + 1 {
        assert(spec_cont_stop(spec_cont_iter(c0, false, (nn + 1) as nat)));
        assert(false);
    }
}

} // verus!
