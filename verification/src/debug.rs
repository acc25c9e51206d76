//! The inspection surface: the state snapshot and the disassembly-only
//! traversal, both with their exact text pinned down.

use vstd::prelude::*;

use crate::cpu::{Cpu, CpuView};
use crate::insn;
use crate::insn::Insn;
use crate::layout;
use crate::text::{push_dec5, push_hex4, push_str_chars, string_from_chars};
use crate::text::{spec_dec5, spec_dec_digit, spec_hex4, spec_hex4_upper};
use crate::text::dec_digit;

verus! {

/// One line of the snapshot's memory window: a marker on the current
/// instruction, the address in decimal and upper-case hex, and the word it
/// holds in lower-case hex.
#[verifier::opaque]
pub open spec fn spec_mem_line(c: CpuView, addr: int) -> Seq<char> {
    (if addr == c.ip {
        "=> Mem["@
    } else {
        "   Mem["@
    }) + spec_dec5(addr) + " (0x"@ + spec_hex4_upper(addr) + ")]: 0x"@ + spec_hex4(
        c.mem[addr] as int,
    ) + "\n"@
}

/// The memory-window lines for addresses `lo..=hi`.
pub open spec fn spec_window(c: CpuView, lo: int, hi: int) -> Seq<char>
    decreases hi + 1 - lo,
{
    if lo > hi {
        Seq::empty()
    } else {
        spec_mem_line(c, lo) + spec_window(c, lo + 1, hi)
    }
}

/// The window grows one line at a time at its upper end.
proof fn lemma_window_snoc(c: CpuView, lo: int, hi: int)
    requires
        lo <= hi,
    ensures
        spec_window(c, lo, hi) == spec_window(c, lo, hi - 1) + spec_mem_line(c, hi),
    decreases hi - lo,
{
    if lo == hi {
        assert(spec_window(c, lo + 1, hi) == Seq::<char>::empty());
        assert(spec_window(c, lo, hi - 1) == Seq::<char>::empty());
        assert(spec_window(c, lo, hi) == spec_mem_line(c, lo) + Seq::<char>::empty());
        assert(spec_mem_line(c, lo) + Seq::<char>::empty() =~= Seq::<char>::empty()
            + spec_mem_line(c, lo));
    } else {
        lemma_window_snoc(c, lo + 1, hi);
        assert(spec_window(c, lo, hi) =~= spec_window(c, lo, hi - 1) + spec_mem_line(c, hi));
    }
}

/// One register entry of the snapshot.
#[verifier::opaque]
pub open spec fn spec_reg_entry(c: CpuView, i: int) -> Seq<char> {
    "["@ + seq![spec_dec_digit(i)] + "]:0x"@ + spec_hex4(c.regs[i] as int) + " "@
}

/// The first `n` register entries of the snapshot, concatenated.
pub open spec fn spec_reg_entries_upto(c: CpuView, n: int) -> Seq<char>
    decreases n,
{
    if n <= 0 {
        Seq::empty()
    } else {
        spec_reg_entries_upto(c, n - 1) + spec_reg_entry(c, n - 1)
    }
}

/// The whole snapshot: the memory window around the instruction pointer,
/// clamped to valid addresses, then all eight registers.
pub open spec fn spec_print(c: CpuView) -> Seq<char> {
    let start = if c.ip >= 5 {
        c.ip - 5
    } else {
        0
    };
    let end = if c.ip + 5 <= layout::MEM_MAX {
        c.ip + 5
    } else {
        layout::MEM_MAX as int
    };
    "   -- Memory --\n"@ + spec_window(c, start, end) + "   -- Registers --\n   "@
        + spec_reg_entries_upto(c, layout::NUM_REGS as int) + "\n"@
}

/// One line of the disassembly: the address, then the decoded instruction,
/// or a skip marker where decoding failed.
#[verifier::opaque]
pub open spec fn spec_disasm_line(addr: int, oi: Option<Insn>) -> Seq<char> {
    "Mem["@ + spec_dec5(addr) + " (0x"@ + spec_hex4(addr) + ")]-> "@ + (match oi {
        Some(i) => insn::spec_insn_text(i),
        None => "<skipped>"@,
    })
}

/// The disassembly traversal: decode (never execute) instruction after
/// instruction while the pointer stays within the loaded footprint and
/// memory, collecting one line each; the second component is the engine
/// state the traversal ends in.
pub open spec fn spec_disasm(c: CpuView) -> (Seq<Seq<char>>, CpuView)
    decreases layout::MEM_SIZE - c.ip,
{
    if !(0 <= c.ip <= layout::MEM_MAX) || c.ip > c.footprint {
        (Seq::empty(), c)
    } else {
        let addr = c.ip;
        let (oi, c2) = insn::spec_decode(c);
        let (rest, end) = spec_disasm(c2);
        (seq![spec_disasm_line(addr, oi)] + rest, end)
    }
}

impl Cpu {
    /// Format a snapshot of the engine: the memory window `ip - 5 ..= ip
    /// + 5` clamped to valid addresses, with the current instruction
    /// marked, and all eight registers.
    #[verifier::rlimit(100)]
    pub fn print(&self) -> (r: String)
        requires
            self.wf(),
        ensures
            r@ == spec_print(self@),
    {
        let ghost header: Seq<char> = "   -- Memory --\n"@;
        let mut out: Vec<char> = Vec::new();
        push_str_chars(&mut out, "   -- Memory --\n");
        let start: usize = if self.ip >= 5 {
            self.ip - 5
        } else {
            0
        };
        let end: usize = if self.ip + 5 <= layout::MEM_MAX as usize {
            self.ip + 5
        } else {
            layout::MEM_MAX as usize
        };
        let mut addr: usize = start;
        while addr <= end
            invariant
                self.wf(),
                start == (if self@.ip >= 5 {
                    self@.ip - 5
                } else {
                    0
                }),
                end == (if self@.ip + 5 <= layout::MEM_MAX {
                    self@.ip + 5
                } else {
                    layout::MEM_MAX as int
                }),
                start <= addr <= end + 1,
                end <= layout::MEM_MAX,
                out@ == header + spec_window(self@, start as int, addr - 1),
            decreases end + 1 - addr,
        {
            let ghost prev = out@;
            if addr == self.ip {
                push_str_chars(&mut out, "=> Mem[");
            } else {
                push_str_chars(&mut out, "   Mem[");
            }
            push_dec5(&mut out, addr as u16);
            push_str_chars(&mut out, " (0x");
            push_hex4(&mut out, addr as u16, true);
            push_str_chars(&mut out, ")]: 0x");
            let w = self.mem[addr];
            push_hex4(&mut out, w, false);
            push_str_chars(&mut out, "\n");
            proof {
                assert(out@ =~= prev + spec_mem_line(self@, addr as int)) by {
                    reveal(spec_mem_line);
                }
                lemma_window_snoc(self@, start as int, addr as int);
                assert(out@ =~= header + spec_window(self@, start as int, addr as int));
            }
            addr = addr + 1;
        }
        let ghost mem_part = out@;
        push_str_chars(&mut out, "   -- Registers --\n   ");
        let ghost reg_base = out@;
        let mut k: usize = 0;
        while k < layout::NUM_REGS
            invariant
                self.wf(),
                k <= layout::NUM_REGS,
                reg_base == mem_part + "   -- Registers --\n   "@,
                out@ == reg_base + spec_reg_entries_upto(self@, k as int),
            decreases layout::NUM_REGS - k,
        {
            let ghost prev = out@;
            push_str_chars(&mut out, "[");
            out.push(dec_digit(k as u16));
            push_str_chars(&mut out, "]:0x");
            let w = self.regs[k];
            push_hex4(&mut out, w, false);
            push_str_chars(&mut out, " ");
            proof {
                assert(out@ =~= prev + spec_reg_entry(self@, k as int)) by {
                    reveal(spec_reg_entry);
                }
                assert(out@ =~= reg_base + spec_reg_entries_upto(self@, k + 1));
            }
            k = k + 1;
        }
        push_str_chars(&mut out, "\n");
        proof {
            assert(out@ =~= spec_print(self@));
        }
        string_from_chars(&out)
    }

    /// Rewind the instruction pointer to 0, then decode (never execute)
    /// instruction after instruction up to the loaded footprint, returning
    /// one line per instruction. Registers, stack, memory and the buffers
    /// are untouched; a decode failure stops the engine but the traversal
    /// carries on past it.
    #[verifier::rlimit(100)]
    pub fn disassemble(&mut self) -> (lines: Vec<String>)
        requires
            old(self).wf(),
        ensures
            final(self).wf(),
            ({
                let r = spec_disasm(CpuView { ip: 0, ..old(self)@ });
                &&& lines@.map_values(|s: String| s@) == r.0
                &&& final(self)@ == r.1
            }),
    {
        self.ip = 0;
        let ghost c0 = self@;
        let mut lines: Vec<String> = Vec::new();
        while self.ip <= self.footprint as usize && self.ip <= layout::MEM_MAX as usize
            invariant
                self.wf(),
                self@.footprint == c0.footprint,
                spec_disasm(c0).0 == lines@.map_values(|s: String| s@) + spec_disasm(self@).0,
                spec_disasm(c0).1 == spec_disasm(self@).1,
            decreases layout::MEM_SIZE - self@.ip,
        {
            let ghost prev = self@;
            let addr = self.ip;
            let mut head: Vec<char> = Vec::new();
            push_str_chars(&mut head, "Mem[");
            push_dec5(&mut head, addr as u16);
            push_str_chars(&mut head, " (0x");
            push_hex4(&mut head, addr as u16, false);
            push_str_chars(&mut head, ")]-> ");
            let prefix = string_from_chars(&head);
            let oi = crate::insn::get(self);
            let line = match oi {
                Some(i) => {
                    let t = i.text();
                    prefix.concat(t.as_str())
                },
                None => prefix.concat("<skipped>"),
            };
            proof {
                assert(line@ =~= spec_disasm_line(addr as int, oi)) by {
                    reveal(spec_disasm_line);
                }
                assert(self@.ip > prev.ip);
            }
            let ghost old_lines = lines@;
            lines.push(line);
            proof {
                assert(lines@.map_values(|s: String| s@) =~= old_lines.map_values(
                    |s: String| s@,
                ) + seq![line@]);
                assert(spec_disasm(prev).0 =~= seq![spec_disasm_line(addr as int, oi)]
                    + spec_disasm(self@).0);
                assert(spec_disasm(prev).1 == spec_disasm(self@).1);
                assert(spec_disasm(c0).0 =~= lines@.map_values(|s: String| s@) + spec_disasm(
                    self@,
                ).0);
            }
        }
        proof {
            assert(spec_disasm(self@).0 == Seq::<Seq<char>>::empty());
            assert(spec_disasm(self@).1 == self@);
            assert(spec_disasm(c0).0 =~= lines@.map_values(|s: String| s@));
        }
        lines
    }
}

} // verus!
