//! The execution engine: machine state, the addressing-mode resolver, and
//! the state transitions shared by stepping, running and disassembly.

use vstd::prelude::*;

use crate::insn::Insn;
use crate::layout;

verus! {

/// Whether the engine is between runs or inside one.
#[derive(Clone, Copy, Debug, PartialEq, Eq, Structural)]
pub enum State {
    Running,
    Stopped,
}

/// Why the engine stopped on its own.
#[derive(Clone, Copy, Debug, PartialEq, Eq, Structural)]
pub enum HaltReason {
    /// A `Halt` instruction was executed.
    HaltInstruction,
    /// The fetched opcode lies outside 0..=21.
    UnknownOpcode,
    /// An `Out`/`In` operand is not a valid Unicode code point.
    BadCodePoint,
    /// The instruction pointer left the memory range.
    IpOutOfRange,
    /// An operand is neither a memory address nor a register address.
    InvalidOperand,
    /// A write destination is not a register address.
    NotRegister,
    /// `Pop` or `Ret` found the stack empty.
    StackUnderflow,
    /// `Mod` with a zero divisor.
    DivideByZero,
    /// `In` found no buffered input character.
    WaitingForInput,
}

/// The wording each stop reason is reported with.
pub open spec fn spec_reason_text(why: HaltReason) -> Seq<char> {
    match why {
        HaltReason::HaltInstruction => "Reached Halt instruction"@,
        HaltReason::UnknownOpcode => "unknown opcode"@,
        HaltReason::BadCodePoint => "failed to convert char"@,
        HaltReason::IpOutOfRange => "instruction pointer is outside memory"@,
        HaltReason::InvalidOperand => "operand is not valid memory"@,
        HaltReason::NotRegister => "only registers are writable"@,
        HaltReason::StackUnderflow => "cannot pop empty stack"@,
        HaltReason::DivideByZero => "modulo by zero"@,
        HaltReason::WaitingForInput => "waiting for input"@,
    }
}

impl HaltReason {
    /// The reason as a reportable line of text.
    pub fn message(&self) -> (r: String)
        ensures
            r@ == spec_reason_text(*self),
    {
        match self {
            HaltReason::HaltInstruction => "Reached Halt instruction".to_owned(),
            HaltReason::UnknownOpcode => "unknown opcode".to_owned(),
            HaltReason::BadCodePoint => "failed to convert char".to_owned(),
            HaltReason::IpOutOfRange => "instruction pointer is outside memory".to_owned(),
            HaltReason::InvalidOperand => "operand is not valid memory".to_owned(),
            HaltReason::NotRegister => "only registers are writable".to_owned(),
            HaltReason::StackUnderflow => "cannot pop empty stack".to_owned(),
            HaltReason::DivideByZero => "modulo by zero".to_owned(),
            HaltReason::WaitingForInput => "waiting for input".to_owned(),
        }
    }
}

/// One captured trace event: the instruction pointer right after decoding,
/// and the instruction about to be executed.
#[derive(Clone, Copy, Debug, PartialEq, Eq, Structural)]
pub struct TraceEvent {
    pub ip: usize,
    pub insn: Insn,
}

/// The mathematical model of the whole engine state.
pub struct CpuView {
    pub mem: Seq<u16>,
    pub regs: Seq<u16>,
    pub stack: Seq<u16>,
    pub ip: int,
    pub footprint: u16,
    pub state: State,
    pub breakpoint: Option<u16>,
    pub output: Seq<char>,
    pub input: Seq<char>,
    pub trace: Seq<TraceEvent>,
    pub reason: Option<HaltReason>,
}

impl CpuView {
    /// Well-formedness: the fixed sizes of memory and the register file,
    /// and the instruction pointer staying within one word past memory.
    pub open spec fn wf(self) -> bool {
        &&& self.mem.len() == layout::MEM_SIZE
        &&& self.regs.len() == layout::NUM_REGS
        &&& 0 <= self.ip <= layout::MEM_SIZE
    }
}

/// The engine: memory, registers, stack and instruction pointer, plus the
/// run/stop state machine, the breakpoint, and the buffered character
/// streams that stand in for the console.
pub struct Cpu {
    pub mem: Vec<u16>,
    pub regs: Vec<u16>,
    pub stack: Vec<u16>,
    /// Instruction pointer.
    pub ip: usize,
    /// Number of words populated by `load`; bounds disassembly.
    pub footprint: u16,
    pub state: State,
    pub breakpoint: Option<u16>,
    /// Characters emitted by `Out`, oldest first.
    pub output: Vec<char>,
    /// Characters not yet consumed by `In`, oldest first.
    pub input: Vec<char>,
    /// Trace events captured while stepping with `verbose` set.
    pub trace: Vec<TraceEvent>,
    /// Why the engine last stopped on its own, if it did.
    pub reason: Option<HaltReason>,
}

impl View for Cpu {
    type V = CpuView;

    open spec fn view(&self) -> CpuView {
        CpuView {
            mem: self.mem@,
            regs: self.regs@,
            stack: self.stack@,
            ip: self.ip as int,
            footprint: self.footprint,
            state: self.state,
            breakpoint: self.breakpoint,
            output: self.output@,
            input: self.input@,
            trace: self.trace@,
            reason: self.reason,
        }
    }
}

/// Why a ROM image is rejected before any engine state is constructed.
#[derive(Clone, Copy, Debug, PartialEq, Eq, Structural)]
pub enum LoadError {
    /// The byte sequence has odd length and cannot form whole words.
    OddLength,
    /// The word count exceeds the size of memory.
    TooLarge,
}

/// The little-endian 16-bit word held by bytes `2*i` and `2*i + 1`.
pub open spec fn spec_word(roms: Seq<u8>, i: int) -> u16 {
    (roms[2 * i] + 256 * roms[2 * i + 1]) as u16
}

/// The state `load` constructs from a ROM image: the decoded words from
/// address 0, zeroes beyond them, everything else pristine.
pub open spec fn spec_loaded(roms: Seq<u8>) -> CpuView {
    CpuView {
        mem: Seq::new(
            layout::MEM_SIZE as nat,
            |i: int| if i < roms.len() / 2 { spec_word(roms, i) } else { 0u16 },
        ),
        regs: Seq::new(layout::NUM_REGS as nat, |i: int| 0u16),
        stack: Seq::empty(),
        ip: 0,
        footprint: (roms.len() / 2) as u16,
        state: State::Stopped,
        breakpoint: None,
        output: Seq::empty(),
        input: Seq::empty(),
        trace: Seq::empty(),
        reason: None,
    }
}

/// `c`, stopped with `why` recorded.
pub open spec fn spec_halted(c: CpuView, why: HaltReason) -> CpuView {
    CpuView { state: State::Stopped, reason: Some(why), ..c }
}

/// What `resolve_addr` yields: a memory address is already the literal value,
/// a register address stands for the register's content, and any other word
/// is an invalid operand.
pub open spec fn spec_resolve(c: CpuView, addr: u16) -> Option<u16> {
    if layout::spec_is_mem(addr) {
        Some(addr)
    } else if layout::spec_is_reg(addr) {
        Some(c.regs[addr - layout::REG_MIN])
    } else {
        None
    }
}

/// What `read` yields: the memory word at a memory address, the content of
/// a register at a register address.
pub open spec fn spec_read(c: CpuView, addr: u16) -> Option<u16> {
    if layout::spec_is_mem(addr) {
        Some(c.mem[addr as int])
    } else if layout::spec_is_reg(addr) {
        Some(c.regs[addr - layout::REG_MIN])
    } else {
        None
    }
}

/// Store `v` at destination address `a`, which must name a register; any
/// other destination stops the engine.
pub open spec fn spec_write_reg(c: CpuView, a: u16, v: u16) -> CpuView {
    if layout::spec_is_reg(a) {
        CpuView { regs: c.regs.update(a - layout::REG_MIN, v), ..c }
    } else {
        spec_halted(c, HaltReason::NotRegister)
    }
}

/// Point the instruction pointer at `v`, stopping on a target outside
/// memory.
pub open spec fn spec_set_ip(c: CpuView, v: u16) -> CpuView {
    if layout::spec_is_mem(v) {
        CpuView { ip: v as int, ..c }
    } else {
        spec_halted(c, HaltReason::IpOutOfRange)
    }
}

/// The semantics of one decoded instruction. `ip0` is the address the
/// instruction was decoded from; `In` rewinds to it when no input is
/// buffered, so that execution can resume once input arrives.
pub open spec fn spec_exec(c: CpuView, i: Insn, ip0: int) -> CpuView {
    match i {
        Insn::Halt => spec_halted(c, HaltReason::HaltInstruction),
        Insn::SetReg(a, b) => spec_write_reg(c, a, b),
        Insn::Push(a) => match spec_resolve(c, a) {
            Some(v) => CpuView { stack: c.stack.push(v), ..c },
            None => spec_halted(c, HaltReason::InvalidOperand),
        },
        Insn::Pop(a) => {
            if c.stack.len() == 0 {
                spec_halted(c, HaltReason::StackUnderflow)
            } else {
                spec_write_reg(
                    CpuView { stack: c.stack.drop_last(), ..c },
                    a,
                    c.stack.last(),
                )
            }
        },
        Insn::Eq(a, b, cc) => match (spec_resolve(c, b), spec_resolve(c, cc)) {
            (Some(vb), Some(vc)) => spec_write_reg(c, a, if vb == vc { 1u16 } else { 0u16 }),
            _ => spec_halted(c, HaltReason::InvalidOperand),
        },
        Insn::Gt(a, b, cc) => match (spec_resolve(c, b), spec_resolve(c, cc)) {
            (Some(vb), Some(vc)) => spec_write_reg(c, a, if vb > vc { 1u16 } else { 0u16 }),
            _ => spec_halted(c, HaltReason::InvalidOperand),
        },
        Insn::Jmp(a) => match spec_resolve(c, a) {
            Some(v) => spec_set_ip(c, v),
            None => spec_halted(c, HaltReason::InvalidOperand),
        },
        Insn::Jt(a, b) => match spec_resolve(c, a) {
            Some(cond) => {
                if cond != 0 {
                    match spec_resolve(c, b) {
                        Some(v) => spec_set_ip(c, v),
                        None => spec_halted(c, HaltReason::InvalidOperand),
                    }
                } else {
                    c
                }
            },
            None => spec_halted(c, HaltReason::InvalidOperand),
        },
        Insn::Jf(a, b) => match spec_resolve(c, a) {
            Some(cond) => {
                if cond == 0 {
                    match spec_resolve(c, b) {
                        Some(v) => spec_set_ip(c, v),
                        None => spec_halted(c, HaltReason::InvalidOperand),
                    }
                } else {
                    c
                }
            },
            None => spec_halted(c, HaltReason::InvalidOperand),
        },
        Insn::Add(a, b, cc) => match (spec_resolve(c, b), spec_resolve(c, cc)) {
            (Some(vb), Some(vc)) => spec_write_reg(c, a, ((vb + vc) % 32768) as u16),
            _ => spec_halted(c, HaltReason::InvalidOperand),
        },
        Insn::Mult(a, b, cc) => match (spec_resolve(c, b), spec_resolve(c, cc)) {
            (Some(vb), Some(vc)) => spec_write_reg(c, a, ((vb * vc) % 32768) as u16),
            _ => spec_halted(c, HaltReason::InvalidOperand),
        },
        Insn::Mod(a, b, cc) => match (spec_resolve(c, b), spec_resolve(c, cc)) {
            (Some(vb), Some(vc)) => {
                if vc == 0 {
                    spec_halted(c, HaltReason::DivideByZero)
                } else {
                    spec_write_reg(c, a, (vb % vc) as u16)
                }
            },
            _ => spec_halted(c, HaltReason::InvalidOperand),
        },
        Insn::And(a, b, cc) => match (spec_resolve(c, b), spec_resolve(c, cc)) {
            (Some(vb), Some(vc)) => spec_write_reg(c, a, vb & vc),
            _ => spec_halted(c, HaltReason::InvalidOperand),
        },
        Insn::Or(a, b, cc) => match (spec_resolve(c, b), spec_resolve(c, cc)) {
            (Some(vb), Some(vc)) => spec_write_reg(c, a, vb | vc),
            _ => spec_halted(c, HaltReason::InvalidOperand),
        },
        Insn::Not(a, b) => match spec_resolve(c, b) {
            Some(vb) => spec_write_reg(c, a, !vb & 0x7FFF),
            None => spec_halted(c, HaltReason::InvalidOperand),
        },
        Insn::Rmem(a, b) => match spec_resolve(c, b) {
            Some(addr) => match spec_read(c, addr) {
                Some(v) => spec_write_reg(c, a, v),
                None => spec_halted(c, HaltReason::InvalidOperand),
            },
            None => spec_halted(c, HaltReason::InvalidOperand),
        },
        Insn::Wmem(a, b) => match (spec_resolve(c, a), spec_resolve(c, b)) {
            (Some(addr), Some(v)) => {
                if layout::spec_is_mem(addr) {
                    CpuView { mem: c.mem.update(addr as int, v), ..c }
                } else {
                    spec_halted(c, HaltReason::InvalidOperand)
                }
            },
            _ => spec_halted(c, HaltReason::InvalidOperand),
        },
        Insn::Call(a) => match spec_resolve(c, a) {
            Some(v) => spec_set_ip(CpuView { stack: c.stack.push(c.ip as u16), ..c }, v),
            None => spec_halted(c, HaltReason::InvalidOperand),
        },
        Insn::Ret => {
            if c.stack.len() == 0 {
                spec_halted(c, HaltReason::StackUnderflow)
            } else {
                spec_set_ip(CpuView { stack: c.stack.drop_last(), ..c }, c.stack.last())
            }
        },
        Insn::Out(ch) => {
            if ch as u32 > 0xFFFF {
                spec_halted(c, HaltReason::InvalidOperand)
            } else {
                match spec_resolve(c, (ch as u32) as u16) {
                    Some(v) => {
                        if crate::insn::spec_is_surrogate(v) {
                            spec_halted(c, HaltReason::BadCodePoint)
                        } else {
                            CpuView { output: c.output.push(v as char), ..c }
                        }
                    },
                    None => spec_halted(c, HaltReason::InvalidOperand),
                }
            }
        },
        Insn::In(ch) => {
            if ch as u32 > 0xFFFF {
                spec_halted(c, HaltReason::InvalidOperand)
            } else if c.input.len() == 0 {
                CpuView {
                    ip: ip0,
                    state: State::Stopped,
                    reason: Some(HaltReason::WaitingForInput),
                    ..c
                }
            } else if c.input[0] as u32 > 0xFFFF {
                spec_halted(c, HaltReason::BadCodePoint)
            } else {
                spec_write_reg(
                    CpuView { input: c.input.remove(0), ..c },
                    (ch as u32) as u16,
                    (c.input[0] as u32) as u16,
                )
            }
        },
        Insn::Noop => c,
    }
}

/// The semantics of one whole `step`: decode, then — unless decoding
/// already stopped the engine — capture a trace event when `verbose` is
/// set and execute the instruction.
#[verifier::opaque]
pub open spec fn spec_step(c: CpuView, verbose: bool) -> CpuView {
    let (oi, c1) = crate::insn::spec_decode(c);
    match oi {
        None => c1,
        Some(i) => {
            let c2 = if verbose {
                CpuView {
                    trace: c1.trace.push(TraceEvent { ip: c1.ip as usize, insn: i }),
                    ..c1
                }
            } else {
                c1
            };
            spec_exec(c2, i, c.ip)
        },
    }
}

/// What `reset` leaves: registers zeroed and the instruction pointer
/// rewound; memory and stack are deliberately kept.
pub open spec fn spec_reset(c: CpuView) -> CpuView {
    CpuView { regs: Seq::new(layout::NUM_REGS as nat, |i: int| 0u16), ip: 0, ..c }
}

/// The instruction pointer sits on the breakpoint.
pub open spec fn spec_at_breakpoint(c: CpuView) -> bool {
    c.breakpoint matches Some(bp) && bp as int == c.ip
}

/// Continuous execution pauses once the engine is no longer running, or
/// once it sits on the breakpoint.
pub open spec fn spec_cont_stop(c: CpuView) -> bool {
    !(c.state is Running) || spec_at_breakpoint(c)
}

/// The state reached from `c` by setting the engine running and stepping
/// `n` times.
pub open spec fn spec_cont_iter(c: CpuView, verbose: bool, n: nat) -> CpuView
    decreases n,
{
    if n == 0 {
        CpuView { state: State::Running, ..c }
    } else {
        spec_step(spec_cont_iter(c, verbose, (n - 1) as nat), verbose)
    }
}

impl Cpu {
    /// The engine's invariant, stated over its model.
    pub open spec fn wf(&self) -> bool {
        self@.wf()
    }

    /// Build an engine from a ROM image: an even-length byte sequence of
    /// consecutive little-endian 16-bit words, loaded from address 0. The
    /// word count must fit in memory. Registers, stack, pointer, state and
    /// breakpoint all start pristine.
    pub fn load(roms: Vec<u8>) -> (r: Result<Cpu, LoadError>)
        ensures
            roms@.len() % 2 != 0 ==> r == Err::<Cpu, LoadError>(LoadError::OddLength),
            roms@.len() % 2 == 0 && roms@.len() / 2 > layout::MEM_SIZE ==> r == Err::<
                Cpu,
                LoadError,
            >(LoadError::TooLarge),
            roms@.len() % 2 == 0 && roms@.len() / 2 <= layout::MEM_SIZE ==> (r matches Ok(cpu)
                && cpu.wf() && cpu@ == spec_loaded(roms@)),
    {
        if roms.len() % 2 != 0 {
            return Err(LoadError::OddLength);
        }
        let words: usize = roms.len() / 2;
        if words > layout::MEM_SIZE {
            return Err(LoadError::TooLarge);
        }
        let mut mem: Vec<u16> = Vec::new();
        let mut idx: usize = 0;
        while idx < layout::MEM_SIZE
            invariant
                idx <= layout::MEM_SIZE,
                mem@.len() == idx,
                words == roms@.len() / 2,
                words <= layout::MEM_SIZE,
                roms@.len() == 2 * words,
                forall|i: int|
                    0 <= i < idx ==> mem@[i] == (if i < words {
                        spec_word(roms@, i)
                    } else {
                        0u16
                    }),
            decreases layout::MEM_SIZE - idx,
        {
            if idx < words {
                let low = roms[2 * idx] as u16;
                let high = roms[2 * idx + 1] as u16;
                mem.push(low + 256 * high);
            } else {
                mem.push(0);
            }
            idx = idx + 1;
        }
        let mut regs: Vec<u16> = Vec::new();
        let mut k: usize = 0;
        while k < layout::NUM_REGS
            invariant
                k <= layout::NUM_REGS,
                regs@.len() == k,
                forall|i: int| 0 <= i < k ==> regs@[i] == 0u16,
            decreases layout::NUM_REGS - k,
        {
            regs.push(0);
            k = k + 1;
        }
        let cpu = Cpu {
            mem,
            regs,
            stack: Vec::new(),
            ip: 0,
            footprint: words as u16,
            state: State::Stopped,
            breakpoint: None,
            output: Vec::new(),
            input: Vec::new(),
            trace: Vec::new(),
            reason: None,
        };
        proof {
            assert(cpu@.mem =~= spec_loaded(roms@).mem);
            assert(cpu@.regs =~= spec_loaded(roms@).regs);
            assert(cpu@ =~= spec_loaded(roms@));
        }
        Ok(cpu)
    }

    /// Record `why` and stop the engine. Memory, registers, stack and the
    /// instruction pointer are untouched, so the state stays inspectable.
    pub fn halt(&mut self, why: HaltReason)
        ensures
            final(self)@ == spec_halted(old(self)@, why),
    {
        self.state = State::Stopped;
        self.reason = Some(why);
    }

    /// Zero the registers and rewind the instruction pointer. Memory and
    /// stack are deliberately kept.
    pub fn reset(&mut self)
        requires
            old(self).wf(),
        ensures
            final(self).wf(),
            final(self)@ == spec_reset(old(self)@),
    {
        let mut k: usize = 0;
        while k < layout::NUM_REGS
            invariant
                k <= layout::NUM_REGS,
                self.regs.len() == layout::NUM_REGS,
                forall|i: int| 0 <= i < k ==> self.regs@[i] == 0u16,
                forall|i: int| k <= i < layout::NUM_REGS ==> self.regs@[i] == old(self).regs@[i],
                self.mem == old(self).mem,
                self.stack == old(self).stack,
                self.ip == old(self).ip,
                self.footprint == old(self).footprint,
                self.state == old(self).state,
                self.breakpoint == old(self).breakpoint,
                self.output == old(self).output,
                self.input == old(self).input,
                self.trace == old(self).trace,
                self.reason == old(self).reason,
            decreases layout::NUM_REGS - k,
        {
            self.regs[k] = 0;
            k = k + 1;
        }
        self.ip = 0;
        proof {
            assert(self.regs@ =~= Seq::new(layout::NUM_REGS as nat, |i: int| 0u16));
            assert(self@ =~= spec_reset(old(self)@));
        }
    }

    /// Resolve an operand: a memory address is returned as the literal it
    /// is; a register address yields the register's content; anything else
    /// is an invalid operand.
    pub fn resolve_addr(&self, addr: u16) -> (r: Option<u16>)
        requires
            self.wf(),
        ensures
            r == spec_resolve(self@, addr),
    {
        if layout::is_mem(addr) {
            Some(addr)
        } else if layout::is_reg(addr) {
            Some(self.regs[(addr - layout::REG_MIN) as usize])
        } else {
            None
        }
    }

    /// Read the word a memory address holds, or the content of a register.
    pub fn read(&self, addr: u16) -> (r: Option<u16>)
        requires
            self.wf(),
        ensures
            r == spec_read(self@, addr),
    {
        if layout::is_mem(addr) {
            Some(self.mem[addr as usize])
        } else if layout::is_reg(addr) {
            Some(self.regs[(addr - layout::REG_MIN) as usize])
        } else {
            None
        }
    }

    /// Store `value` into the register that `addr` names. Every address
    /// outside the register range is rejected and nothing changes.
    pub fn write(&mut self, addr: u16, value: u16) -> (r: bool)
        requires
            old(self).wf(),
        ensures
            final(self).wf(),
            r == layout::spec_is_reg(addr),
            r ==> final(self)@ == (CpuView {
                regs: old(self)@.regs.update(addr - layout::REG_MIN, value),
                ..old(self)@
            }),
            !r ==> final(self)@ == old(self)@,
    {
        if layout::is_reg(addr) {
            self.regs[(addr - layout::REG_MIN) as usize] = value;
            true
        } else {
            false
        }
    }

    /// Fetch the word under the instruction pointer and advance by one.
    /// With the pointer past the end of memory the engine halts instead.
    pub fn fetch(&mut self) -> (r: Option<u16>)
        requires
            old(self).wf(),
        ensures
            final(self).wf(),
            old(self)@.ip < layout::MEM_SIZE ==> {
                &&& r == Some(old(self)@.mem[old(self)@.ip])
                &&& final(self)@ == (CpuView { ip: old(self)@.ip + 1, ..old(self)@ })
            },
            old(self)@.ip >= layout::MEM_SIZE ==> {
                &&& r is None
                &&& final(self)@ == spec_halted(old(self)@, HaltReason::IpOutOfRange)
            },
    {
        if self.ip < layout::MEM_SIZE {
            let word = self.mem[self.ip];
            self.ip = self.ip + 1;
            Some(word)
        } else {
            self.halt(HaltReason::IpOutOfRange);
            None
        }
    }

    /// Point the instruction pointer at `ip`, refusing a target outside
    /// memory; on refusal the engine halts and the pointer keeps its value.
    pub fn set_ip(&mut self, ip: u16) -> (r: bool)
        requires
            old(self).wf(),
        ensures
            final(self).wf(),
            r == layout::spec_is_mem(ip),
            r ==> final(self)@ == (CpuView { ip: ip as int, ..old(self)@ }),
            !r ==> final(self)@ == spec_halted(old(self)@, HaltReason::IpOutOfRange),
    {
        if layout::is_mem(ip) {
            self.ip = ip as usize;
            true
        } else {
            self.halt(HaltReason::IpOutOfRange);
            false
        }
    }

    /// Store `value` at the destination `addr` names, halting the engine
    /// when it is not a register.
    fn write_dest(&mut self, addr: u16, value: u16)
        requires
            old(self).wf(),
        ensures
            final(self).wf(),
            final(self)@ == spec_write_reg(old(self)@, addr, value),
    {
        if !self.write(addr, value) {
            self.halt(HaltReason::NotRegister);
        }
    }

    /// Decode one instruction and execute it. A decode failure has already
    /// stopped the engine and leaves nothing to do. With `verbose` set, a
    /// trace event is captured before the instruction is applied.
    pub fn step(&mut self, verbose: bool)
        requires
            old(self).wf(),
        ensures
            final(self).wf(),
            final(self)@ == spec_step(old(self)@, verbose),
    {
        proof {
            reveal(spec_step);
        }
        let start_ip = self.ip;
        let insn = match crate::insn::get(self) {
            Some(i) => i,
            None => {
                return ;
            },
        };
        if verbose {
            let ip = self.ip;
            self.trace.push(TraceEvent { ip, insn });
        }
        self.exec_insn(insn, start_ip);
    }

    /// Apply one decoded instruction to the state. `start_ip` is the
    /// address the instruction was decoded from.
    fn exec_insn(&mut self, insn: Insn, start_ip: usize)
        requires
            old(self).wf(),
            start_ip <= layout::MEM_SIZE,
        ensures
            final(self).wf(),
            final(self)@ == spec_exec(old(self)@, insn, start_ip as int),
    {
        match insn {
            Insn::Halt | Insn::Jmp(_) | Insn::Jt(_, _) | Insn::Jf(_, _) | Insn::Call(_)
                | Insn::Ret | Insn::Noop => self.exec_flow(insn, start_ip),
            Insn::Eq(_, _, _) | Insn::Gt(_, _, _) | Insn::Add(_, _, _) | Insn::Mult(_, _, _)
                | Insn::Mod(_, _, _) | Insn::And(_, _, _) | Insn::Or(_, _, _)
                | Insn::Not(_, _) => self.exec_alu(insn, start_ip),
            Insn::SetReg(_, _) | Insn::Push(_) | Insn::Pop(_) | Insn::Rmem(_, _)
                | Insn::Wmem(_, _) => self.exec_store(insn, start_ip),
            Insn::Out(_) | Insn::In(_) => self.exec_io(insn, start_ip),
        }
    }

    /// Control flow: halting, jumps, calls and returns, and `Noop`.
    fn exec_flow(&mut self, insn: Insn, start_ip: usize)
        requires
            old(self).wf(),
            insn is Halt || insn is Jmp || insn is Jt || insn is Jf || insn is Call
                || insn is Ret || insn is Noop,
        ensures
            final(self).wf(),
            final(self)@ == spec_exec(old(self)@, insn, start_ip as int),
    {
        match insn {
            Insn::Halt => {
                self.halt(HaltReason::HaltInstruction);
            },
            Insn::Jmp(a) => {
                match self.resolve_addr(a) {
                    Some(v) => {
                        self.set_ip(v);
                    },
                    None => {
                        self.halt(HaltReason::InvalidOperand);
                    },
                }
            },
            Insn::Jt(a, b) => {
                match self.resolve_addr(a) {
                    Some(cond) => {
                        if cond != 0 {
                            match self.resolve_addr(b) {
                                Some(v) => {
                                    self.set_ip(v);
                                },
                                None => {
                                    self.halt(HaltReason::InvalidOperand);
                                },
                            }
                        }
                    },
                    None => {
                        self.halt(HaltReason::InvalidOperand);
                    },
                }
            },
            Insn::Jf(a, b) => {
                match self.resolve_addr(a) {
                    Some(cond) => {
                        if cond == 0 {
                            match self.resolve_addr(b) {
                                Some(v) => {
                                    self.set_ip(v);
                                },
                                None => {
                                    self.halt(HaltReason::InvalidOperand);
                                },
                            }
                        }
                    },
                    None => {
                        self.halt(HaltReason::InvalidOperand);
                    },
                }
            },
            Insn::Call(a) => {
                match self.resolve_addr(a) {
                    Some(v) => {
                        let here = self.ip as u16;
                        self.stack.push(here);
                        self.set_ip(v);
                    },
                    None => {
                        self.halt(HaltReason::InvalidOperand);
                    },
                }
            },
            Insn::Ret => {
                match self.stack.pop() {
                    Some(v) => {
                        self.set_ip(v);
                    },
                    None => {
                        self.halt(HaltReason::StackUnderflow);
                    },
                }
            },
            Insn::Noop => {},
            _ => {},
        }
    }

    /// Comparisons, modular arithmetic and the bitwise operations.
    fn exec_alu(&mut self, insn: Insn, start_ip: usize)
        requires
            old(self).wf(),
            insn is Eq || insn is Gt || insn is Add || insn is Mult || insn is Mod
                || insn is And || insn is Or || insn is Not,
        ensures
            final(self).wf(),
            final(self)@ == spec_exec(old(self)@, insn, start_ip as int),
    {
        match insn {
            Insn::Eq(a, b, c) => {
                match (self.resolve_addr(b), self.resolve_addr(c)) {
                    (Some(vb), Some(vc)) => {
                        self.write_dest(a, if vb == vc { 1 } else { 0 });
                    },
                    _ => {
                        self.halt(HaltReason::InvalidOperand);
                    },
                }
            },
            Insn::Gt(a, b, c) => {
                match (self.resolve_addr(b), self.resolve_addr(c)) {
                    (Some(vb), Some(vc)) => {
                        self.write_dest(a, if vb > vc { 1 } else { 0 });
                    },
                    _ => {
                        self.halt(HaltReason::InvalidOperand);
                    },
                }
            },
            Insn::Add(a, b, c) => {
                match (self.resolve_addr(b), self.resolve_addr(c)) {
                    (Some(vb), Some(vc)) => {
                        let sum = ((vb as u32 + vc as u32) % 32768) as u16;
                        self.write_dest(a, sum);
                    },
                    _ => {
                        self.halt(HaltReason::InvalidOperand);
                    },
                }
            },
            Insn::Mult(a, b, c) => {
                match (self.resolve_addr(b), self.resolve_addr(c)) {
                    (Some(vb), Some(vc)) => {
                        proof {
                            assert(vb as int * vc as int <= 65535 * 65535) by (nonlinear_arith)
                                requires
                                    vb <= 65535,
                                    vc <= 65535,
                            ;
                        }
                        let prod = ((vb as u32 * vc as u32) % 32768) as u16;
                        self.write_dest(a, prod);
                    },
                    _ => {
                        self.halt(HaltReason::InvalidOperand);
                    },
                }
            },
            Insn::Mod(a, b, c) => {
                match (self.resolve_addr(b), self.resolve_addr(c)) {
                    (Some(vb), Some(vc)) => {
                        if vc == 0 {
                            self.halt(HaltReason::DivideByZero);
                        } else {
                            self.write_dest(a, vb % vc);
                        }
                    },
                    _ => {
                        self.halt(HaltReason::InvalidOperand);
                    },
                }
            },
            Insn::And(a, b, c) => {
                match (self.resolve_addr(b), self.resolve_addr(c)) {
                    (Some(vb), Some(vc)) => {
                        self.write_dest(a, vb & vc);
                    },
                    _ => {
                        self.halt(HaltReason::InvalidOperand);
                    },
                }
            },
            Insn::Or(a, b, c) => {
                match (self.resolve_addr(b), self.resolve_addr(c)) {
                    (Some(vb), Some(vc)) => {
                        self.write_dest(a, vb | vc);
                    },
                    _ => {
                        self.halt(HaltReason::InvalidOperand);
                    },
                }
            },
            Insn::Not(a, b) => {
                match self.resolve_addr(b) {
                    Some(vb) => {
                        self.write_dest(a, !vb & 0x7FFF);
                    },
                    None => {
                        self.halt(HaltReason::InvalidOperand);
                    },
                }
            },
            _ => {},
        }
    }

    /// Data movement: register writes, the stack, and memory cells.
    fn exec_store(&mut self, insn: Insn, start_ip: usize)
        requires
            old(self).wf(),
            insn is SetReg || insn is Push || insn is Pop || insn is Rmem || insn is Wmem,
        ensures
            final(self).wf(),
            final(self)@ == spec_exec(old(self)@, insn, start_ip as int),
    {
        match insn {
            Insn::SetReg(a, b) => {
                self.write_dest(a, b);
            },
            Insn::Push(a) => {
                match self.resolve_addr(a) {
                    Some(v) => {
                        self.stack.push(v);
                    },
                    None => {
                        self.halt(HaltReason::InvalidOperand);
                    },
                }
            },
            Insn::Pop(a) => {
                match self.stack.pop() {
                    Some(v) => {
                        self.write_dest(a, v);
                    },
                    None => {
                        self.halt(HaltReason::StackUnderflow);
                    },
                }
            },
            Insn::Rmem(a, b) => {
                match self.resolve_addr(b) {
                    Some(addr) => {
                        match self.read(addr) {
                            Some(v) => {
                                self.write_dest(a, v);
                            },
                            None => {
                                self.halt(HaltReason::InvalidOperand);
                            },
                        }
                    },
                    None => {
                        self.halt(HaltReason::InvalidOperand);
                    },
                }
            },
            Insn::Wmem(a, b) => {
                match (self.resolve_addr(a), self.resolve_addr(b)) {
                    (Some(addr), Some(v)) => {
                        if layout::is_mem(addr) {
                            self.mem[addr as usize] = v;
                        } else {
                            self.halt(HaltReason::InvalidOperand);
                        }
                    },
                    _ => {
                        self.halt(HaltReason::InvalidOperand);
                    },
                }
            },
            _ => {},
        }
    }

    /// The character stream: `Out` appends to the output buffer; `In`
    /// consumes the next buffered input character, or rewinds to the
    /// instruction and stops to wait for one.
    fn exec_io(&mut self, insn: Insn, start_ip: usize)
        requires
            old(self).wf(),
            start_ip <= layout::MEM_SIZE,
            insn is Out || insn is In,
        ensures
            final(self).wf(),
            final(self)@ == spec_exec(old(self)@, insn, start_ip as int),
    {
        match insn {
            Insn::Out(ch) => {
                let a = ch as u32;
                if a > 0xFFFF {
                    self.halt(HaltReason::InvalidOperand);
                } else {
                    match self.resolve_addr(a as u16) {
                        Some(v) => {
                            match crate::insn::char_from_word(v) {
                                Some(oc) => {
                                    self.output.push(oc);
                                },
                                None => {
                                    self.halt(HaltReason::BadCodePoint);
                                },
                            }
                        },
                        None => {
                            self.halt(HaltReason::InvalidOperand);
                        },
                    }
                }
            },
            Insn::In(ch) => {
                let dest = ch as u32;
                if dest > 0xFFFF {
                    self.halt(HaltReason::InvalidOperand);
                } else if self.input.len() == 0 {
                    self.ip = start_ip;
                    self.state = State::Stopped;
                    self.reason = Some(HaltReason::WaitingForInput);
                } else {
                    let head: char = self.input[0];
                    let code = head as u32;
                    if code > 0xFFFF {
                        self.halt(HaltReason::BadCodePoint);
                    } else {
                        self.input.remove(0);
                        self.write_dest(dest as u16, code as u16);
                    }
                }
            },
            _ => {},
        }
    }


    /// Set the engine running and step until it stops on its own or the
    /// instruction pointer lands on the breakpoint; on a breakpoint pause
    /// the engine stays `Running` and a later call resumes. The loop gives
    /// up after `u64::MAX` steps, far beyond anything reachable; the last
    /// disjunct of the contract records that bound.
    pub fn cont(&mut self, verbose: bool)
        requires
            old(self).wf(),
        ensures
            final(self).wf(),
            exists|n: nat|
                1 <= n <= u64::MAX && final(self)@ == spec_cont_iter(old(self)@, verbose, n)
                    && (spec_cont_stop(final(self)@) || n == u64::MAX) && (forall|m: nat|
                    1 <= m < n ==> !spec_cont_stop(spec_cont_iter(old(self)@, verbose, m))),
    {
        self.state = State::Running;
        let ghost c0 = old(self)@;
        let ghost mut n: nat = 0nat;
        proof {
            assert(self@ == spec_cont_iter(c0, verbose, 0));
        }
        let mut fuel: u64 = u64::MAX;
        loop
            invariant_except_break
                self@.state is Running,
                fuel > 0,
                forall|m: nat| 1 <= m <= n ==> !spec_cont_stop(spec_cont_iter(c0, verbose, m)),
            invariant
                self.wf(),
                n + fuel == u64::MAX,
                self@ == spec_cont_iter(c0, verbose, n),
            ensures
                self.wf(),
                exists|k: nat|
                    1 <= k <= u64::MAX && self@ == spec_cont_iter(c0, verbose, k)
                        && (spec_cont_stop(self@) || k == u64::MAX) && (forall|m: nat|
                        1 <= m < k ==> !spec_cont_stop(spec_cont_iter(c0, verbose, m))),
            decreases fuel,
        {
            self.step(verbose);
            fuel = fuel - 1;
            proof {
                n = n + 1;
                assert(self@ == spec_cont_iter(c0, verbose, n));
            }
            if self.state != State::Running {
                proof {
                    assert(1 <= n <= u64::MAX && self@ == spec_cont_iter(c0, verbose, n)
                        && (spec_cont_stop(self@) || n == u64::MAX) && (forall|m: nat|
                        1 <= m < n ==> !spec_cont_stop(spec_cont_iter(c0, verbose, m))));
                }
                break;
            }
            if let Some(bp) = self.breakpoint {
                if bp as usize == self.ip {
                    proof {
                        assert(1 <= n <= u64::MAX && self@ == spec_cont_iter(c0, verbose, n)
                            && (spec_cont_stop(self@) || n == u64::MAX) && (forall|m: nat|
                            1 <= m < n ==> !spec_cont_stop(spec_cont_iter(c0, verbose, m))));
                    }
                    break;
                }
            }
            if fuel == 0 {
                proof {
                    assert(1 <= n <= u64::MAX && self@ == spec_cont_iter(c0, verbose, n)
                        && (spec_cont_stop(self@) || n == u64::MAX) && (forall|m: nat|
                        1 <= m < n ==> !spec_cont_stop(spec_cont_iter(c0, verbose, m))));
                }
                break;
            }
        }
    }

    /// Forget the breakpoint, if one is set.
    pub fn clear_breakpoint(&mut self)
        requires
            old(self).wf(),
        ensures
            final(self).wf(),
            final(self)@ == (CpuView { breakpoint: None, ..old(self)@ }),
    {
        self.breakpoint = None;
    }

    /// Reset registers and instruction pointer, then run until the engine
    /// stops or pauses on the breakpoint. A fresh run reuses whatever the
    /// stack and memory held before.
    pub fn run(&mut self, verbose: bool)
        requires
            old(self).wf(),
        ensures
            final(self).wf(),
            exists|n: nat|
                1 <= n <= u64::MAX
                    && final(self)@ == spec_cont_iter(spec_reset(old(self)@), verbose, n)
                    && (spec_cont_stop(final(self)@) || n == u64::MAX) && (forall|m: nat|
                    1 <= m < n ==> !spec_cont_stop(
                        spec_cont_iter(spec_reset(old(self)@), verbose, m),
                    )),
    {
        self.reset();
        self.cont(verbose);
    }

    /// Watch `addr`: continuous execution pauses when the instruction
    /// pointer reaches it. An address outside memory is rejected and any
    /// previously set breakpoint is kept.
    pub fn set_breakpoint(&mut self, addr: u16) -> (r: bool)
        requires
            old(self).wf(),
        ensures
            final(self).wf(),
            r == layout::spec_is_mem(addr),
            r ==> final(self)@ == (CpuView { breakpoint: Some(addr), ..old(self)@ }),
            !r ==> final(self)@ == old(self)@,
    {
        if layout::is_mem(addr) {
            self.breakpoint = Some(addr);
            true
        } else {
            false
        }
    }
}

} // verus!

