//! The CPU: its register file, the 16-bit views over register pairs, and the
//! fetch, decode and execute cycle.

pub mod flags;

use vstd::prelude::*;
use crate::mem::{Mem, ROM_BANK_SIZE};

verus! {

/// The 16-bit value of a register pair: `high` holds bits 15..8 and `low`
/// holds bits 7..0.
pub open spec fn pair_value(high: u8, low: u8) -> u16 {
    (high as int * 256 + low as int) as u16
}

/// The high byte (bits 15..8) of a 16-bit value.
pub open spec fn high_byte(v: u16) -> u8 {
    (v as int / 256) as u8
}

/// The low byte (bits 7..0) of a 16-bit value.
pub open spec fn low_byte(v: u16) -> u8 {
    (v as int % 256) as u8
}

/// Splits a 16-bit value into its high and low bytes, in that order.
pub fn to_h_l(b: u16) -> (r: (u8, u8))
    ensures
        r.0 == high_byte(b),
        r.1 == low_byte(b),
{
    let low: u8 = (b & 0xff) as u8;
    let high: u8 = (b >> 8) as u8;
    assert(b & 0xff == b % 256) by (bit_vector);
    assert(b >> 8 == b / 256) by (bit_vector);
    (high, low)
}

/// Composes a 16-bit value from a high and a low byte.
pub fn combine_h_l(h: u8, l: u8) -> (r: u16)
    ensures
        r == pair_value(h, l),
{
    assert((h as u16) << 8 | (l as u16) == (h as u16) * 256 + (l as u16)) by (bit_vector);
    (h as u16) << 8 | (l as u16)
}

/// Splitting a 16-bit value and composing the two bytes again gives the value
/// back.
pub proof fn lemma_split_then_combine(v: u16)
    ensures
        pair_value(high_byte(v), low_byte(v)) == v,
{
}

/// Composing two bytes and splitting the result gives the two bytes back.
pub proof fn lemma_combine_then_split(high: u8, low: u8)
    ensures
        high_byte(pair_value(high, low)) == high,
        low_byte(pair_value(high, low)) == low,
{
}

/// The register file of the CPU.
///
/// The eight 8-bit registers pair up into four 16-bit views, AF, BC, DE and
/// HL; the first-named register of a pair is its high byte. A pair is
/// computed from its two registers on every read and is never stored.
#[derive(Clone, Copy, Debug, PartialEq, Eq, Structural)]
pub struct CPU {
    pub a: u8,
    pub b: u8,
    pub c: u8,
    pub d: u8,
    pub e: u8,
    /// The flags register.
    pub f: u8,
    pub h: u8,
    pub l: u8,
    /// The stack pointer.
    pub sp: u16,
    /// The program counter: the address of the next byte to fetch.
    pub pc: u16,
}

/// The program counter after reset.
pub const RESET_PC: u16 = 0x0100;

/// The stack pointer after reset.
pub const RESET_SP: u16 = 0xfffe;

impl CPU {
    /// The value of the register pair AF.
    pub open spec fn spec_af(&self) -> u16 {
        pair_value(self.a, self.f)
    }

    /// The value of the register pair BC.
    pub open spec fn spec_bc(&self) -> u16 {
        pair_value(self.b, self.c)
    }

    /// The value of the register pair DE.
    pub open spec fn spec_de(&self) -> u16 {
        pair_value(self.d, self.e)
    }

    /// The value of the register pair HL.
    pub open spec fn spec_hl(&self) -> u16 {
        pair_value(self.h, self.l)
    }

    /// The register file with AF set to `v` and all else as in `self`.
    pub open spec fn with_af(self, v: u16) -> CPU {
        CPU { a: high_byte(v), f: low_byte(v), ..self }
    }

    /// The register file with BC set to `v` and all else as in `self`.
    pub open spec fn with_bc(self, v: u16) -> CPU {
        CPU { b: high_byte(v), c: low_byte(v), ..self }
    }

    /// The register file with DE set to `v` and all else as in `self`.
    pub open spec fn with_de(self, v: u16) -> CPU {
        CPU { d: high_byte(v), e: low_byte(v), ..self }
    }

    /// The register file with HL set to `v` and all else as in `self`.
    pub open spec fn with_hl(self, v: u16) -> CPU {
        CPU { h: high_byte(v), l: low_byte(v), ..self }
    }

    /// Reads the register pair AF.
    #[verifier::when_used_as_spec(spec_af)]
    pub fn af(&self) -> (v: u16)
        ensures
            v == self.spec_af(),
    {
        combine_h_l(self.a, self.f)
    }

    /// Writes the register pair AF.
    pub fn af_set(&mut self, v: u16)
        ensures
            *final(self) == old(self).with_af(v),
    {
        let (high, low) = to_h_l(v);
        self.a = high;
        self.f = low;
    }

    /// Reads the register pair BC.
    #[verifier::when_used_as_spec(spec_bc)]
    pub fn bc(&self) -> (v: u16)
        ensures
            v == self.spec_bc(),
    {
        combine_h_l(self.b, self.c)
    }

    /// Writes the register pair BC.
    pub fn bc_set(&mut self, v: u16)
        ensures
            *final(self) == old(self).with_bc(v),
    {
        let (high, low) = to_h_l(v);
        self.b = high;
        self.c = low;
    }

    /// Reads the register pair DE.
    #[verifier::when_used_as_spec(spec_de)]
    pub fn de(&self) -> (v: u16)
        ensures
            v == self.spec_de(),
    {
        combine_h_l(self.d, self.e)
    }

    /// Writes the register pair DE.
    pub fn de_set(&mut self, v: u16)
        ensures
            *final(self) == old(self).with_de(v),
    {
        let (high, low) = to_h_l(v);
        self.d = high;
        self.e = low;
    }

    /// Reads the register pair HL.
    #[verifier::when_used_as_spec(spec_hl)]
    pub fn hl(&self) -> (v: u16)
        ensures
            v == self.spec_hl(),
    {
        combine_h_l(self.h, self.l)
    }

    /// Writes the register pair HL.
    pub fn hl_set(&mut self, v: u16)
        ensures
            *final(self) == old(self).with_hl(v),
    {
        let (high, low) = to_h_l(v);
        self.h = high;
        self.l = low;
    }
}

/// Writing a register pair and reading it again gives exactly the value
/// written, for each of the four pairs and every 16-bit value.
pub proof fn lemma_pair_round_trip(cpu: CPU, v: u16)
    ensures
        cpu.with_af(v).af() == v,
        cpu.with_bc(v).bc() == v,
        cpu.with_de(v).de() == v,
        cpu.with_hl(v).hl() == v,
{
    lemma_split_then_combine(v);
}

/// Writing back to a register pair the value read from it changes nothing.
pub proof fn lemma_pair_write_back(cpu: CPU)
    ensures
        cpu.with_af(cpu.af()) == cpu,
        cpu.with_bc(cpu.bc()) == cpu,
        cpu.with_de(cpu.de()) == cpu,
        cpu.with_hl(cpu.hl()) == cpu,
{
    lemma_combine_then_split(cpu.a, cpu.f);
    lemma_combine_then_split(cpu.b, cpu.c);
    lemma_combine_then_split(cpu.d, cpu.e);
    lemma_combine_then_split(cpu.h, cpu.l);
}

/// The register file after reset: the program counter at the entry point
/// `0x0100`, the stack pointer at `0xfffe`, every 8-bit register zero.
pub open spec fn reset_state() -> CPU {
    CPU { a: 0, b: 0, c: 0, d: 0, e: 0, f: 0, h: 0, l: 0, sp: RESET_SP, pc: RESET_PC }
}

/// A CPU in its reset state.
pub fn init() -> (cpu: CPU)
    ensures
        cpu == reset_state(),
        cpu.pc == 0x0100,
        cpu.sp == 0xfffe,
        cpu.a == 0 && cpu.b == 0 && cpu.c == 0 && cpu.d == 0,
        cpu.e == 0 && cpu.f == 0 && cpu.h == 0 && cpu.l == 0,
{
    CPU {
        a: 0x00,
        b: 0x00,
        c: 0x00,
        d: 0x00,
        e: 0x00,
        f: 0x00,
        h: 0x00,
        l: 0x00,
        pc: RESET_PC,
        sp: RESET_SP,
    }
}

/// A decoded instruction.
#[derive(Clone, Copy, Debug, PartialEq, Eq, Structural)]
pub enum Instruction {
    /// No operation.
    NOP,
    /// Absolute jump. The operand is held as it stands in ROM: least
    /// significant byte first, most significant byte second.
    JP(u8, u8),
}

/// Why the CPU could not go on.
#[derive(Clone, Copy, Debug, PartialEq, Eq, Structural)]
pub enum Fault {
    /// The byte `opcode`, fetched at `address`, stands for no instruction.
    UnimplementedOpcode { opcode: u8, address: u16 },
    /// An opcode or operand byte was needed from `offset`, which lies past
    /// the end of the fixed ROM bank.
    OutOfRange { offset: usize },
}

/// The opcode of [`Instruction::NOP`].
pub const OP_NOP: u8 = 0x00;

/// The opcode of [`Instruction::JP`].
pub const OP_JP: u8 = 0xC3;

/// The opcode byte at `pc`, or the fault where `pc` lies outside `rom`.
pub open spec fn fetch_spec(pc: u16, rom: Seq<u8>) -> Result<u8, Fault> {
    if pc < rom.len() {
        Ok(rom[pc as int])
    } else {
        Err(Fault::OutOfRange { offset: pc as usize })
    }
}

/// The instruction that opcode `op`, found at `pc`, stands for.
///
/// `0x00` is a no-operation. `0xC3` is an absolute jump whose operand is the
/// two bytes that follow the opcode in `rom`, low byte at `pc + 1` and high
/// byte at `pc + 2`; where one of them lies outside `rom`, the first such
/// offset is reported. Any other opcode is reported as unimplemented.
pub open spec fn decode_spec(op: u8, pc: u16, rom: Seq<u8>) -> Result<Instruction, Fault> {
    if op == OP_NOP {
        Ok(Instruction::NOP)
    } else if op == OP_JP {
        if pc + 2 < rom.len() {
            Ok(Instruction::JP(rom[pc + 1], rom[pc + 2]))
        } else if pc + 1 < rom.len() {
            Err(Fault::OutOfRange { offset: (pc + 2) as usize })
        } else {
            Err(Fault::OutOfRange { offset: (pc + 1) as usize })
        }
    } else {
        Err(Fault::UnimplementedOpcode { opcode: op, address: pc })
    }
}

/// The register file after executing `i`.
///
/// A no-operation advances the program counter by one. A jump replaces the
/// program counter by the address composed of its operand bytes; it is not
/// advanced past the jump's own bytes. Nothing else changes.
pub open spec fn execute_spec(cpu: CPU, i: Instruction) -> CPU {
    match i {
        Instruction::NOP => CPU { pc: (cpu.pc + 1) as u16, ..cpu },
        Instruction::JP(ls, ms) => CPU { pc: pair_value(ms, ls), ..cpu },
    }
}

/// The instruction at the program counter of `cpu`: the opcode fetched there,
/// decoded.
pub open spec fn next_instruction(cpu: CPU, rom: Seq<u8>) -> Result<Instruction, Fault> {
    match fetch_spec(cpu.pc, rom) {
        Ok(op) => decode_spec(op, cpu.pc, rom),
        Err(fault) => Err(fault),
    }
}

/// The register file after one cycle: the next instruction executed, or
/// `cpu` as it was where there is a fault in place of an instruction.
pub open spec fn step_spec(cpu: CPU, rom: Seq<u8>) -> CPU {
    match next_instruction(cpu, rom) {
        Ok(i) => execute_spec(cpu, i),
        Err(_) => cpu,
    }
}

/// Decodes the opcode `op`, found at `pc`, reading its operand bytes from the
/// fixed ROM bank of `m`.
pub fn decode_op(op: u8, pc: u16, m: &Mem) -> (r: Result<Instruction, Fault>)
    ensures
        r == decode_spec(op, pc, m.rom@),
{
    if op == OP_NOP {
        Ok(Instruction::NOP)
    } else if op == OP_JP {
        let at: usize = pc as usize;
        if at + 2 < m.rom.len() {
            Ok(Instruction::JP(m.rom[at + 1], m.rom[at + 2]))
        } else if at + 1 < m.rom.len() {
            Err(Fault::OutOfRange { offset: at + 2 })
        } else {
            Err(Fault::OutOfRange { offset: at + 1 })
        }
    } else {
        Err(Fault::UnimplementedOpcode { opcode: op, address: pc })
    }
}

impl CPU {
    /// Fetches the opcode at the program counter from the fixed ROM bank.
    pub fn fetch(&self, m: &Mem) -> (r: Result<u8, Fault>)
        ensures
            r == fetch_spec(self.pc, m.rom@),
    {
        let at: usize = self.pc as usize;
        if at < m.rom.len() {
            Ok(m.rom[at])
        } else {
            Err(Fault::OutOfRange { offset: at })
        }
    }

    /// Executes one decoded instruction.
    ///
    /// A no-operation at the last address, `0xffff`, has no next address to
    /// advance to and is ruled out.
    pub fn execute_instruction(&mut self, i: Instruction)
        requires
            i is NOP ==> old(self).pc < u16::MAX,
        ensures
            *final(self) == execute_spec(*old(self), i),
    {
        match i {
            Instruction::NOP => {
                self.pc += 1;
            },
            Instruction::JP(ls, ms) => {
                let addr: u16 = combine_h_l(ms, ls);
                self.pc = addr;
            },
        }
    }

    /// Runs one cycle: fetches the opcode at the program counter, decodes it
    /// and executes the instruction, which is returned.
    ///
    /// On a fault nothing is executed and the CPU stays as it was, program
    /// counter included.
    pub fn step(&mut self, m: &Mem) -> (r: Result<Instruction, Fault>)
        ensures
            r == next_instruction(*old(self), m.rom@),
            *final(self) == step_spec(*old(self), m.rom@),
    {
        let op: u8 = match self.fetch(m) {
            Ok(op) => op,
            Err(fault) => {
                return Err(fault);
            },
        };
        match decode_op(op, self.pc, m) {
            Ok(i) => {
                self.execute_instruction(i);
                Ok(i)
            },
            Err(fault) => Err(fault),
        }
    }
}

/// A no-operation moves the program counter on by exactly one and leaves
/// every register, the flags and the stack pointer as they were.
pub proof fn lemma_nop_advances_pc(cpu: CPU)
    requires
        cpu.pc < u16::MAX,
    ensures
        execute_spec(cpu, Instruction::NOP).pc == cpu.pc + 1,
        execute_spec(cpu, Instruction::NOP) == (CPU { pc: (cpu.pc + 1) as u16, ..cpu }),
{
}

/// A jump sets the program counter to the address whose high byte is the
/// second operand byte and whose low byte is the first, whatever the program
/// counter was, and leaves everything else as it was.
pub proof fn lemma_jump_replaces_pc(cpu: CPU, ls: u8, ms: u8)
    ensures
        execute_spec(cpu, Instruction::JP(ls, ms)).pc == ms * 256 + ls,
        execute_spec(cpu, Instruction::JP(ls, ms)) == (CPU { pc: pair_value(ms, ls), ..cpu }),
{
}

/// Where the opcode at the program counter, within a ROM bank, is `0x00`, a
/// cycle executes a no-operation: the program counter moves on by exactly
/// one and nothing else changes.
pub proof fn lemma_step_nop(cpu: CPU, rom: Seq<u8>)
    requires
        rom.len() == ROM_BANK_SIZE,
        fetch_spec(cpu.pc, rom) == Ok::<u8, Fault>(OP_NOP),
    ensures
        next_instruction(cpu, rom) == Ok::<Instruction, Fault>(Instruction::NOP),
        step_spec(cpu, rom).pc == cpu.pc + 1,
        step_spec(cpu, rom) == (CPU { pc: (cpu.pc + 1) as u16, ..cpu }),
{
}

/// An opcode other than `0x00` and `0xC3` never decodes to an instruction:
/// it is reported, with the opcode and where it was found, and no operand
/// byte is read. A cycle that fetches such an opcode leaves the CPU as it
/// was, program counter included.
pub proof fn lemma_unimplemented_opcode(cpu: CPU, rom: Seq<u8>, op: u8)
    requires
        op != 0x00,
        op != 0xC3,
    ensures
        forall|pc: u16| #[trigger]
            decode_spec(op, pc, rom) == Err::<Instruction, Fault>(
                Fault::UnimplementedOpcode { opcode: op, address: pc },
            ),
        fetch_spec(cpu.pc, rom) == Ok::<u8, Fault>(op) ==> {
            &&& next_instruction(cpu, rom) == Err::<Instruction, Fault>(
                Fault::UnimplementedOpcode { opcode: op, address: cpu.pc },
            )
            &&& step_spec(cpu, rom) == cpu
        },
{
}

/// A cycle that ends in a fault, of whatever kind, changes nothing.
pub proof fn lemma_fault_changes_nothing(cpu: CPU, rom: Seq<u8>)
    requires
        next_instruction(cpu, rom) is Err,
    ensures
        step_spec(cpu, rom) == cpu,
{
}

/// How a bounded run ended.
#[derive(Clone, Copy, Debug, PartialEq, Eq, Structural)]
pub struct Outcome {
    /// The register file when the run stopped.
    pub cpu: CPU,
    /// The number of instructions that were executed.
    pub executed: u64,
    /// The fault that stopped the run, or `None` where it stopped because the
    /// limit was reached.
    pub fault: Option<Fault>,
}

/// The register file after `n` cycles from `cpu`. A cycle that meets a fault
/// changes nothing, so from the first fault on the register file stays as it
/// is.
pub open spec fn state_after(cpu: CPU, rom: Seq<u8>, n: nat) -> CPU
    decreases n,
{
    if n == 0 {
        cpu
    } else {
        state_after(step_spec(cpu, rom), rom, (n - 1) as nat)
    }
}

/// The number of instructions executed from `cpu` before the first fault,
/// counted up to `limit`.
pub open spec fn executed_within(cpu: CPU, rom: Seq<u8>, limit: nat) -> nat
    decreases limit,
{
    if limit == 0 || next_instruction(cpu, rom) is Err {
        0
    } else {
        1 + executed_within(step_spec(cpu, rom), rom, (limit - 1) as nat)
    }
}

/// No more instructions are executed than the limit allows.
pub proof fn lemma_executed_within_limit(cpu: CPU, rom: Seq<u8>, limit: nat)
    ensures
        executed_within(cpu, rom, limit) <= limit,
    decreases limit,
{
    if limit > 0 && next_instruction(cpu, rom) is Ok {
        lemma_executed_within_limit(step_spec(cpu, rom), rom, (limit - 1) as nat);
    }
}

/// A CPU that meets a fault stays where it is, however many cycles go by.
pub proof fn lemma_fault_is_final(cpu: CPU, rom: Seq<u8>, n: nat)
    requires
        next_instruction(cpu, rom) is Err,
    ensures
        state_after(cpu, rom, n) == cpu,
    decreases n,
{
    if n > 0 {
        lemma_fault_is_final(cpu, rom, (n - 1) as nat);
    }
}

/// Where fewer instructions were executed than the limit allows, the CPU
/// stands at a fault after them.
pub proof fn lemma_short_run_stands_at_fault(cpu: CPU, rom: Seq<u8>, limit: nat)
    requires
        executed_within(cpu, rom, limit) < limit,
    ensures
        next_instruction(state_after(cpu, rom, limit), rom) is Err,
        state_after(cpu, rom, limit) == state_after(cpu, rom, executed_within(cpu, rom, limit)),
    decreases limit,
{
    if next_instruction(cpu, rom) is Err {
        lemma_fault_is_final(cpu, rom, limit);
    } else {
        lemma_short_run_stands_at_fault(step_spec(cpu, rom), rom, (limit - 1) as nat);
    }
}

/// Runs a CPU from reset on the fixed ROM bank of `m`, for at most `limit`
/// cycles. The run stops early at the first fault, which is reported.
pub fn run(m: &Mem, limit: u64) -> (out: Outcome)
    ensures
        out.cpu == state_after(reset_state(), m.rom@, limit as nat),
        out.executed == executed_within(reset_state(), m.rom@, limit as nat),
        match out.fault {
            Some(fault) => out.executed < limit && next_instruction(out.cpu, m.rom@) == Err::<
                Instruction,
                Fault,
            >(fault),
            None => out.executed == limit,
        },
{
    let mut cpu = init();
    let mut executed: u64 = 0;
    while executed < limit
        invariant
            executed <= limit,
            state_after(reset_state(), m.rom@, limit as nat) == state_after(
                cpu,
                m.rom@,
                (limit - executed) as nat,
            ),
            executed_within(reset_state(), m.rom@, limit as nat) == executed + executed_within(
                cpu,
                m.rom@,
                (limit - executed) as nat,
            ),
        decreases limit - executed,
    {
        match cpu.step(m) {
            Ok(_) => {
                executed += 1;
            },
            Err(fault) => {
                proof {
                    lemma_fault_is_final(cpu, m.rom@, (limit - executed) as nat);
                }
                return Outcome { cpu, executed, fault: Some(fault) };
            },
        }
    }
    Outcome { cpu, executed, fault: None }
}

} // verus!
