//! CPU state: the register file, the flag register, and the decode table
//! that maps an opcode byte to its instruction, encoded length and cycle
//! cost.

use vstd::prelude::*;

verus! {

/// Carry flag bit of the flag register.
pub const FLAG_CARRY: u8 = 0x10;

/// Half-carry flag bit of the flag register.
pub const FLAG_HALF_CARRY: u8 = 0x20;

/// Subtraction flag bit of the flag register.
pub const FLAG_SUBTRACTION: u8 = 0x40;

/// Zero flag bit of the flag register.
pub const FLAG_ZERO: u8 = 0x80;

/// The flag register: four condition bits in the high nibble. The low
/// nibble is architecturally unused and must stay clear.
#[derive(Debug, Clone, Copy, PartialEq, Eq, Structural)]
pub struct Flags {
    pub bits: u8,
}

impl Flags {
    /// The flag discipline: only the four defined bits may ever be set, so
    /// the low nibble of the byte is always zero.
    pub open spec fn wf(self) -> bool {
        self.bits & 0x0f == 0
    }

    /// Whether every bit of `mask` is set.
    pub open spec fn contains_spec(self, mask: u8) -> bool {
        self.bits & mask == mask
    }

    /// All four flags clear.
    pub fn empty() -> (f: Flags)
        ensures
            f.bits == 0,
            f.wf(),
    {
        proof {
            assert(0u8 & 0x0f == 0) by (bit_vector);
        }
        Flags { bits: 0 }
    }

    /// Whether every bit of `mask` is set.
    pub fn contains(&self, mask: u8) -> (r: bool)
        ensures
            r == self.contains_spec(mask),
    {
        self.bits & mask == mask
    }

    /// Set the flag bits of `mask`; the mask must name defined flag bits
    /// only, so the discipline is preserved.
    pub fn insert(&mut self, mask: u8)
        requires
            old(self).wf(),
            mask & 0x0f == 0,
        ensures
            final(self).bits == old(self).bits | mask,
            final(self).wf(),
    {
        let b = self.bits;
        proof {
            assert(b & 0x0f == 0 && mask & 0x0f == 0 ==> (b | mask) & 0x0f == 0) by (bit_vector);
        }
        self.bits = b | mask;
    }

    /// Clear the flag bits of `mask`; clearing bits cannot dirty the low
    /// nibble, so the discipline is preserved.
    pub fn remove(&mut self, mask: u8)
        requires
            old(self).wf(),
        ensures
            final(self).bits == old(self).bits & !mask,
            final(self).wf(),
    {
        let b = self.bits;
        proof {
            assert(b & 0x0f == 0 ==> (b & !mask) & 0x0f == 0) by (bit_vector);
        }
        self.bits = b & !mask;
    }
}

impl Default for Flags {
    /// Power-on flags: all clear.
    fn default() -> (f: Flags)
        ensures
            f.bits == 0,
            f.wf(),
    {
        Flags::empty()
    }
}

/// The CPU register file: eight 8-bit general registers, the flag
/// register, the program counter, the stack pointer, and the machine- and
/// clock-cycle cost (`m`, `t`) of the instruction just executed.
#[derive(Debug, Clone, Copy, PartialEq, Eq, Structural)]
pub struct Z80 {
    /// Machine-cycle cost of the last instruction.
    pub m: u8,
    /// Clock-cycle cost of the last instruction.
    pub t: u8,
    pub a: u8,
    pub b: u8,
    pub c: u8,
    pub d: u8,
    pub e: u8,
    pub h: u8,
    pub l: u8,
    /// Flag register.
    pub f: Flags,
    /// Program counter.
    pub pc: u16,
    /// Stack pointer.
    pub sp: u16,
}

impl Z80 {
    /// The register file is well formed when the flag register obeys the
    /// flag discipline.
    pub open spec fn wf(self) -> bool {
        self.f.wf()
    }

    /// The power-on register file: everything zero.
    pub open spec fn power_on() -> Z80 {
        Z80 {
            m: 0,
            t: 0,
            a: 0,
            b: 0,
            c: 0,
            d: 0,
            e: 0,
            h: 0,
            l: 0,
            f: Flags { bits: 0 },
            pc: 0,
            sp: 0,
        }
    }

    /// A fresh register file in the power-on state.
    pub fn new() -> (z: Z80)
        ensures
            z == Z80::power_on(),
            z.wf(),
    {
        proof {
            assert(0u8 & 0x0f == 0) by (bit_vector);
        }
        Z80 {
            m: 0,
            t: 0,
            a: 0,
            b: 0,
            c: 0,
            d: 0,
            e: 0,
            h: 0,
            l: 0,
            f: Flags { bits: 0 },
            pc: 0,
            sp: 0,
        }
    }
}

impl Default for Z80 {
    /// Power-on register file: everything zero.
    fn default() -> (z: Z80)
        ensures
            z == Z80::power_on(),
            z.wf(),
    {
        Z80::new()
    }
}

/// One entry of the instruction dispatch table. Each variant carries its
/// effect, encoded length and cycle cost through [`instr_len`],
/// [`instr_machine_cycles`] and [`instr_clock_cycles`].
#[derive(Debug, Clone, Copy, PartialEq, Eq, Structural)]
pub enum Instr {
    /// Opcode 0x00: no effect.
    Nop,
    /// Opcode 0x01: load the 16-bit immediate that follows the opcode into
    /// the BC register pair, low byte first.
    LdBcImm,
}

/// The dispatch table: which instruction, if any, an opcode byte decodes
/// to. An opcode outside the table is an unimplemented-opcode condition.
pub open spec fn decode_spec(op: u8) -> Option<Instr> {
    if op == 0x00 {
        Some(Instr::Nop)
    } else if op == 0x01 {
        Some(Instr::LdBcImm)
    } else {
        None
    }
}

/// Look an opcode byte up in the dispatch table.
pub fn decode(op: u8) -> (r: Option<Instr>)
    ensures
        r == decode_spec(op),
{
    match op {
        0x00 => Some(Instr::Nop),
        0x01 => Some(Instr::LdBcImm),
        _ => None,
    }
}

/// Total encoded length of an instruction: the opcode byte plus its
/// immediate operand bytes. The program counter advances by exactly this.
pub open spec fn instr_len(i: Instr) -> u16 {
    match i {
        Instr::Nop => 1,
        Instr::LdBcImm => 3,
    }
}

/// Machine-cycle cost of an instruction.
pub open spec fn instr_machine_cycles(i: Instr) -> u8 {
    match i {
        Instr::Nop => 1,
        Instr::LdBcImm => 3,
    }
}

/// Clock-cycle cost of an instruction.
pub open spec fn instr_clock_cycles(i: Instr) -> u8 {
    match i {
        Instr::Nop => 4,
        Instr::LdBcImm => 12,
    }
}

/// Timing-unit coherence: one machine cycle is four clock cycles, for
/// every instruction of the dispatch table.
pub proof fn lemma_cycle_ratio(i: Instr)
    ensures
        instr_clock_cycles(i) == 4 * instr_machine_cycles(i),
{
}

/// 16-bit program-counter arithmetic: addresses wrap modulo 0x10000.
pub open spec fn wrap_add(base: u16, k: u16) -> u16 {
    ((base + k) % 0x10000) as u16
}

} // verus!
