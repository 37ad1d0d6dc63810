//! System harness: owns one CPU register file and one address-space
//! router, installs the cartridge image's banks into the router, and
//! drives the fetch-decode-execute cycle while accumulating the session's
//! machine- and clock-cycle totals.

use crate::cpu::{decode, decode_spec, instr_clock_cycles, instr_len, instr_machine_cycles,
    wrap_add, Instr, Z80};
use crate::mmu::{bank_window, MemError, MmuView, MMU};
use vstd::prelude::*;

verus! {

/// A cartridge image was rejected at load time.
#[derive(Debug, Clone, Copy, PartialEq, Eq, Structural)]
pub enum LoadError {
    /// The image is shorter than the 0x0150 bytes needed to contain a
    /// header and bank 0.
    CartridgeTooSmall,
}

/// A fault while executing one instruction. Each one halts the session:
/// execution must never proceed past an unmodeled effect.
#[derive(Debug, Clone, Copy, PartialEq, Eq, Structural)]
pub enum StepError {
    /// An instruction tried to write boot firmware or cartridge ROM.
    ReadOnlyViolation,
    /// An instruction touched the unmapped hole 0xFEA0-0xFEFF.
    UnmappedAccess,
    /// The fetched opcode has no dispatch-table entry; carries the
    /// offending opcode and the program counter at the fault, so the
    /// table can be extended.
    UnimplementedOpcode { opcode: u8, pc: u16 },
}

/// How a router fault surfaces from instruction execution.
pub open spec fn mem_fault_spec(e: MemError) -> StepError {
    match e {
        MemError::ReadOnlyViolation => StepError::ReadOnlyViolation,
        MemError::UnmappedAccess => StepError::UnmappedAccess,
    }
}

/// Map a router fault into a step fault.
fn mem_fault(e: MemError) -> (r: StepError)
    ensures
        r == mem_fault_spec(e),
{
    match e {
        MemError::ReadOnlyViolation => StepError::ReadOnlyViolation,
        MemError::UnmappedAccess => StepError::UnmappedAccess,
    }
}

/// The effect of one decoded instruction on the register file, given the
/// router state it may read operands from. Costs, length and the program
/// counter are accounted for separately in [`run_instr_spec`].
pub open spec fn instr_effect_spec(z: Z80, m: MmuView, i: Instr) -> Result<Z80, MemError> {
    match i {
        Instr::Nop => Ok(z),
        Instr::LdBcImm => match m.read_spec(wrap_add(z.pc, 1)) {
            Err(e) => Err(e),
            Ok(lo) => match m.read_spec(wrap_add(z.pc, 2)) {
                Err(e) => Err(e),
                Ok(hi) => Ok(Z80 { c: lo, b: hi, ..z }),
            },
        },
    }
}

/// What executing the opcode byte `instr` does to the register file `z`
/// against router state `m`: decode by exact byte match, apply the
/// instruction's effect, record its cycle cost in the scratch counters,
/// and advance the program counter by the instruction's encoded length
/// (wrapping modulo 0x10000). An opcode without a table entry, or a
/// faulting operand read, leaves the register file unchanged.
pub open spec fn run_instr_spec(z: Z80, m: MmuView, instr: u8) -> Result<Z80, StepError> {
    match decode_spec(instr) {
        None => Err(StepError::UnimplementedOpcode { opcode: instr, pc: z.pc }),
        Some(i) => match instr_effect_spec(z, m, i) {
            Err(e) => Err(mem_fault_spec(e)),
            Ok(z1) => Ok(
                Z80 {
                    m: instr_machine_cycles(i),
                    t: instr_clock_cycles(i),
                    pc: wrap_add(z.pc, instr_len(i)),
                    ..z1
                },
            ),
        },
    }
}

/// The system harness: one CPU register file, one router, the owned
/// cartridge image, and the session's running cycle totals.
pub struct GB {
    pub z80: Z80,
    pub mmu: MMU,
    /// Cumulative machine cycles of the session.
    pub clock_m: u64,
    /// Cumulative clock cycles of the session.
    pub clock_t: u64,
    /// The owned cartridge image; the router's bank windows are copies of
    /// its first 32 KiB.
    pub rom_data: Vec<u8>,
}

impl GB {
    /// Harness well-formedness: CPU and router are well formed, the image
    /// is at least header-bearing length, and the router's cartridge banks
    /// are exactly the image's two 16 KiB windows.
    pub open spec fn wf(self) -> bool {
        &&& self.z80.wf()
        &&& self.mmu.wf()
        &&& self.rom_data@.len() >= 0x150
        &&& self.mmu@.bank0 == bank_window(self.rom_data@, 0)
        &&& self.mmu@.loaded_bank == bank_window(self.rom_data@, 16384)
    }

    /// Build a harness around a cartridge image. The image must be at
    /// least 0x0150 bytes; on success the CPU is at power-on, the cycle
    /// totals are zero, the boot overlay is active, and the image's bank
    /// windows are installed in the router.
    pub fn new(cartridge: &[u8]) -> (r: Result<GB, LoadError>)
        ensures
            match r {
                Err(e) => e == LoadError::CartridgeTooSmall && cartridge@.len() < 0x150,
                Ok(gb) => {
                    &&& cartridge@.len() >= 0x150
                    &&& gb.wf()
                    &&& gb.z80 == Z80::power_on()
                    &&& gb.clock_m == 0
                    &&& gb.clock_t == 0
                    &&& gb.rom_data@ == cartridge@
                    &&& gb.mmu@ == (MmuView {
                        bank0: bank_window(cartridge@, 0),
                        loaded_bank: bank_window(cartridge@, 16384),
                        ..MmuView::power_on()
                    })
                },
            },
    {
        if cartridge.len() < 0x150 {
            return Err(LoadError::CartridgeTooSmall);
        }
        let mut mmu = MMU::new();
        mmu.load_cartridge(cartridge);
        Ok(
            GB {
                z80: Z80::new(),
                mmu,
                clock_m: 0,
                clock_t: 0,
                rom_data: vstd::slice::slice_to_vec(cartridge),
            },
        )
    }

    /// Replace the cartridge image and re-install its bank windows into
    /// the router, without otherwise resetting CPU, router state, or the
    /// cycle totals. A too-short image is rejected and nothing changes.
    pub fn load_rom(&mut self, cartridge: &[u8]) -> (r: Result<(), LoadError>)
        requires
            old(self).wf(),
        ensures
            final(self).wf(),
            match r {
                Err(e) => {
                    &&& e == LoadError::CartridgeTooSmall
                    &&& cartridge@.len() < 0x150
                    &&& *final(self) == *old(self)
                },
                Ok(()) => {
                    &&& cartridge@.len() >= 0x150
                    &&& final(self).rom_data@ == cartridge@
                    &&& final(self).mmu@ == (MmuView {
                        bank0: bank_window(cartridge@, 0),
                        loaded_bank: bank_window(cartridge@, 16384),
                        ..old(self).mmu@
                    })
                    &&& final(self).z80 == old(self).z80
                    &&& final(self).clock_m == old(self).clock_m
                    &&& final(self).clock_t == old(self).clock_t
                },
            },
    {
        if cartridge.len() < 0x150 {
            return Err(LoadError::CartridgeTooSmall);
        }
        self.rom_data = vstd::slice::slice_to_vec(cartridge);
        self.mmu.load_cartridge(cartridge);
        Ok(())
    }

    /// Execute the opcode byte `instr`: decode it, apply its effect and
    /// timing to the register file, and advance the program counter by its
    /// encoded length. The router and the cycle totals are untouched; on a
    /// fault the register file is left exactly as it was.
    pub fn run_instr(&mut self, instr: u8) -> (r: Result<(), StepError>)
        requires
            old(self).wf(),
        ensures
            final(self).wf(),
            final(self).mmu == old(self).mmu,
            final(self).rom_data == old(self).rom_data,
            final(self).clock_m == old(self).clock_m,
            final(self).clock_t == old(self).clock_t,
            match run_instr_spec(old(self).z80, old(self).mmu@, instr) {
                Ok(z) => r == Ok::<(), StepError>(()) && final(self).z80 == z,
                Err(e) => r == Err::<(), StepError>(e) && final(self).z80 == old(self).z80,
            },
    {
        match decode(instr) {
            None => Err(StepError::UnimplementedOpcode { opcode: instr, pc: self.z80.pc }),
            Some(Instr::Nop) => {
                self.z80.m = 1;
                self.z80.t = 4;
                self.z80.pc = pc_add(self.z80.pc, 1);
                Ok(())
            },
            Some(Instr::LdBcImm) => {
                let lo: u8 = match self.mmu.rb(pc_add(self.z80.pc, 1)) {
                    Ok(b) => b,
                    Err(e) => {
                        return Err(mem_fault(e));
                    },
                };
                let hi: u8 = match self.mmu.rb(pc_add(self.z80.pc, 2)) {
                    Ok(b) => b,
                    Err(e) => {
                        return Err(mem_fault(e));
                    },
                };
                self.z80.c = lo;
                self.z80.b = hi;
                self.z80.m = 3;
                self.z80.t = 12;
                self.z80.pc = pc_add(self.z80.pc, 3);
                Ok(())
            },
        }
    }

    /// One step of the session loop: fetch the opcode byte at the program
    /// counter through the router, execute it, and add its machine- and
    /// clock-cycle cost to the running totals. On a fault nothing changes.
    /// The totals must have headroom for one instruction's cost, which is
    /// at most 255 cycles in either unit.
    pub fn cycle(&mut self) -> (r: Result<(), StepError>)
        requires
            old(self).wf(),
            old(self).clock_m + 255 <= u64::MAX,
            old(self).clock_t + 255 <= u64::MAX,
        ensures
            final(self).wf(),
            final(self).mmu == old(self).mmu,
            final(self).rom_data == old(self).rom_data,
            match cycle_spec(*old(self)) {
                Ok(gb) => r == Ok::<(), StepError>(()) && *final(self) == gb,
                Err(e) => r == Err::<(), StepError>(e) && *final(self) == *old(self),
            },
    {
        let instr: u8 = match self.mmu.rb(self.z80.pc) {
            Ok(b) => b,
            Err(e) => {
                return Err(mem_fault(e));
            },
        };
        match self.run_instr(instr) {
            Ok(()) => {},
            Err(e) => {
                return Err(e);
            },
        }
        self.clock_m = self.clock_m + (self.z80.m as u64);
        self.clock_t = self.clock_t + (self.z80.t as u64);
        Ok(())
    }
}

/// What one step of the session loop does to the whole harness: fetch the
/// opcode at the program counter, execute it per [`run_instr_spec`], and
/// accumulate the executed instruction's cycle cost into the totals. A
/// fetch fault, a decode miss, or an operand fault leaves the harness
/// unchanged and reports the fault.
pub open spec fn cycle_spec(g: GB) -> Result<GB, StepError>
    recommends
        g.clock_m + 255 <= u64::MAX,
        g.clock_t + 255 <= u64::MAX,
{
    match g.mmu@.read_spec(g.z80.pc) {
        Err(e) => Err(mem_fault_spec(e)),
        Ok(instr) => match run_instr_spec(g.z80, g.mmu@, instr) {
            Err(e) => Err(e),
            Ok(z) => Ok(
                GB {
                    z80: z,
                    clock_m: (g.clock_m + z.m) as u64,
                    clock_t: (g.clock_t + z.t) as u64,
                    ..g
                },
            ),
        },
    }
}

/// The unimplemented-opcode halt: when the byte fetched at the program
/// counter has no dispatch-table entry, the step reports exactly that
/// opcode and that program counter. The execution contracts add that the
/// harness is then left unchanged from just before the fetch.
pub proof fn lemma_unimplemented_opcode(g: GB, op: u8)
    requires
        g.mmu@.read_spec(g.z80.pc) == Ok::<u8, MemError>(op),
        decode_spec(op) is None,
    ensures
        run_instr_spec(g.z80, g.mmu@, op) == Err::<Z80, StepError>(
            StepError::UnimplementedOpcode { opcode: op, pc: g.z80.pc },
        ),
        cycle_spec(g) == Err::<GB, StepError>(
            StepError::UnimplementedOpcode { opcode: op, pc: g.z80.pc },
        ),
{
}

/// Add `k` to a 16-bit address, wrapping modulo 0x10000.
fn pc_add(base: u16, k: u16) -> (r: u16)
    ensures
        r == wrap_add(base, k),
{
    let r = base.wrapping_add(k);
    proof {
        let s = base + k;
        if s > 0xffff {
            vstd::arithmetic::div_mod::lemma_mod_multiples_vanish(1, s - 0x10000, 0x10000);
            vstd::arithmetic::div_mod::lemma_small_mod((s - 0x10000) as nat, 0x10000 as nat);
        } else {
            vstd::arithmetic::div_mod::lemma_small_mod(s as nat, 0x10000 as nat);
        }
    }
    r
}

} // verus!
