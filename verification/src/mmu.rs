//! Address-space router: maps a flat 16-bit address to its backing region.
//!
//! The router owns every backing region (boot firmware, cartridge banks,
//! video RAM, external RAM, working RAM, sprite table, I/O registers, high
//! RAM) and resolves reads and writes according to a fixed region table.
//! The sole piece of mode state is the boot-active flag, which decides
//! whether 0x0000-0x00FF is backed by the boot firmware or by cartridge
//! bank 0.

use vstd::prelude::*;

verus! {

/// The big-endian composition of a high and a low byte.
pub open spec fn be16(high: u8, low: u8) -> u16 {
    (high * 256 + low) as u16
}

/// The 16 KiB cartridge-bank window that starts at byte `start` of the
/// image `cart`: image bytes where the image reaches, zero beyond its end.
pub open spec fn bank_window(cart: Seq<u8>, start: int) -> Seq<u8> {
    Seq::new(16384, |i: int| if start + i < cart.len() { cart[start + i] } else { 0u8 })
}

/// A memory access fault: either a write aimed at read-only storage or an
/// access to the hole in the address map.
#[derive(Debug, Clone, Copy, PartialEq, Eq, Structural)]
pub enum MemError {
    /// A write was attempted against boot firmware, bank 0, or the switched
    /// bank; cartridge ROM has no write path in this core.
    ReadOnlyViolation,
    /// A read or write touched 0xFEA0-0xFEFF, which no region backs.
    UnmappedAccess,
}

/// The mathematical model of the router: the boot flag plus the byte
/// contents of each backing region.
pub ghost struct MmuView {
    pub boot_active: bool,
    /// Boot firmware, mapped at 0x0000-0x00FF while `boot_active`.
    pub bios: Seq<u8>,
    /// Cartridge bank 0, mapped at 0x0000-0x3FFF (the low 256 bytes only
    /// once the boot overlay is switched off).
    pub bank0: Seq<u8>,
    /// The switched cartridge bank, mapped at 0x4000-0x7FFF.
    pub loaded_bank: Seq<u8>,
    /// Video RAM, mapped at 0x8000-0x9FFF.
    pub graphics: Seq<u8>,
    /// External cartridge RAM, mapped at 0xA000-0xBFFF.
    pub external_ram: Seq<u8>,
    /// Working RAM, mapped at 0xC000-0xFDFF modulo its 8 KiB size.
    pub ram: Seq<u8>,
    /// Sprite attribute table, mapped at 0xFE00-0xFE9F.
    pub sprites: Seq<u8>,
    /// I/O registers, mapped at 0xFF00-0xFF7F.
    pub io: Seq<u8>,
    /// High RAM, mapped at 0xFF80-0xFFFF.
    pub work_ram: Seq<u8>,
}

impl MmuView {
    /// Every region has its fixed size.
    pub open spec fn wf(self) -> bool {
        &&& self.bios.len() == 256
        &&& self.bank0.len() == 16384
        &&& self.loaded_bank.len() == 16384
        &&& self.graphics.len() == 8192
        &&& self.external_ram.len() == 8192
        &&& self.ram.len() == 8192
        &&& self.sprites.len() == 160
        &&& self.io.len() == 128
        &&& self.work_ram.len() == 128
    }

    /// The power-on state: boot overlay active, every region zeroed.
    pub open spec fn power_on() -> MmuView {
        MmuView {
            boot_active: true,
            bios: Seq::new(256, |i: int| 0u8),
            bank0: Seq::new(16384, |i: int| 0u8),
            loaded_bank: Seq::new(16384, |i: int| 0u8),
            graphics: Seq::new(8192, |i: int| 0u8),
            external_ram: Seq::new(8192, |i: int| 0u8),
            ram: Seq::new(8192, |i: int| 0u8),
            sprites: Seq::new(160, |i: int| 0u8),
            io: Seq::new(128, |i: int| 0u8),
            work_ram: Seq::new(128, |i: int| 0u8),
        }
    }

    /// What a one-byte read at `addr` yields: the byte of the region that
    /// backs `addr`, or the fault for the unmapped hole. Exactly one arm
    /// applies to any address, and only the boot flag decides which region
    /// backs 0x0000-0x00FF.
    pub open spec fn read_spec(self, addr: u16) -> Result<u8, MemError> {
        if addr <= 0x00ff {
            if self.boot_active {
                Ok(self.bios[addr as int])
            } else {
                Ok(self.bank0[addr as int])
            }
        } else if addr <= 0x3fff {
            Ok(self.bank0[addr as int])
        } else if addr <= 0x7fff {
            Ok(self.loaded_bank[addr - 0x4000])
        } else if addr <= 0x9fff {
            Ok(self.graphics[addr - 0x8000])
        } else if addr <= 0xbfff {
            Ok(self.external_ram[addr - 0xa000])
        } else if addr <= 0xfdff {
            Ok(self.ram[addr as int % 8192])
        } else if addr <= 0xfe9f {
            Ok(self.sprites[addr - 0xfe00])
        } else if addr <= 0xfeff {
            Err(MemError::UnmappedAccess)
        } else if addr <= 0xff7f {
            Ok(self.io[addr - 0xff00])
        } else {
            Ok(self.work_ram[addr - 0xff80])
        }
    }

    /// What a two-byte read at `addr` yields: the bytes at `addr` and
    /// `addr + 1` composed big-endian, the byte at `addr` in the high
    /// position; the first faulting byte decides the fault.
    pub open spec fn r2b_spec(self, addr: u16) -> Result<u16, MemError>
        recommends
            addr < 0xffff,
    {
        match self.read_spec(addr) {
            Err(e) => Err(e),
            Ok(high) => match self.read_spec((addr + 1) as u16) {
                Err(e) => Err(e),
                Ok(low) => Ok(be16(high, low)),
            },
        }
    }

    /// What a one-byte write of `val` at `addr` does: the state with the
    /// backing region's byte replaced, or a fault for ROM and for the
    /// unmapped hole, on which the state is unchanged.
    pub open spec fn write_spec(self, addr: u16, val: u8) -> Result<MmuView, MemError> {
        if addr <= 0x7fff {
            Err(MemError::ReadOnlyViolation)
        } else if addr <= 0x9fff {
            Ok(MmuView { graphics: self.graphics.update(addr - 0x8000, val), ..self })
        } else if addr <= 0xbfff {
            Ok(MmuView { external_ram: self.external_ram.update(addr - 0xa000, val), ..self })
        } else if addr <= 0xfdff {
            Ok(MmuView { ram: self.ram.update(addr as int % 8192, val), ..self })
        } else if addr <= 0xfe9f {
            Ok(MmuView { sprites: self.sprites.update(addr - 0xfe00, val), ..self })
        } else if addr <= 0xfeff {
            Err(MemError::UnmappedAccess)
        } else if addr <= 0xff7f {
            Ok(MmuView { io: self.io.update(addr - 0xff00, val), ..self })
        } else {
            Ok(MmuView { work_ram: self.work_ram.update(addr - 0xff80, val), ..self })
        }
    }
}

/// The address-space router. Region sizes are fixed (see [`MmuView::wf`]);
/// all access goes through [`MMU::rb`], [`MMU::r2b`] and [`MMU::wb`].
pub struct MMU {
    pub boot_active: bool,
    pub bios: Vec<u8>,
    pub bank0: Vec<u8>,
    pub loaded_bank: Vec<u8>,
    pub graphics: Vec<u8>,
    pub external_ram: Vec<u8>,
    pub ram: Vec<u8>,
    pub sprites: Vec<u8>,
    pub io: Vec<u8>,
    pub work_ram: Vec<u8>,
}

impl View for MMU {
    type V = MmuView;

    open spec fn view(&self) -> MmuView {
        MmuView {
            boot_active: self.boot_active,
            bios: self.bios@,
            bank0: self.bank0@,
            loaded_bank: self.loaded_bank@,
            graphics: self.graphics@,
            external_ram: self.external_ram@,
            ram: self.ram@,
            sprites: self.sprites@,
            io: self.io@,
            work_ram: self.work_ram@,
        }
    }
}

impl Default for MMU {
    /// The power-on router state; the same as [`MMU::new`].
    fn default() -> (m: MMU)
        ensures
            m@ == MmuView::power_on(),
            m.wf(),
    {
        MMU::new()
    }
}

impl MMU {
    /// The router is well formed when its model is.
    pub open spec fn wf(&self) -> bool {
        self@.wf()
    }

    /// A fresh router in the power-on state: boot overlay active and every
    /// region zeroed.
    pub fn new() -> (m: MMU)
        ensures
            m@ == MmuView::power_on(),
            m.wf(),
    {
        let m = MMU {
            boot_active: true,
            bios: vec![0u8; 256],
            bank0: vec![0u8; 16384],
            loaded_bank: vec![0u8; 16384],
            graphics: vec![0u8; 8192],
            external_ram: vec![0u8; 8192],
            ram: vec![0u8; 8192],
            sprites: vec![0u8; 160],
            io: vec![0u8; 128],
            work_ram: vec![0u8; 128],
        };
        proof {
            assert(m.bios@ =~= Seq::new(256, |i: int| 0u8));
            assert(m.bank0@ =~= Seq::new(16384, |i: int| 0u8));
            assert(m.loaded_bank@ =~= Seq::new(16384, |i: int| 0u8));
            assert(m.graphics@ =~= Seq::new(8192, |i: int| 0u8));
            assert(m.external_ram@ =~= Seq::new(8192, |i: int| 0u8));
            assert(m.ram@ =~= Seq::new(8192, |i: int| 0u8));
            assert(m.sprites@ =~= Seq::new(160, |i: int| 0u8));
            assert(m.io@ =~= Seq::new(128, |i: int| 0u8));
            assert(m.work_ram@ =~= Seq::new(128, |i: int| 0u8));
        }
        m
    }

    /// Read one byte, routed to the region that backs `addr`.
    pub fn rb(&self, addr: u16) -> (r: Result<u8, MemError>)
        requires
            self.wf(),
        ensures
            r == self@.read_spec(addr),
    {
        match addr {
            0x0000..=0x00ff => {
                if self.boot_active {
                    Ok(self.bios[addr as usize])
                } else {
                    Ok(self.bank0[addr as usize])
                }
            },
            0x0100..=0x3fff => Ok(self.bank0[addr as usize]),
            0x4000..=0x7fff => Ok(self.loaded_bank[(addr - 0x4000) as usize]),
            0x8000..=0x9fff => Ok(self.graphics[(addr - 0x8000) as usize]),
            0xa000..=0xbfff => Ok(self.external_ram[(addr - 0xa000) as usize]),
            0xc000..=0xfdff => Ok(self.ram[(addr % 8192) as usize]),
            0xfe00..=0xfe9f => Ok(self.sprites[(addr - 0xfe00) as usize]),
            0xfea0..=0xfeff => Err(MemError::UnmappedAccess),
            0xff00..=0xff7f => Ok(self.io[(addr - 0xff00) as usize]),
            0xff80..=0xffff => Ok(self.work_ram[(addr - 0xff80) as usize]),
        }
    }

    /// Read two bytes big-endian: the byte at `addr` lands in the high
    /// half, the byte at `addr + 1` in the low half.
    pub fn r2b(&self, addr: u16) -> (r: Result<u16, MemError>)
        requires
            self.wf(),
            addr < 0xffff,
        ensures
            r == self@.r2b_spec(addr),
    {
        let high: u8 = match self.rb(addr) {
            Ok(b) => b,
            Err(e) => {
                return Err(e);
            },
        };
        let low: u8 = match self.rb(addr + 1) {
            Ok(b) => b,
            Err(e) => {
                return Err(e);
            },
        };
        Ok((high as u16) * 256 + (low as u16))
    }

    /// Write one byte, routed to the region that backs `addr`; ROM and the
    /// unmapped hole fault and leave the router unchanged.
    pub fn wb(&mut self, addr: u16, val: u8) -> (r: Result<(), MemError>)
        requires
            old(self).wf(),
        ensures
            final(self).wf(),
            match old(self)@.write_spec(addr, val) {
                Ok(v) => r == Ok::<(), MemError>(()) && final(self)@ == v,
                Err(e) => r == Err::<(), MemError>(e) && final(self)@ == old(self)@,
            },
    {
        match addr {
            0x0000..=0x7fff => Err(MemError::ReadOnlyViolation),
            0x8000..=0x9fff => {
                self.graphics[(addr - 0x8000) as usize] = val;
                Ok(())
            },
            0xa000..=0xbfff => {
                self.external_ram[(addr - 0xa000) as usize] = val;
                Ok(())
            },
            0xc000..=0xfdff => {
                self.ram[(addr % 8192) as usize] = val;
                Ok(())
            },
            0xfe00..=0xfe9f => {
                self.sprites[(addr - 0xfe00) as usize] = val;
                Ok(())
            },
            0xfea0..=0xfeff => Err(MemError::UnmappedAccess),
            0xff00..=0xff7f => {
                self.io[(addr - 0xff00) as usize] = val;
                Ok(())
            },
            0xff80..=0xffff => {
                self.work_ram[(addr - 0xff80) as usize] = val;
                Ok(())
            },
        }
    }

    /// Flip the boot overlay: while active, 0x0000-0x00FF reads from the
    /// boot firmware; once inactive, from cartridge bank 0.
    pub fn set_boot_active(&mut self, active: bool)
        requires
            old(self).wf(),
        ensures
            final(self).wf(),
            final(self)@ == (MmuView { boot_active: active, ..old(self)@ }),
    {
        self.boot_active = active;
    }

    /// Install the 256-byte boot firmware image.
    pub fn load_bios(&mut self, bios: &[u8])
        requires
            old(self).wf(),
            bios@.len() == 256,
        ensures
            final(self).wf(),
            final(self)@ == (MmuView { bios: bios@, ..old(self)@ }),
    {
        self.bios = vstd::slice::slice_to_vec(bios);
    }

    /// Install a cartridge image: its first 16 KiB window becomes bank 0
    /// and its second window the switched bank, each zero-filled where the
    /// image ends short of the window.
    pub fn load_cartridge(&mut self, cart: &[u8])
        requires
            old(self).wf(),
        ensures
            final(self).wf(),
            final(self)@ == (MmuView {
                bank0: bank_window(cart@, 0),
                loaded_bank: bank_window(cart@, 16384),
                ..old(self)@
            }),
    {
        self.bank0 = copy_bank_window(cart, 0);
        self.loaded_bank = copy_bank_window(cart, 16384);
    }
}

/// The working-RAM mirror, read side: in any well-formed router state,
/// a read anywhere in 0xC000-0xFDFF sees the same byte as a read at the
/// canonical address `0xC000 + ((addr - 0xC000) % 8192)`, so the echo at
/// 0xE000-0xFDFF observes every write made through the canonical range.
pub proof fn lemma_working_ram_mirror_read(m: MmuView, addr: u16)
    requires
        m.wf(),
        0xc000 <= addr <= 0xfdff,
    ensures
        m.read_spec(addr) == m.read_spec((0xc000 + ((addr - 0xc000) % 8192)) as u16),
{
    let d = addr - 0xc000;
    let c = 0xc000 + d % 8192;
    vstd::arithmetic::div_mod::lemma_mod_multiples_vanish(6, d, 8192);
    vstd::arithmetic::div_mod::lemma_mod_multiples_vanish(6, d % 8192, 8192);
    vstd::arithmetic::div_mod::lemma_mod_twice(d, 8192);
    assert(addr as int == 8192 * 6 + d);
    assert(c == 8192 * 6 + d % 8192);
    assert(addr as int % 8192 == c % 8192);
}

/// The working-RAM mirror, write side: a write anywhere in 0xC000-0xFDFF
/// produces the same router state as the same write at the canonical
/// address `0xC000 + ((addr - 0xC000) % 8192)`.
pub proof fn lemma_working_ram_mirror_write(m: MmuView, addr: u16, val: u8)
    requires
        m.wf(),
        0xc000 <= addr <= 0xfdff,
    ensures
        m.write_spec(addr, val) == m.write_spec((0xc000 + ((addr - 0xc000) % 8192)) as u16, val),
{
    let d = addr - 0xc000;
    let c = 0xc000 + d % 8192;
    vstd::arithmetic::div_mod::lemma_mod_multiples_vanish(6, d, 8192);
    vstd::arithmetic::div_mod::lemma_mod_multiples_vanish(6, d % 8192, 8192);
    vstd::arithmetic::div_mod::lemma_mod_twice(d, 8192);
    assert(addr as int == 8192 * 6 + d);
    assert(c == 8192 * 6 + d % 8192);
    assert(addr as int % 8192 == c % 8192);
}

/// The unmapped hole: every read and every write in 0xFEA0-0xFEFF faults
/// with `UnmappedAccess`, in every router state.
pub proof fn lemma_unmapped_hole(m: MmuView, addr: u16, val: u8)
    requires
        0xfea0 <= addr <= 0xfeff,
    ensures
        m.read_spec(addr) == Err::<u8, MemError>(MemError::UnmappedAccess),
        m.write_spec(addr, val) == Err::<MmuView, MemError>(MemError::UnmappedAccess),
{
}

/// The boot overlay: while the boot flag is set, a read in 0x0000-0x00FF
/// sees the boot firmware byte; once it is cleared, the same read sees the
/// cartridge bank-0 byte.
pub proof fn lemma_boot_overlay(m: MmuView, addr: u16)
    requires
        m.wf(),
        addr <= 0x00ff,
    ensures
        m.boot_active ==> m.read_spec(addr) == Ok::<u8, MemError>(m.bios[addr as int]),
        !m.boot_active ==> m.read_spec(addr) == Ok::<u8, MemError>(m.bank0[addr as int]),
{
}

/// ROM protection: every write in 0x0000-0x7FFF (boot firmware, bank 0,
/// or the switched bank) faults with `ReadOnlyViolation`, whatever the
/// boot flag says.
pub proof fn lemma_rom_write_protected(m: MmuView, addr: u16, val: u8)
    requires
        addr <= 0x7fff,
    ensures
        m.write_spec(addr, val) == Err::<MmuView, MemError>(MemError::ReadOnlyViolation),
{
}

/// Copy one 16 KiB bank window out of a cartridge image, zero-filling
/// past the end of the image.
fn copy_bank_window(cart: &[u8], start: usize) -> (v: Vec<u8>)
    requires
        start <= 16384,
    ensures
        v@ == bank_window(cart@, start as int),
{
    let mut v: Vec<u8> = Vec::new();
    let n: usize = cart.len();
    let mut i: usize = 0;
    while i < 16384
        invariant
            start <= 16384,
            i <= 16384,
            n == cart@.len(),
            v@.len() == i,
            forall|j: int|
                0 <= j < i ==> v@[j] == (if start + j < cart@.len() {
                    cart@[start + j]
                } else {
                    0u8
                }),
        decreases 16384 - i,
    {
        if start < n && i < n - start {
            v.push(*vstd::slice::slice_index_get(cart, start + i));
        } else {
            v.push(0u8);
        }
        i += 1;
    }
    proof {
        assert(v@ =~= bank_window(cart@, start as int));
    }
    v
}

} // verus!
