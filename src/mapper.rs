use vstd::prelude::*;
use crate::cartridge::{banks_ok, mirrored, Cartridge, CartridgeView, Mirroring};

verus! {

pub const VRAM_SIZE: usize = 0x1000;

/// Nametable memory; four-screen cartridges use all of it, the others the first 2 KiB.
pub struct Vram {
    pub bytes: Vec<u8>,
}

impl Vram {
    pub fn new() -> (r: Vram)
        ensures
            r.bytes@ == Seq::new(0x1000, |i: int| 0u8),
    {
        let v = vec![0u8; VRAM_SIZE];
        assert(v@ =~= Seq::new(0x1000, |i: int| 0u8));
        Vram { bytes: v }
    }

    pub open spec fn wf(&self) -> bool {
        self.bytes.len() == 0x1000
    }

    pub fn read_byte(&self, offset: u16) -> (r: u8)
        requires
            self.wf(),
            offset < 0x1000,
        ensures
            r == self.bytes@[offset as int],
    {
        self.bytes[offset as usize]
    }

    pub fn write_byte(&mut self, offset: u16, value: u8)
        requires
            old(self).wf(),
            offset < 0x1000,
        ensures
            final(self).bytes@ == old(self).bytes@.update(offset as int, value),
    {
        self.bytes.set(offset as usize, value);
    }
}

/// The internal registers of MMC1: the serial shift register with its write
/// count, and the four registers it loads.
#[derive(Clone, Copy, Debug, PartialEq, Eq, Structural)]
pub struct Mmc1Regs {
    pub shift: u8,
    pub count: u8,
    pub control: u8,
    pub chr_bank0: u8,
    pub chr_bank1: u8,
    pub prg_bank: u8,
}

/// The state of each supported mapper.
pub enum MapperView {
    Nrom(CartridgeView),
    Mmc1(CartridgeView, Mmc1Regs),
    Mapper3(CartridgeView, u8),
}

pub open spec fn cart(m: MapperView) -> CartridgeView {
    match m {
        MapperView::Nrom(c) => c,
        MapperView::Mmc1(c, _) => c,
        MapperView::Mapper3(c, _) => c,
    }
}

pub open spec fn mapper_wf(m: MapperView) -> bool {
    &&& banks_ok(cart(m))
    &&& match m {
        MapperView::Nrom(_) => true,
        MapperView::Mmc1(_, r) => r.count < 5,
        MapperView::Mapper3(c, bank) => (bank as int) < c.chr.len() / 0x2000,
    }
}

/// NROM and CNROM: PRG mapped linearly from 0x8000, a single 16 KiB bank
/// repeated at 0xC000.
pub open spec fn linear_prg(c: CartridgeView, address: u16) -> u8 {
    if address < 0x8000 {
        0
    } else {
        c.prg[(address - 0x8000) % (c.prg.len() as int)]
    }
}

/// The 16 KiB PRG bank that MMC1 maps at 0x8000 (lower) or 0xC000 (upper)
/// among `n` banks.
pub open spec fn mmc1_prg_bank(r: Mmc1Regs, n: int, upper: bool) -> int {
    let mode = (r.control >> 2u8) & 3;
    if mode < 2 {
        if upper { ((r.prg_bank & 0x0E) | 1) as int % n } else { (r.prg_bank & 0x0E) as int % n }
    } else if mode == 2 {
        if upper { (r.prg_bank & 0x0F) as int % n } else { 0 }
    } else {
        if upper { n - 1 } else { (r.prg_bank & 0x0F) as int % n }
    }
}

/// The 4 KiB CHR bank that MMC1 maps at 0x0000 (lower) or 0x1000 (upper) among `n`.
pub open spec fn mmc1_chr_bank(r: Mmc1Regs, n: int, upper: bool) -> int {
    if r.control & 0x10 == 0 {
        if upper { ((r.chr_bank0 & 0x1E) | 1) as int % n } else { (r.chr_bank0 & 0x1E) as int % n }
    } else {
        if upper { r.chr_bank1 as int % n } else { r.chr_bank0 as int % n }
    }
}

pub open spec fn mmc1_mirroring(r: Mmc1Regs) -> Mirroring {
    let m = r.control & 3;
    if m == 0 {
        Mirroring::SingleLower
    } else if m == 1 {
        Mirroring::SingleUpper
    } else if m == 2 {
        Mirroring::Vertical
    } else {
        Mirroring::Horizontal
    }
}

/// A write to MMC1's serial port: bit 7 resets the shift register and sets
/// PRG mode 3; otherwise bit 0 is shifted in, and the fifth write loads the
/// register chosen by address bits 13-14.
pub open spec fn mmc1_write(r: Mmc1Regs, address: u16, value: u8) -> Mmc1Regs {
    if value & 0x80 != 0 {
        Mmc1Regs { shift: 0, count: 0, control: r.control | 0x0C, ..r }
    } else {
        let shift = (r.shift >> 1u8) | ((value & 1) << 4u8);
        if r.count + 1 == 5 {
            let select = (address >> 13u16) & 3;
            let loaded = if select == 0 {
                Mmc1Regs { control: shift, ..r }
            } else if select == 1 {
                Mmc1Regs { chr_bank0: shift, ..r }
            } else if select == 2 {
                Mmc1Regs { chr_bank1: shift, ..r }
            } else {
                Mmc1Regs { prg_bank: shift, ..r }
            };
            Mmc1Regs { shift: 0, count: 0, ..loaded }
        } else {
            Mmc1Regs { shift, count: (r.count + 1) as u8, ..r }
        }
    }
}

/// What a CPU read in 0x4020..=0xFFFF returns; nothing is mapped below 0x8000.
pub open spec fn prg_peek(m: MapperView, address: u16) -> u8 {
    match m {
        MapperView::Mmc1(c, r) => if address < 0x8000 {
            0
        } else {
            c.prg[mmc1_prg_bank(r, c.prg.len() as int / 0x4000, address >= 0xC000) * 0x4000 + address as int % 0x4000]
        },
        _ => linear_prg(cart(m), address),
    }
}

/// The mapper after a CPU write in 0x4020..=0xFFFF; only 0x8000 and up reach
/// the bank registers.
pub open spec fn prg_poke(m: MapperView, address: u16, value: u8) -> MapperView {
    if address < 0x8000 {
        m
    } else {
        match m {
            MapperView::Nrom(c) => m,
            MapperView::Mmc1(c, r) => MapperView::Mmc1(c, mmc1_write(r, address, value)),
            MapperView::Mapper3(c, _) => MapperView::Mapper3(c, (value as int % (c.chr.len() / 0x2000) as int) as u8),
        }
    }
}

/// The offset into CHR that a pattern-table address (below 0x2000) selects.
pub open spec fn chr_offset(m: MapperView, address: u16) -> int {
    match m {
        MapperView::Nrom(c) => address as int,
        MapperView::Mmc1(c, r) =>
            mmc1_chr_bank(r, c.chr.len() as int / 0x1000, address >= 0x1000) * 0x1000 + address as int % 0x1000,
        MapperView::Mapper3(c, bank) => bank as int * 0x2000 + address as int,
    }
}

pub open spec fn mirroring(m: MapperView) -> Mirroring {
    match m {
        MapperView::Mmc1(_, r) => mmc1_mirroring(r),
        _ => cart(m).mirroring,
    }
}

/// What a PPU read of `address` returns: pattern tables from CHR, nametables
/// from VRAM through the mirroring.
pub open spec fn ppu_peek(m: MapperView, vram: Seq<u8>, address: u16) -> u8 {
    let a = address & 0x3FFF;
    if a < 0x2000 {
        cart(m).chr[chr_offset(m, a)]
    } else {
        vram[mirrored(mirroring(m), a) as int]
    }
}

/// The mapper after a PPU write below 0x2000: CHR-RAM takes it, CHR-ROM drops it.
pub open spec fn chr_poke(m: MapperView, address: u16, value: u8) -> MapperView {
    let a = address & 0x3FFF;
    if a < 0x2000 && cart(m).chr_is_ram {
        let c = CartridgeView { chr: cart(m).chr.update(chr_offset(m, a), value), ..cart(m) };
        match m {
            MapperView::Nrom(_) => MapperView::Nrom(c),
            MapperView::Mmc1(_, r) => MapperView::Mmc1(c, r),
            MapperView::Mapper3(_, bank) => MapperView::Mapper3(c, bank),
        }
    } else {
        m
    }
}

/// VRAM after a PPU write of `address`: only the nametable range reaches it.
pub open spec fn vram_poke(m: MapperView, vram: Seq<u8>, address: u16, value: u8) -> Seq<u8> {
    let a = address & 0x3FFF;
    if a < 0x2000 {
        vram
    } else {
        vram.update(mirrored(mirroring(m), a) as int, value)
    }
}

/// Mapper 0: fixed PRG and CHR.
pub struct Nrom {
    pub cartridge: Box<Cartridge>,
}

/// Mapper 3 (CNROM): fixed PRG, one switchable 8 KiB CHR bank.
pub struct Mapper3 {
    pub cartridge: Box<Cartridge>,
    pub chr_bank: u8,
}

/// Mapper 1 (MMC1): switchable PRG and CHR banks loaded through a serial port.
pub struct Mmc1 {
    pub cartridge: Box<Cartridge>,
    pub regs: Mmc1Regs,
}

pub enum Mapper {
    Nrom(Nrom),
    Mmc1(Mmc1),
    Mapper3(Mapper3),
}

impl View for Mapper {
    type V = MapperView;

    open spec fn view(&self) -> MapperView {
        match self {
            Mapper::Nrom(m) => MapperView::Nrom(m.cartridge@),
            Mapper::Mmc1(m) => MapperView::Mmc1(m.cartridge@, m.regs),
            Mapper::Mapper3(m) => MapperView::Mapper3(m.cartridge@, m.chr_bank),
        }
    }
}

fn read_linear_prg(c: &Cartridge, address: u16) -> (r: u8)
    requires
        banks_ok(c@),
    ensures
        r == linear_prg(c@, address),
{
    if address < 0x8000 {
        0
    } else {
        c.prg_rom[((address - 0x8000) as usize) % c.prg_rom.len()]
    }
}

impl Nrom {
    pub fn new(cartridge: Box<Cartridge>) -> (r: Nrom)
        ensures
            r.cartridge@ == cartridge@,
    {
        Nrom { cartridge }
    }
}

impl Mapper3 {
    pub fn new(cartridge: Box<Cartridge>) -> (r: Mapper3)
        ensures
            r.cartridge@ == cartridge@,
            r.chr_bank == 0,
    {
        Mapper3 { cartridge, chr_bank: 0 }
    }

    /// Selects CHR bank `value` modulo the number of 8 KiB banks.
    pub fn prg_write_byte(&mut self, address: u16, value: u8)
        requires
            banks_ok(old(self).cartridge@),
        ensures
            final(self).cartridge@ == old(self).cartridge@,
            final(self).chr_bank == if address < 0x8000 {
                old(self).chr_bank
            } else {
                (value as int % (old(self).cartridge.chr@.len() / 0x2000) as int) as u8
            },
    {
        if address >= 0x8000 {
            let n = self.cartridge.chr.len() / 0x2000;
            self.chr_bank = ((value as usize) % n) as u8;
        }
    }
}

pub fn mmc1_prg_bank_index(r: Mmc1Regs, n: usize, upper: bool) -> (b: usize)
    requires
        n >= 1,
    ensures
        b == mmc1_prg_bank(r, n as int, upper),
        b < n,
{
    let mode = (r.control >> 2u8) & 3;
    if mode < 2 {
        if upper { ((r.prg_bank & 0x0E) | 1) as usize % n } else { (r.prg_bank & 0x0E) as usize % n }
    } else if mode == 2 {
        if upper { (r.prg_bank & 0x0F) as usize % n } else { 0 }
    } else {
        if upper { n - 1 } else { (r.prg_bank & 0x0F) as usize % n }
    }
}

pub fn mmc1_chr_bank_index(r: Mmc1Regs, n: usize, upper: bool) -> (b: usize)
    requires
        n >= 1,
    ensures
        b == mmc1_chr_bank(r, n as int, upper),
        b < n,
{
    if r.control & 0x10 == 0 {
        if upper { ((r.chr_bank0 & 0x1E) | 1) as usize % n } else { (r.chr_bank0 & 0x1E) as usize % n }
    } else {
        if upper { r.chr_bank1 as usize % n } else { r.chr_bank0 as usize % n }
    }
}

pub fn mmc1_serial_write(r: Mmc1Regs, address: u16, value: u8) -> (n: Mmc1Regs)
    requires
        r.count < 5,
    ensures
        n == mmc1_write(r, address, value),
        n.count < 5,
{
    if value & 0x80 != 0 {
        Mmc1Regs { shift: 0, count: 0, control: r.control | 0x0C, ..r }
    } else {
        let shift = (r.shift >> 1u8) | ((value & 1) << 4u8);
        if r.count + 1 == 5 {
            let select = (address >> 13u16) & 3;
            let loaded = if select == 0 {
                Mmc1Regs { control: shift, ..r }
            } else if select == 1 {
                Mmc1Regs { chr_bank0: shift, ..r }
            } else if select == 2 {
                Mmc1Regs { chr_bank1: shift, ..r }
            } else {
                Mmc1Regs { prg_bank: shift, ..r }
            };
            Mmc1Regs { shift: 0, count: 0, ..loaded }
        } else {
            Mmc1Regs { shift, count: r.count + 1, ..r }
        }
    }
}

impl Mmc1 {
    /// Powers up with an empty shift register and PRG mode 3 (last bank fixed).
    pub fn new(cartridge: Box<Cartridge>) -> (r: Mmc1)
        ensures
            r.cartridge@ == cartridge@,
            r.regs == (Mmc1Regs { shift: 0, count: 0, control: 0x0C, chr_bank0: 0, chr_bank1: 0, prg_bank: 0 }),
    {
        Mmc1 {
            cartridge,
            regs: Mmc1Regs { shift: 0, count: 0, control: 0x0C, chr_bank0: 0, chr_bank1: 0, prg_bank: 0 },
        }
    }
}

impl Mapper {
    pub open spec fn wf(&self) -> bool {
        mapper_wf(self@)
    }

    pub fn cartridge(&self) -> (r: &Cartridge)
        ensures
            r@ == cart(self@),
    {
        match self {
            Mapper::Nrom(m) => &*m.cartridge,
            Mapper::Mmc1(m) => &*m.cartridge,
            Mapper::Mapper3(m) => &*m.cartridge,
        }
    }

    /// None of the supported mappers raises interrupts.
    pub fn irq_pending(&self) -> (r: bool)
        ensures
            !r,
    {
        false
    }

    pub fn prg_read_byte(&self, address: u16) -> (r: u8)
        requires
            self.wf(),
        ensures
            r == prg_peek(self@, address),
    {
        match self {
            Mapper::Mmc1(m) => {
                if address < 0x8000 {
                    0
                } else {
                    let n = m.cartridge.prg_rom.len() / 0x4000;
                    let bank = mmc1_prg_bank_index(m.regs, n, address >= 0xC000);
                    m.cartridge.prg_rom[bank * 0x4000 + (address as usize) % 0x4000]
                }
            },
            _ => read_linear_prg(self.cartridge(), address),
        }
    }

    pub fn prg_write_byte(&mut self, address: u16, value: u8)
        requires
            old(self).wf(),
        ensures
            final(self)@ == prg_poke(old(self)@, address, value),
            final(self).wf(),
    {
        match self {
            Mapper::Nrom(_) => {},
            Mapper::Mmc1(m) => {
                if address >= 0x8000 {
                    m.regs = mmc1_serial_write(m.regs, address, value);
                }
            },
            Mapper::Mapper3(m) => m.prg_write_byte(address, value),
        }
    }

    fn chr_address(&self, address: u16) -> (r: usize)
        requires
            self.wf(),
            address < 0x2000,
        ensures
            r == chr_offset(self@, address),
            r < cart(self@).chr.len(),
    {
        match self {
            Mapper::Nrom(_) => address as usize,
            Mapper::Mmc1(m) => {
                let n = m.cartridge.chr.len() / 0x1000;
                let bank = mmc1_chr_bank_index(m.regs, n, address >= 0x1000);
                bank * 0x1000 + (address as usize) % 0x1000
            },
            Mapper::Mapper3(m) => m.chr_bank as usize * 0x2000 + address as usize,
        }
    }

    pub fn mirroring(&self) -> (r: Mirroring)
        ensures
            r == mirroring(self@),
    {
        match self {
            Mapper::Mmc1(m) => {
                let c = m.regs.control & 3;
                if c == 0 {
                    Mirroring::SingleLower
                } else if c == 1 {
                    Mirroring::SingleUpper
                } else if c == 2 {
                    Mirroring::Vertical
                } else {
                    Mirroring::Horizontal
                }
            },
            _ => self.cartridge().mirroring,
        }
    }

    pub fn ppu_read_byte(&self, vram: &Vram, address: u16) -> (r: u8)
        requires
            self.wf(),
            vram.wf(),
        ensures
            r == ppu_peek(self@, vram.bytes@, address),
    {
        let a = address & 0x3FFF;
        if a < 0x2000 {
            let offset = self.chr_address(a);
            self.cartridge().chr[offset]
        } else {
            vram.read_byte(self.mirroring().mirror_address(a))
        }
    }

    fn set_chr(&mut self, offset: usize, value: u8)
        requires
            old(self).wf(),
            offset < cart(old(self)@).chr.len(),
        ensures
            final(self)@ == (match old(self)@ {
                MapperView::Nrom(c) => MapperView::Nrom(CartridgeView { chr: c.chr.update(offset as int, value), ..c }),
                MapperView::Mmc1(c, r) => MapperView::Mmc1(CartridgeView { chr: c.chr.update(offset as int, value), ..c }, r),
                MapperView::Mapper3(c, b) => MapperView::Mapper3(CartridgeView { chr: c.chr.update(offset as int, value), ..c }, b),
            }),
    {
        match self {
            Mapper::Nrom(m) => m.cartridge.chr.set(offset, value),
            Mapper::Mmc1(m) => m.cartridge.chr.set(offset, value),
            Mapper::Mapper3(m) => m.cartridge.chr.set(offset, value),
        }
    }

    pub fn ppu_write_byte(&mut self, vram: &mut Vram, address: u16, value: u8)
        requires
            old(self).wf(),
            old(vram).wf(),
        ensures
            final(self)@ == chr_poke(old(self)@, address, value),
            final(vram).bytes@ == vram_poke(old(self)@, old(vram).bytes@, address, value),
            final(self).wf(),
            final(vram).wf(),
    {
        let a = address & 0x3FFF;
        if a < 0x2000 {
            if self.cartridge().chr_is_ram {
                let offset = self.chr_address(a);
                self.set_chr(offset, value);
            }
        } else {
            let offset = self.mirroring().mirror_address(a);
            vram.write_byte(offset, value);
        }
    }
}

pub open spec fn initial_mapper(c: CartridgeView) -> MapperView {
    if c.mapper == 0 {
        MapperView::Nrom(c)
    } else if c.mapper == 1 {
        MapperView::Mmc1(c, Mmc1Regs { shift: 0, count: 0, control: 0x0C, chr_bank0: 0, chr_bank1: 0, prg_bank: 0 })
    } else {
        MapperView::Mapper3(c, 0)
    }
}

/// The mapper that the cartridge's mapper number names, in its power-up state.
pub fn create_mapper(cartridge: Box<Cartridge>) -> (r: Box<Mapper>)
    requires
        cartridge.wf(),
        cartridge.mapper == 0 || cartridge.mapper == 1 || cartridge.mapper == 3,
    ensures
        r@ == initial_mapper(cartridge@),
        r.wf(),
{
    if cartridge.mapper == 0 {
        Box::new(Mapper::Nrom(Nrom::new(cartridge)))
    } else if cartridge.mapper == 1 {
        Box::new(Mapper::Mmc1(Mmc1::new(cartridge)))
    } else {
        Box::new(Mapper::Mapper3(Mapper3::new(cartridge)))
    }
}

/// On CNROM a write of `v` at 0x8000 and up selects CHR bank `v` modulo the
/// number of 8 KiB banks, and pattern-table reads then come from that bank.
pub proof fn lemma_cnrom_bank_wrap(c: CartridgeView, bank: u8, vram: Seq<u8>, address: u16, v: u8, a: u16)
    requires
        mapper_wf(MapperView::Mapper3(c, bank)),
        address >= 0x8000,
        a < 0x2000,
    ensures
        ({
            let n = c.chr.len() as int / 0x2000;
            let after = prg_poke(MapperView::Mapper3(c, bank), address, v);
            &&& after == MapperView::Mapper3(c, (v as int % n) as u8)
            &&& mapper_wf(after)
            &&& ppu_peek(after, vram, a) == c.chr[(v as int % n) * 0x2000 + a]
        }),
{
    assert(a & 0x3FFF == a) by (bit_vector)
        requires
            a < 0x2000;
}

} // verus!
