use vstd::prelude::*;
use crate::mapper::{mapper_wf, ppu_peek, prg_peek, prg_poke, chr_poke, vram_poke, Mapper, MapperView, Vram};
use crate::cpu::{stack_address, Cpu, CpuState};
use crate::memory::{add16, high_byte, low_byte, make_word, word, wrap16, wrap8, Memory};

verus! {

pub const RAM_SIZE: usize = 0x800;
pub const PPU_REGISTER_COUNT: usize = 8;
pub const IO_REGISTER_COUNT: usize = 0x20;
pub const OAM_SIZE: usize = 0x100;
pub const OAM_DMA: u16 = 0x4014;
pub const PALETTE_SIZE: usize = 0x20;

/// The palette RAM slot of a PPU address at 0x3F00 and up: the table repeats
/// every 32 bytes, and 0x3F10/0x3F14/0x3F18/0x3F1C alias 0x3F00/0x3F04/0x3F08/0x3F0C.
pub open spec fn palette_index(address: u16) -> int {
    let i = address as int % 0x20;
    if i >= 0x10 && i % 4 == 0 { i - 0x10 } else { i }
}

pub fn palette_slot(address: u16) -> (r: usize)
    ensures
        r == palette_index(address),
        r < 0x20,
{
    let i = (address % 0x20) as usize;
    if i >= 0x10 && i % 4 == 0 { i - 0x10 } else { i }
}

/// The state behind the CPU's address space.
pub struct BusView {
    pub ram: Seq<u8>,
    pub ppu_regs: Seq<u8>,
    pub io_regs: Seq<u8>,
    pub oam: Seq<u8>,
    pub vram: Seq<u8>,
    pub palette: Seq<u8>,
    pub mapper: MapperView,
}

/// What a CPU read of `a` returns: RAM mirrored every 0x800 bytes below 0x2000,
/// the eight PPU registers mirrored up to 0x3FFF, the APU and I/O registers up
/// to 0x401F, and the mapper from 0x4020.
pub open spec fn bus_peek(m: BusView, a: u16) -> u8 {
    if a < 0x2000 {
        m.ram[a as int % 0x800]
    } else if a < 0x4000 {
        m.ppu_regs[a as int % 8]
    } else if a < 0x4020 {
        m.io_regs[a as int - 0x4000]
    } else {
        prg_peek(m.mapper, a)
    }
}

/// The 256 bytes of page `page` as the CPU reads them.
pub open spec fn dma_page(m: BusView, page: u8) -> Seq<u8> {
    Seq::new(0x100, |i: int| bus_peek(m, (page as int * 0x100 + i) as u16))
}

/// The state after a CPU write of `v` to `a`; a write to 0x4014 also copies
/// page `v` into OAM.
pub open spec fn bus_poke(m: BusView, a: u16, v: u8) -> BusView {
    if a < 0x2000 {
        BusView { ram: m.ram.update(a as int % 0x800, v), ..m }
    } else if a < 0x4000 {
        BusView { ppu_regs: m.ppu_regs.update(a as int % 8, v), ..m }
    } else if a == 0x4014 {
        BusView { io_regs: m.io_regs.update(a as int - 0x4000, v), oam: dma_page(m, v), ..m }
    } else if a < 0x4020 {
        BusView { io_regs: m.io_regs.update(a as int - 0x4000, v), ..m }
    } else {
        BusView { mapper: prg_poke(m.mapper, a, v), ..m }
    }
}

pub open spec fn bus_wf(m: BusView) -> bool {
    &&& m.ram.len() == 0x800
    &&& m.ppu_regs.len() == 8
    &&& m.io_regs.len() == 0x20
    &&& m.oam.len() == 0x100
    &&& m.vram.len() == 0x1000
    &&& m.palette.len() == 0x20
    &&& mapper_wf(m.mapper)
}

/// The memory bus: internal RAM, the PPU and I/O register ports, object
/// attribute memory, nametable memory and the cartridge mapper.
pub struct Interconnect {
    pub ram: Vec<u8>,
    pub ppu_regs: Vec<u8>,
    pub io_regs: Vec<u8>,
    pub oam: Vec<u8>,
    pub vram: Vram,
    pub palette: Vec<u8>,
    pub mapper: Box<Mapper>,
}

impl Memory for Interconnect {
    type Model = BusView;

    open spec fn model(&self) -> BusView {
        BusView {
            ram: self.ram@,
            ppu_regs: self.ppu_regs@,
            io_regs: self.io_regs@,
            oam: self.oam@,
            vram: self.vram.bytes@,
            palette: self.palette@,
            mapper: self.mapper@,
        }
    }

    open spec fn inv(&self) -> bool {
        bus_wf(self.model())
    }

    open spec fn peek(m: BusView, address: u16) -> u8 {
        bus_peek(m, address)
    }

    open spec fn poke(m: BusView, address: u16, value: u8) -> BusView {
        bus_poke(m, address, value)
    }

    fn load_byte(&self, address: u16) -> (r: u8) {
        if address < 0x2000 {
            self.ram[(address % 0x800) as usize]
        } else if address < 0x4000 {
            self.ppu_regs[(address % 8) as usize]
        } else if address < 0x4020 {
            self.io_regs[(address - 0x4000) as usize]
        } else {
            self.mapper.prg_read_byte(address)
        }
    }

    fn store_byte(&mut self, address: u16, value: u8) {
        if address < 0x2000 {
            self.ram.set((address % 0x800) as usize, value);
        } else if address < 0x4000 {
            self.ppu_regs.set((address % 8) as usize, value);
        } else if address == OAM_DMA {
            let oam = self.dma_copy(value);
            self.io_regs.set((address - 0x4000) as usize, value);
            self.oam = oam;
        } else if address < 0x4020 {
            self.io_regs.set((address - 0x4000) as usize, value);
        } else {
            self.mapper.prg_write_byte(address, value);
        }
    }
}

impl Interconnect {
    /// A bus with cleared RAM, registers, OAM and VRAM around `mapper`.
    pub fn new(mapper: Box<Mapper>) -> (r: Interconnect)
        requires
            mapper.wf(),
        ensures
            r.inv(),
            r.model() == (BusView {
                ram: Seq::new(0x800, |i: int| 0u8),
                ppu_regs: Seq::new(8, |i: int| 0u8),
                io_regs: Seq::new(0x20, |i: int| 0u8),
                oam: Seq::new(0x100, |i: int| 0u8),
                vram: Seq::new(0x1000, |i: int| 0u8),
                palette: Seq::new(0x20, |i: int| 0u8),
                mapper: mapper@,
            }),
    {
        let ram = vec![0u8; RAM_SIZE];
        let ppu_regs = vec![0u8; PPU_REGISTER_COUNT];
        let io_regs = vec![0u8; IO_REGISTER_COUNT];
        let oam = vec![0u8; OAM_SIZE];
        let palette = vec![0u8; PALETTE_SIZE];
        assert(palette@ =~= Seq::new(0x20, |i: int| 0u8));
        assert(ram@ =~= Seq::new(0x800, |i: int| 0u8));
        assert(ppu_regs@ =~= Seq::new(8, |i: int| 0u8));
        assert(io_regs@ =~= Seq::new(0x20, |i: int| 0u8));
        assert(oam@ =~= Seq::new(0x100, |i: int| 0u8));
        Interconnect { ram, ppu_regs, io_regs, oam, vram: Vram::new(), palette, mapper }
    }

    fn dma_copy(&self, page: u8) -> (r: Vec<u8>)
        requires
            self.inv(),
        ensures
            r@ == dma_page(self.model(), page),
    {
        let mut r: Vec<u8> = Vec::new();
        let base: u16 = (page as u16) * 0x100;
        let mut i: u16 = 0;
        while i < 0x100
            invariant
                0 <= i <= 0x100,
                self.inv(),
                base == page as int * 0x100,
                r@.len() == i,
                forall|j: int| 0 <= j < i ==> r@[j] == bus_peek(self.model(), (page as int * 0x100 + j) as u16),
            decreases 0x100 - i,
        {
            r.push(self.load_byte(base + i));
            i = i + 1;
        }
        assert(r@ =~= dma_page(self.model(), page));
        r
    }

    /// The little-endian word at `address` and the byte after it.
    pub fn read_word(&self, address: u16) -> (r: u16)
        requires
            self.inv(),
        ensures
            r == word(bus_peek(self.model(), address), bus_peek(self.model(), wrap16(address + 1))),
    {
        let lo = self.load_byte(address);
        let hi = self.load_byte(add16(address, 1));
        make_word(lo, hi)
    }

    /// Copies page `page` into object attribute memory, as a write to 0x4014 does.
    pub fn dma_oam(&mut self, page: u8)
        requires
            old(self).inv(),
        ensures
            final(self).inv(),
            final(self).model() == (BusView { oam: dma_page(old(self).model(), page), ..old(self).model() }),
    {
        let oam = self.dma_copy(page);
        self.oam = oam;
    }

    /// A PPU read: pattern tables through the mapper, nametables through its
    /// mirroring, and palette RAM from 0x3F00.
    pub fn ppu_read_byte(&self, address: u16) -> (r: u8)
        requires
            self.inv(),
        ensures
            r == if address & 0x3FFF >= 0x3F00 {
                self.palette@[palette_index(address)]
            } else {
                ppu_peek(self.mapper@, self.vram.bytes@, address)
            },
    {
        if address & 0x3FFF >= 0x3F00 {
            self.palette[palette_slot(address)]
        } else {
            self.mapper.ppu_read_byte(&self.vram, address)
        }
    }

    pub fn ppu_write_byte(&mut self, address: u16, value: u8)
        requires
            old(self).inv(),
        ensures
            final(self).inv(),
            address & 0x3FFF >= 0x3F00 ==> {
                &&& final(self).palette@ == old(self).palette@.update(palette_index(address), value)
                &&& final(self).mapper@ == old(self).mapper@
                &&& final(self).vram.bytes@ == old(self).vram.bytes@
            },
            address & 0x3FFF < 0x3F00 ==> {
                &&& final(self).palette@ == old(self).palette@
                &&& final(self).mapper@ == chr_poke(old(self).mapper@, address, value)
                &&& final(self).vram.bytes@ == vram_poke(old(self).mapper@, old(self).vram.bytes@, address, value)
            },
            final(self).ram@ == old(self).ram@,
            final(self).ppu_regs@ == old(self).ppu_regs@,
            final(self).io_regs@ == old(self).io_regs@,
            final(self).oam@ == old(self).oam@,
    {
        if address & 0x3FFF >= 0x3F00 {
            self.palette.set(palette_slot(address), value);
        } else {
            self.mapper.ppu_write_byte(&mut self.vram, address, value);
        }
    }
}

/// Every address below 0x2000 reads the same byte as its image in the first 2 KiB.
pub proof fn lemma_ram_mirroring(m: BusView, a: u16)
    requires
        a < 0x2000,
    ensures
        bus_peek(m, a) == bus_peek(m, a % 0x800),
{
}

/// With the stack in internal RAM, pulling a word just pushed returns it and
/// leaves SP where it was.
pub proof fn lemma_stack_word_round_trip(s: CpuState<BusView>, w: u16)
    requires
        bus_wf(s.mem),
    ensures
        ({
            let (r, s2) = Cpu::<Interconnect>::pulled_word(Cpu::<Interconnect>::pushed_word(s, w));
            r == w && s2.regs.sp == s.regs.sp
        }),
{
    let sp = s.regs.sp;
    let sp1 = wrap8(sp - 1);
    let a0 = stack_address(sp);
    let a1 = stack_address(sp1);
    assert(wrap8(sp1 + 1) == sp);
    assert(wrap8(wrap8(sp1 - 1) + 1) == sp1);
    assert(a0 != a1);
    assert(a0 < 0x2000 && a0 as int % 0x800 == a0 as int);
    assert(a1 < 0x2000 && a1 as int % 0x800 == a1 as int);
    let s1 = Cpu::<Interconnect>::pushed(s, high_byte(w));
    assert(s1.mem == BusView { ram: s.mem.ram.update(a0 as int, high_byte(w)), ..s.mem });
    let s2 = Cpu::<Interconnect>::pushed(s1, low_byte(w));
    assert(s2.mem == BusView { ram: s1.mem.ram.update(a1 as int, low_byte(w)), ..s1.mem });
    assert(s2.regs.sp == wrap8(sp1 - 1));
    assert(bus_peek(s2.mem, a1) == low_byte(w));
    assert(bus_peek(s2.mem, a0) == high_byte(w));
    assert(word(low_byte(w), high_byte(w)) == w);
}

} // verus!
