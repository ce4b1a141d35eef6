use vstd::prelude::*;

verus! {

pub const PRG_BANK_SIZE: usize = 0x4000;
pub const CHR_BANK_SIZE: usize = 0x2000;
pub const HEADER_SIZE: usize = 16;
pub const TRAINER_SIZE: usize = 512;

/// How the four nametables of the PPU map onto nametable memory.
#[derive(Clone, Copy, Debug, PartialEq, Eq, Structural)]
pub enum Mirroring {
    Horizontal,
    Vertical,
    FourScreen,
    SingleLower,
    SingleUpper,
}

/// The offset into nametable memory that a PPU address in 0x2000..=0x3FFF
/// selects: horizontal keeps bit 10 and drops bit 11, vertical keeps bit 11
/// (as bit 10) and drops bit 10, the single modes pin one table, four-screen
/// keeps all 4 KiB.
pub open spec fn mirrored(mode: Mirroring, address: u16) -> u16 {
    let a = address & 0x0FFF;
    match mode {
        Mirroring::Horizontal => a & 0x07FF,
        Mirroring::Vertical => (a & 0x03FF) | ((a & 0x0800) >> 1u16),
        Mirroring::FourScreen => a,
        Mirroring::SingleLower => a & 0x03FF,
        Mirroring::SingleUpper => 0x0400 | (a & 0x03FF),
    }
}

impl Mirroring {
    pub fn mirror_address(&self, address: u16) -> (r: u16)
        ensures
            r == mirrored(*self, address),
            r < 0x1000,
    {
        let a = address & 0x0FFF;
        let r = match self {
            Mirroring::Horizontal => a & 0x07FF,
            Mirroring::Vertical => (a & 0x03FF) | ((a & 0x0800) >> 1u16),
            Mirroring::FourScreen => a,
            Mirroring::SingleLower => a & 0x03FF,
            Mirroring::SingleUpper => 0x0400 | (a & 0x03FF),
        };
        assert(r < 0x1000) by (bit_vector)
            requires
                a == address & 0x0FFF,
                r == a & 0x07FF || r == (a & 0x03FF) | ((a & 0x0800) >> 1u16) || r == a
                    || r == a & 0x03FF || r == 0x0400 | (a & 0x03FF);
        r
    }
}

#[derive(Clone, Copy, Debug, PartialEq, Eq, Structural)]
pub enum LoadError {
    /// Bad magic bytes, or an image shorter than its header declares.
    InvalidFormat,
    /// The underlying read failed.
    Io,
    UnsupportedMapper(u8),
}

/// A cartridge image: PRG-ROM in 16 KiB banks, CHR-ROM (or 8 KiB of CHR-RAM)
/// in 8 KiB banks, the nametable mirroring and the mapper number.
pub struct Cartridge {
    pub prg_rom: Vec<u8>,
    pub chr: Vec<u8>,
    pub chr_is_ram: bool,
    pub mirroring: Mirroring,
    pub mapper: u8,
}

pub struct CartridgeView {
    pub prg: Seq<u8>,
    pub chr: Seq<u8>,
    pub chr_is_ram: bool,
    pub mirroring: Mirroring,
    pub mapper: u8,
}

impl View for Cartridge {
    type V = CartridgeView;

    open spec fn view(&self) -> CartridgeView {
        CartridgeView {
            prg: self.prg_rom@,
            chr: self.chr@,
            chr_is_ram: self.chr_is_ram,
            mirroring: self.mirroring,
            mapper: self.mapper,
        }
    }
}

/// At least one and at most 255 banks of each kind, whole banks only.
pub open spec fn banks_ok(c: CartridgeView) -> bool {
    &&& c.prg.len() % 0x4000 == 0
    &&& 0x4000 <= c.prg.len() <= 255 * 0x4000
    &&& c.chr.len() % 0x2000 == 0
    &&& 0x2000 <= c.chr.len() <= 255 * 0x2000
}

impl Cartridge {
    pub open spec fn wf(&self) -> bool {
        banks_ok(self@)
    }
}

pub open spec fn supported_mapper(id: u8) -> bool {
    id == 0 || id == 1 || id == 3
}

pub open spec fn header_ok(b: Seq<u8>) -> bool {
    &&& b.len() >= 16
    &&& b[0] == 0x4E && b[1] == 0x45 && b[2] == 0x53 && b[3] == 0x1A
}

/// Low nibble from flag byte 6, high nibble from flag byte 7.
pub open spec fn mapper_id(b: Seq<u8>) -> u8 {
    (b[6] >> 4u8) | (b[7] & 0xF0)
}

pub open spec fn mirroring_of(flags6: u8) -> Mirroring {
    if flags6 & 0x08 != 0 {
        Mirroring::FourScreen
    } else if flags6 & 0x01 != 0 {
        Mirroring::Vertical
    } else {
        Mirroring::Horizontal
    }
}

pub open spec fn prg_start(b: Seq<u8>) -> int {
    if b[6] & 0x04 != 0 { 528 } else { 16 }
}

pub open spec fn prg_size(b: Seq<u8>) -> int {
    b[4] * 0x4000
}

pub open spec fn chr_size(b: Seq<u8>) -> int {
    b[5] * 0x2000
}

/// The image holds the header, the trainer if flagged, and every declared bank.
pub open spec fn image_complete(b: Seq<u8>) -> bool {
    b[4] > 0 && b.len() >= prg_start(b) + prg_size(b) + chr_size(b)
}

/// What `Cartridge::load` returns on the image `b`.
pub open spec fn load_result_ok(b: Seq<u8>, c: CartridgeView) -> bool {
    let p = prg_start(b);
    let q = p + prg_size(b);
    &&& c.prg == b.subrange(p, q)
    &&& c.chr == if b[5] == 0 { Seq::new(0x2000, |i: int| 0u8) } else { b.subrange(q, q + chr_size(b)) }
    &&& c.chr_is_ram == (b[5] == 0)
    &&& c.mirroring == mirroring_of(b[6])
    &&& c.mapper == mapper_id(b)
}

fn copy_range(b: &Vec<u8>, start: usize, end: usize) -> (r: Vec<u8>)
    requires
        start <= end <= b.len(),
    ensures
        r@ == b@.subrange(start as int, end as int),
{
    let mut r: Vec<u8> = Vec::new();
    let mut i: usize = start;
    while i < end
        invariant
            start <= i <= end <= b.len(),
            r@ == b@.subrange(start as int, i as int),
        decreases end - i,
    {
        r.push(b[i]);
        i = i + 1;
    }
    r
}

impl Cartridge {
    /// Parses an image in the 16-byte-header cartridge format.
    pub fn load(bytes: &Vec<u8>) -> (r: Result<Cartridge, LoadError>)
        ensures
            !header_ok(bytes@) ==> r == Err::<Cartridge, LoadError>(LoadError::InvalidFormat),
            header_ok(bytes@) && !supported_mapper(mapper_id(bytes@))
                ==> r == Err::<Cartridge, LoadError>(LoadError::UnsupportedMapper(mapper_id(bytes@))),
            header_ok(bytes@) && supported_mapper(mapper_id(bytes@)) && !image_complete(bytes@)
                ==> r == Err::<Cartridge, LoadError>(LoadError::InvalidFormat),
            header_ok(bytes@) && supported_mapper(mapper_id(bytes@)) && image_complete(bytes@)
                ==> r is Ok && load_result_ok(bytes@, r->Ok_0@) && r->Ok_0.wf(),
    {
        if bytes.len() < HEADER_SIZE || bytes[0] != 0x4E || bytes[1] != 0x45 || bytes[2] != 0x53
            || bytes[3] != 0x1A {
            return Err(LoadError::InvalidFormat);
        }
        let flags6 = bytes[6];
        let mapper = (flags6 >> 4u8) | (bytes[7] & 0xF0);
        if !(mapper == 0 || mapper == 1 || mapper == 3) {
            return Err(LoadError::UnsupportedMapper(mapper));
        }
        let prg_banks = bytes[4] as usize;
        let chr_banks = bytes[5] as usize;
        let start = if flags6 & 0x04 != 0 { HEADER_SIZE + TRAINER_SIZE } else { HEADER_SIZE };
        let prg_end = start + prg_banks * PRG_BANK_SIZE;
        let chr_end = prg_end + chr_banks * CHR_BANK_SIZE;
        if prg_banks == 0 || bytes.len() < chr_end {
            return Err(LoadError::InvalidFormat);
        }
        let prg_rom = copy_range(bytes, start, prg_end);
        let chr = if chr_banks == 0 {
            let v = vec![0u8; CHR_BANK_SIZE];
            assert(v@ =~= Seq::new(0x2000, |i: int| 0u8));
            v
        } else {
            copy_range(bytes, prg_end, chr_end)
        };
        let mirroring = if flags6 & 0x08 != 0 {
            Mirroring::FourScreen
        } else if flags6 & 0x01 != 0 {
            Mirroring::Vertical
        } else {
            Mirroring::Horizontal
        };
        Ok(Cartridge { prg_rom, chr, chr_is_ram: chr_banks == 0, mirroring, mapper })
    }
}

} // verus!
