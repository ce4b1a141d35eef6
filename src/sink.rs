use vstd::prelude::*;

verus! {

pub type AudioFrame = (i16, i16);

/// A fixed-size buffer of stereo samples filled from the front.
pub struct AudioSink<'a> {
    pub buffer: &'a mut [AudioFrame],
    pub buffer_pos: usize,
}

impl<'a> AudioSink<'a> {
    pub fn new(buffer: &'a mut [AudioFrame]) -> (r: AudioSink<'a>)
        ensures
            r.buffer@ == old(buffer)@,
            r.buffer_pos == 0,
    {
        AudioSink { buffer, buffer_pos: 0 }
    }

    /// Stores `frame` at the next free slot; a full buffer drops it.
    pub fn append(&mut self, frame: AudioFrame)
        ensures
            old(self).buffer_pos < old(self).buffer@.len() ==> {
                &&& final(self).buffer@ == old(self).buffer@.update(old(self).buffer_pos as int, frame)
                &&& final(self).buffer_pos == old(self).buffer_pos + 1
            },
            old(self).buffer_pos >= old(self).buffer@.len() ==> {
                &&& final(self).buffer@ == old(self).buffer@
                &&& final(self).buffer_pos == old(self).buffer_pos
            },
    {
        if self.buffer_pos < self.buffer.len() {
            self.buffer[self.buffer_pos] = frame;
            self.buffer_pos = self.buffer_pos + 1;
        }
    }
}

/// A host pixel buffer in one of three formats, with its pitch in bytes.
pub enum PixelBuffer<'a> {
    Xrgb1555(&'a mut [u16], usize),
    Rgb565(&'a mut [u16], usize),
    Xrgb8888(&'a mut [u32], usize),
}

impl<'a> PixelBuffer<'a> {
    pub fn pitch(&self) -> (r: usize)
        ensures
            r == match self {
                PixelBuffer::Xrgb1555(_, p) => *p,
                PixelBuffer::Rgb565(_, p) => *p,
                PixelBuffer::Xrgb8888(_, p) => *p,
            },
    {
        match self {
            PixelBuffer::Xrgb1555(_, pitch) => *pitch,
            PixelBuffer::Rgb565(_, pitch) => *pitch,
            PixelBuffer::Xrgb8888(_, pitch) => *pitch,
        }
    }
}

/// The 24-bit RGB colour of each of the 64 palette indices.
pub open spec fn xrgb8888(index: u8) -> u32 {
    match index {
        0 => 0x666666,
        1 => 0x002A88,
        2 => 0x1412A7,
        3 => 0x3B00A4,
        4 => 0x5C007E,
        5 => 0x6E0040,
        6 => 0x6C0600,
        7 => 0x561D00,
        8 => 0x333500,
        9 => 0x0B4800,
        10 => 0x005200,
        11 => 0x004F08,
        12 => 0x00404D,
        16 => 0xADADAD,
        17 => 0x155FD9,
        18 => 0x4240FF,
        19 => 0x7527FE,
        20 => 0xA01ACC,
        21 => 0xB71E7B,
        22 => 0xB53120,
        23 => 0x994E00,
        24 => 0x6B6D00,
        25 => 0x388700,
        26 => 0x0C9300,
        27 => 0x008F32,
        28 => 0x007C8D,
        32 => 0xFFFEFF,
        33 => 0x64B0FF,
        34 => 0x9290FF,
        35 => 0xC676FF,
        36 => 0xF36AFF,
        37 => 0xFE6ECC,
        38 => 0xFE8170,
        39 => 0xEA9E22,
        40 => 0xBCBE00,
        41 => 0x88D800,
        42 => 0x5CE430,
        43 => 0x45E082,
        44 => 0x48CDDE,
        45 => 0x4F4F4F,
        48 => 0xFFFEFF,
        49 => 0xC0DFFF,
        50 => 0xD3D2FF,
        51 => 0xE8C8FF,
        52 => 0xFBC2FF,
        53 => 0xFEC4EA,
        54 => 0xFECCC5,
        55 => 0xF7D8A5,
        56 => 0xE4E594,
        57 => 0xCFEF96,
        58 => 0xBDF4AB,
        59 => 0xB3F3CC,
        60 => 0xB5EBF2,
        61 => 0xB8B8B8,
        _ => 0,
    }
}

pub fn xrgb8888_color(index: u8) -> (r: u32)
    ensures
        r == xrgb8888(index),
{
    match index {
        0 => 0x666666,
        1 => 0x002A88,
        2 => 0x1412A7,
        3 => 0x3B00A4,
        4 => 0x5C007E,
        5 => 0x6E0040,
        6 => 0x6C0600,
        7 => 0x561D00,
        8 => 0x333500,
        9 => 0x0B4800,
        10 => 0x005200,
        11 => 0x004F08,
        12 => 0x00404D,
        16 => 0xADADAD,
        17 => 0x155FD9,
        18 => 0x4240FF,
        19 => 0x7527FE,
        20 => 0xA01ACC,
        21 => 0xB71E7B,
        22 => 0xB53120,
        23 => 0x994E00,
        24 => 0x6B6D00,
        25 => 0x388700,
        26 => 0x0C9300,
        27 => 0x008F32,
        28 => 0x007C8D,
        32 => 0xFFFEFF,
        33 => 0x64B0FF,
        34 => 0x9290FF,
        35 => 0xC676FF,
        36 => 0xF36AFF,
        37 => 0xFE6ECC,
        38 => 0xFE8170,
        39 => 0xEA9E22,
        40 => 0xBCBE00,
        41 => 0x88D800,
        42 => 0x5CE430,
        43 => 0x45E082,
        44 => 0x48CDDE,
        45 => 0x4F4F4F,
        48 => 0xFFFEFF,
        49 => 0xC0DFFF,
        50 => 0xD3D2FF,
        51 => 0xE8C8FF,
        52 => 0xFBC2FF,
        53 => 0xFEC4EA,
        54 => 0xFECCC5,
        55 => 0xF7D8A5,
        56 => 0xE4E594,
        57 => 0xCFEF96,
        58 => 0xBDF4AB,
        59 => 0xB3F3CC,
        60 => 0xB5EBF2,
        61 => 0xB8B8B8,
        _ => 0,
    }
}

/// Five bits each of red, green and blue from the top of each 8-bit channel.
pub open spec fn xrgb1555_of(c: u32) -> u16 {
    let r = ((c >> 19u32) & 0x1F) as u16;
    let g = ((c >> 11u32) & 0x1F) as u16;
    let b = ((c >> 3u32) & 0x1F) as u16;
    (r << 10u16) | (g << 5u16) | b
}

/// Five bits of red, six of green and five of blue.
pub open spec fn rgb565_of(c: u32) -> u16 {
    let r = ((c >> 19u32) & 0x1F) as u16;
    let g = ((c >> 10u32) & 0x3F) as u16;
    let b = ((c >> 3u32) & 0x1F) as u16;
    (r << 11u16) | (g << 5u16) | b
}

pub fn to_xrgb1555(c: u32) -> (r: u16)
    ensures
        r == xrgb1555_of(c),
{
    let r = ((c >> 19u32) & 0x1F) as u16;
    let g = ((c >> 11u32) & 0x1F) as u16;
    let b = ((c >> 3u32) & 0x1F) as u16;
    (r << 10u16) | (g << 5u16) | b
}

pub fn to_rgb565(c: u32) -> (r: u16)
    ensures
        r == rgb565_of(c),
{
    let r = ((c >> 19u32) & 0x1F) as u16;
    let g = ((c >> 10u32) & 0x3F) as u16;
    let b = ((c >> 3u32) & 0x1F) as u16;
    (r << 11u16) | (g << 5u16) | b
}

/// A frame of palette indices is no longer than the sink and uses six bits per pixel.
pub open spec fn frame_fits(frame: Seq<u8>, len: int) -> bool {
    &&& frame.len() <= len
    &&& forall|i: int| 0 <= i < frame.len() ==> frame[i] < 64
}

/// Receives finished frames of palette indices and converts them to host pixels.
pub trait VideoSink {
    /// The host pixels held, widened to 32 bits.
    spec fn pixels(&self) -> Seq<u32>;

    spec fn populated(&self) -> bool;

    /// The host pixel of a palette index.
    spec fn color(index: u8) -> u32;

    spec fn bytes_per_pixel() -> usize;

    fn append(&mut self, frame_buffer: &[u8])
        requires
            frame_fits(frame_buffer@, old(self).pixels().len() as int),
        ensures
            final(self).populated(),
            final(self).pixels().len() == old(self).pixels().len(),
            forall|i: int| 0 <= i < frame_buffer@.len() ==> final(self).pixels()[i] == Self::color(#[trigger] frame_buffer@[i]),
            forall|i: int| frame_buffer@.len() <= i < old(self).pixels().len() ==> final(self).pixels()[i] == old(self).pixels()[i],
    ;

    fn is_populated(&self) -> (r: bool)
        ensures
            r == self.populated(),
    ;

    fn pixel_size(&self) -> (r: usize)
        ensures
            r == Self::bytes_per_pixel(),
    ;
}

/// Converts frames to 16-bit RGB565 pixels.
pub struct Rgb565VideoSink<'a> {
    buffer: &'a mut [u16],
    is_populated: bool,
}

impl<'a> Rgb565VideoSink<'a> {
    pub fn new(buffer: &'a mut [u16]) -> (r: Rgb565VideoSink<'a>)
        ensures
            r.pixels() == old(buffer)@.map_values(|v: u16| v as u32),
            !r.populated(),
    {
        Rgb565VideoSink { buffer, is_populated: false }
    }

}

impl<'a> VideoSink for Rgb565VideoSink<'a> {
    closed spec fn pixels(&self) -> Seq<u32> {
        self.buffer@.map_values(|v: u16| v as u32)
    }

    closed spec fn populated(&self) -> bool {
        self.is_populated
    }

    open spec fn color(index: u8) -> u32 {
        rgb565_of(xrgb8888(index)) as u32
    }

    open spec fn bytes_per_pixel() -> usize {
        2
    }

    fn append(&mut self, frame_buffer: &[u8]) {
        let mut i: usize = 0;
        while i < frame_buffer.len()
            invariant
                0 <= i <= frame_buffer@.len(),
                frame_fits(frame_buffer@, old(self).buffer@.len() as int),
                self.buffer@.len() == old(self).buffer@.len(),
                forall|j: int| 0 <= j < i ==> self.buffer@[j] as u32 == Self::color(#[trigger] frame_buffer@[j]),
                forall|j: int| i <= j < self.buffer@.len() ==> self.buffer@[j] == old(self).buffer@[j],
            decreases frame_buffer@.len() - i,
        {
            let c = to_rgb565(xrgb8888_color(frame_buffer[i]));
            self.buffer[i] = c;
            i = i + 1;
        }
        self.is_populated = true;
    }

    fn is_populated(&self) -> (r: bool) {
        self.is_populated
    }

    fn pixel_size(&self) -> (r: usize) {
        2
    }
}

/// Converts frames to 16-bit XRGB1555 pixels.
pub struct Xrgb1555VideoSink<'a> {
    buffer: &'a mut [u16],
    is_populated: bool,
}

impl<'a> Xrgb1555VideoSink<'a> {
    pub fn new(buffer: &'a mut [u16]) -> (r: Xrgb1555VideoSink<'a>)
        ensures
            r.pixels() == old(buffer)@.map_values(|v: u16| v as u32),
            !r.populated(),
    {
        Xrgb1555VideoSink { buffer, is_populated: false }
    }

}

impl<'a> VideoSink for Xrgb1555VideoSink<'a> {
    closed spec fn pixels(&self) -> Seq<u32> {
        self.buffer@.map_values(|v: u16| v as u32)
    }

    closed spec fn populated(&self) -> bool {
        self.is_populated
    }

    open spec fn color(index: u8) -> u32 {
        xrgb1555_of(xrgb8888(index)) as u32
    }

    open spec fn bytes_per_pixel() -> usize {
        2
    }

    fn append(&mut self, frame_buffer: &[u8]) {
        let mut i: usize = 0;
        while i < frame_buffer.len()
            invariant
                0 <= i <= frame_buffer@.len(),
                frame_fits(frame_buffer@, old(self).buffer@.len() as int),
                self.buffer@.len() == old(self).buffer@.len(),
                forall|j: int| 0 <= j < i ==> self.buffer@[j] as u32 == Self::color(#[trigger] frame_buffer@[j]),
                forall|j: int| i <= j < self.buffer@.len() ==> self.buffer@[j] == old(self).buffer@[j],
            decreases frame_buffer@.len() - i,
        {
            let c = to_xrgb1555(xrgb8888_color(frame_buffer[i]));
            self.buffer[i] = c;
            i = i + 1;
        }
        self.is_populated = true;
    }

    fn is_populated(&self) -> (r: bool) {
        self.is_populated
    }

    fn pixel_size(&self) -> (r: usize) {
        2
    }
}

/// Converts frames to 32-bit XRGB8888 pixels.
pub struct Xrgb8888VideoSink<'a> {
    buffer: &'a mut [u32],
    is_populated: bool,
}

impl<'a> Xrgb8888VideoSink<'a> {
    pub fn new(buffer: &'a mut [u32]) -> (r: Xrgb8888VideoSink<'a>)
        ensures
            r.pixels() == old(buffer)@.map_values(|v: u32| v),
            !r.populated(),
    {
        Xrgb8888VideoSink { buffer, is_populated: false }
    }

}

impl<'a> VideoSink for Xrgb8888VideoSink<'a> {
    closed spec fn pixels(&self) -> Seq<u32> {
        self.buffer@.map_values(|v: u32| v)
    }

    closed spec fn populated(&self) -> bool {
        self.is_populated
    }

    open spec fn color(index: u8) -> u32 {
        xrgb8888(index) as u32
    }

    open spec fn bytes_per_pixel() -> usize {
        4
    }

    fn append(&mut self, frame_buffer: &[u8]) {
        let mut i: usize = 0;
        while i < frame_buffer.len()
            invariant
                0 <= i <= frame_buffer@.len(),
                frame_fits(frame_buffer@, old(self).buffer@.len() as int),
                self.buffer@.len() == old(self).buffer@.len(),
                forall|j: int| 0 <= j < i ==> self.buffer@[j] as u32 == Self::color(#[trigger] frame_buffer@[j]),
                forall|j: int| i <= j < self.buffer@.len() ==> self.buffer@[j] == old(self).buffer@[j],
            decreases frame_buffer@.len() - i,
        {
            let c = xrgb8888_color(frame_buffer[i]);
            self.buffer[i] = c;
            i = i + 1;
        }
        self.is_populated = true;
    }

    fn is_populated(&self) -> (r: bool) {
        self.is_populated
    }

    fn pixel_size(&self) -> (r: usize) {
        4
    }
}

} // verus!
