use vstd::prelude::*;

verus! {

/// Size of the address space in bytes.
pub const MEM_SIZE: usize = 4096;

/// Address at which the hexadecimal font glyphs are stored.
pub const FONT_SPRITE_ADDR: u16 = 0x100;

/// Address at which a program image is loaded.
pub const PROGRAM_START: u16 = 0x200;

/// The sixteen 5-byte glyphs of the hexadecimal digits 0 to F.
pub open spec fn font_sprites() -> Seq<u8> {
    seq![
        0xF0u8, 0x90, 0x90, 0x90, 0xF0, // 0
        0x20, 0x60, 0x20, 0x20, 0x70, // 1
        0xF0, 0x10, 0xF0, 0x80, 0xF0, // 2
        0xF0, 0x10, 0xF0, 0x10, 0xF0, // 3
        0x90, 0x90, 0xF0, 0x10, 0x10, // 4
        0xF0, 0x80, 0xF0, 0x10, 0xF0, // 5
        0xF0, 0x80, 0xF0, 0x90, 0xF0, // 6
        0xF0, 0x10, 0x20, 0x40, 0x40, // 7
        0xF0, 0x90, 0xF0, 0x90, 0xF0, // 8
        0xF0, 0x90, 0xF0, 0x10, 0xF0, // 9
        0xF0, 0x90, 0xF0, 0x90, 0x90, // A
        0xE0, 0x90, 0xE0, 0x90, 0xE0, // B
        0xF0, 0x80, 0x80, 0x80, 0xF0, // C
        0xE0, 0x90, 0x90, 0x90, 0xE0, // D
        0xF0, 0x80, 0xF0, 0x80, 0xF0, // E
        0xF0, 0x80, 0xF0, 0x80, 0x80, // F
    ]
}

fn font_table() -> (r: [u8; 80])
    ensures
        r@ == font_sprites(),
{
    let r: [u8; 80] = [
        0xF0, 0x90, 0x90, 0x90, 0xF0, 0x20, 0x60, 0x20, 0x20, 0x70, 0xF0, 0x10, 0xF0, 0x80, 0xF0,
        0xF0, 0x10, 0xF0, 0x10, 0xF0, 0x90, 0x90, 0xF0, 0x10, 0x10, 0xF0, 0x80, 0xF0, 0x10, 0xF0,
        0xF0, 0x80, 0xF0, 0x90, 0xF0, 0xF0, 0x10, 0x20, 0x40, 0x40, 0xF0, 0x90, 0xF0, 0x90, 0xF0,
        0xF0, 0x90, 0xF0, 0x10, 0xF0, 0xF0, 0x90, 0xF0, 0x90, 0x90, 0xE0, 0x90, 0xE0, 0x90, 0xE0,
        0xF0, 0x80, 0x80, 0x80, 0xF0, 0xE0, 0x90, 0x90, 0x90, 0xE0, 0xF0, 0x80, 0xF0, 0x80, 0xF0,
        0xF0, 0x80, 0xF0, 0x80, 0x80,
    ];
    assert(r@ =~= font_sprites());
    r
}

/// The address space as loaded with a program image: the font glyphs at their
/// reserved address, the image at the program start, zero elsewhere.
pub open spec fn loaded(rom: Seq<u8>) -> Seq<u8> {
    Seq::new(MEM_SIZE as nat, |i: int| 0u8).update_subrange_with(
        FONT_SPRITE_ADDR as int,
        font_sprites(),
    ).update_subrange_with(PROGRAM_START as int, rom)
}

/// The flat, byte-addressable address space.
pub struct Memory {
    bytes: [u8; 4096],
}

/// The big-endian word formed by two bytes.
pub open spec fn word(hi: u8, lo: u8) -> u16 {
    (hi as int * 256 + lo as int) as u16
}

impl View for Memory {
    type V = Seq<u8>;

    closed spec fn view(&self) -> Seq<u8> {
        self.bytes@
    }
}

impl Default for Memory {
    /// The zeroed address space.
    fn default() -> (r: Memory)
        ensures
            r@ == Seq::new(MEM_SIZE as nat, |i: int| 0u8),
    {
        let r = Memory { bytes: [0u8; 4096] };
        assert(r@ =~= Seq::new(MEM_SIZE as nat, |i: int| 0u8));
        r
    }
}

impl Memory {
    /// The view always covers the whole address space.
    pub broadcast proof fn lemma_len(m: &Memory)
        ensures
            #[trigger] m@.len() == MEM_SIZE,
    {
    }

    /// The big-endian word stored at `addr`.
    pub open spec fn word_at(&self, addr: int) -> u16 {
        word(self@[addr], self@[addr + 1])
    }

    /// Memory holding `buf` at the program start and the font glyphs at
    /// their reserved address, zero elsewhere.
    pub fn init(buf: &[u8]) -> (r: Memory)
        requires
            buf@.len() <= MEM_SIZE - PROGRAM_START as int,
        ensures
            r@ == loaded(buf@),
    {
        let mut m = Memory::default();
        let font = font_table();
        m.write(FONT_SPRITE_ADDR, &font);
        m.write(PROGRAM_START, buf);
        m
    }

    pub fn read_u8(&self, addr: u16) -> (r: u8)
        requires
            addr < MEM_SIZE,
        ensures
            r == self@[addr as int],
    {
        self.bytes[addr as usize]
    }

    pub fn write_u8(&mut self, addr: u16, val: u8)
        requires
            addr < MEM_SIZE,
        ensures
            final(self)@ == old(self)@.update(addr as int, val),
    {
        self.bytes[addr as usize] = val;
    }

    pub fn read_u16(&self, addr: u16) -> (r: u16)
        requires
            addr + 1 < MEM_SIZE,
        ensures
            r == self.word_at(addr as int),
    {
        let hi = self.bytes[addr as usize];
        let lo = self.bytes[(addr + 1) as usize];
        let r = ((hi as u16) << 8) | lo as u16;
        assert(r == word(hi, lo)) by (bit_vector)
            requires
                r == ((hi as u16) << 8) | lo as u16,
        ;
        r
    }

    pub fn write_u16(&mut self, addr: u16, val: u16)
        requires
            addr + 1 < MEM_SIZE,
        ensures
            final(self)@ == old(self)@.update(addr as int, (val / 256) as u8).update(
                addr + 1,
                (val % 256) as u8,
            ),
            final(self).word_at(addr as int) == val,
    {
        self.write_u8(addr, (val >> 8) as u8);
        self.write_u8(addr + 1, val as u8);
        assert((val >> 8) as u8 == (val / 256) as u8 && val as u8 == (val % 256) as u8)
            by (bit_vector);
        assert(word((val >> 8) as u8, val as u8) == val) by (bit_vector);
    }

    pub fn read(&self, addr: u16, len: u16) -> (r: &[u8])
        requires
            addr + len <= MEM_SIZE,
        ensures
            r@ == self@.subrange(addr as int, addr + len),
    {
        let addr = addr as usize;
        let all: &[u8] = self.bytes.as_slice();
        &all[addr..addr + len as usize]
    }

    pub fn write(&mut self, addr: u16, data: &[u8])
        requires
            addr + data@.len() <= MEM_SIZE,
        ensures
            final(self)@ == old(self)@.update_subrange_with(addr as int, data@),
    {
        let start = addr as usize;
        let mut k: usize = 0;
        while k < data.len()
            invariant
                start + data@.len() <= MEM_SIZE,
                self@.len() == MEM_SIZE,
                k <= data@.len(),
                forall|j: int|
                    0 <= j < MEM_SIZE ==> #[trigger] self@[j] == if start <= j < start + k {
                        data@[j - start]
                    } else {
                        old(self)@[j]
                    },
            decreases data@.len() - k,
        {
            self.bytes[start + k] = data[k];
            k += 1;
        }
        assert(self@ =~= old(self)@.update_subrange_with(addr as int, data@));
    }
}

} // verus!
