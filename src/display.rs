use bitvec::array::BitArray;
use vstd::prelude::*;

verus! {

/// Width of the framebuffer in pixels.
pub const DISPLAY_WIDTH: usize = 64;

/// Height of the framebuffer in pixels.
pub const DISPLAY_HEIGHT: usize = 32;

/// Number of pixels of the framebuffer.
pub const DISPLAY_PIXELS: usize = 2048;

/// Packed storage of the framebuffer's bits: 32 words of 64 bits.
#[verifier::external_body]
pub struct PixelBits {
    bits: BitArray<[u64; 32]>,
}

/// The bits held by packed storage, in index order.
pub uninterp spec fn bits_of(b: PixelBits) -> Seq<bool>;

impl PixelBits {
    /// Relies on `BitArray::new`: 32 zero words of 64 bits make 2048 bits,
    /// all unset.
    #[verifier::external_body]
    fn zero() -> (r: PixelBits)
        ensures
            bits_of(r) == Seq::new(DISPLAY_PIXELS as nat, |i: int| false),
    {
        PixelBits { bits: BitArray::new([0u64; 32]) }
    }

    /// Relies on indexing a `BitArray` by position: the bit at `i`.
    #[verifier::external_body]
    fn get(&self, i: usize) -> (r: bool)
        requires
            i < bits_of(*self).len(),
        ensures
            r == bits_of(*self)[i as int],
    {
        self.bits[i]
    }

    /// Relies on `BitSlice::set`: writes the bit at `i`, leaves the others,
    /// and panics only on an index out of bounds.
    #[verifier::external_body]
    fn set(&mut self, i: usize, value: bool)
        requires
            i < bits_of(*old(self)).len(),
        ensures
            bits_of(*final(self)) == bits_of(*old(self)).update(i as int, value),
        no_unwind
    {
        self.bits.set(i, value)
    }
}

/// Whether bit `col` of a sprite row is set, counting from the most
/// significant bit.
pub open spec fn sprite_bit(byte: u8, col: int) -> bool {
    byte & (1u8 << (7 - col) as u8) != 0
}

/// How many columns to the right of `x` pixel `i` stands, wrapping at the
/// display's width.
pub open spec fn col_offset(x: u8, i: int) -> int {
    ((i % 64) - (x as int % 64) + 64) % 64
}

/// Whether the first `cols` columns of sprite row `row`, drawn at `(x, y)`,
/// flip pixel `i`.
pub open spec fn row_hits_upto(x: u8, y: u8, byte: u8, row: int, cols: int, i: int) -> bool {
    &&& (y as int + row) % 32 == i / 64
    &&& col_offset(x, i) < cols
    &&& sprite_bit(byte, col_offset(x, i))
}

/// Whether sprite row `row`, drawn at `(x, y)`, flips pixel `i`.
pub open spec fn row_hits(x: u8, y: u8, byte: u8, row: int, i: int) -> bool {
    row_hits_upto(x, y, byte, row, 8, i)
}

/// The pixels after XOR-ing the first `cols` columns of one sprite row.
pub open spec fn xor_row_upto(pix: Seq<bool>, x: u8, y: u8, byte: u8, row: int, cols: int) -> Seq<
    bool,
> {
    Seq::new(pix.len(), |i: int| pix[i] != row_hits_upto(x, y, byte, row, cols, i))
}

/// Whether XOR-ing the first `cols` columns of one sprite row clears a set
/// pixel.
pub open spec fn row_collides_upto(
    pix: Seq<bool>,
    x: u8,
    y: u8,
    byte: u8,
    row: int,
    cols: int,
) -> bool {
    exists|i: int| 0 <= i < pix.len() && pix[i] && #[trigger] row_hits_upto(x, y, byte, row, cols, i)
}

/// The pixels after drawing the sprite rows one after another at `(x, y)`,
/// and whether any row cleared a pixel that was set when it was drawn.
pub open spec fn draw(pix: Seq<bool>, x: u8, y: u8, sprite: Seq<u8>) -> (Seq<bool>, bool)
    decreases sprite.len(),
{
    if sprite.len() == 0 {
        (pix, false)
    } else {
        let row = sprite.len() - 1;
        let (before, collided) = draw(pix, x, y, sprite.drop_last());
        (
            xor_row_upto(before, x, y, sprite.last(), row, 8),
            collided || row_collides_upto(before, x, y, sprite.last(), row, 8),
        )
    }
}

/// Whether some row of the sprite, drawn at `(x, y)`, flips pixel `i`.
pub open spec fn covered(x: u8, y: u8, sprite: Seq<u8>, i: int) -> bool {
    exists|r: int| 0 <= r < sprite.len() && #[trigger] row_hits(x, y, sprite[r], r, i)
}

/// A sprite of at most 32 rows touches each pixel at most once, so drawing
/// it XORs its whole mask at once and collides iff the mask meets a set pixel.
proof fn lemma_draw_mask(pix: Seq<bool>, x: u8, y: u8, sprite: Seq<u8>)
    requires
        pix.len() == DISPLAY_PIXELS,
        sprite.len() <= DISPLAY_HEIGHT,
    ensures
        draw(pix, x, y, sprite).0 == Seq::new(pix.len(), |i: int| pix[i] != covered(x, y, sprite, i)),
        draw(pix, x, y, sprite).1 == exists|i: int|
            0 <= i < pix.len() && pix[i] && #[trigger] covered(x, y, sprite, i),
    decreases sprite.len(),
{
    if sprite.len() == 0 {
        assert(draw(pix, x, y, sprite).0 =~= Seq::new(pix.len(), |i: int| pix[i] != covered(x, y, sprite, i)));
    } else {
        let front = sprite.drop_last();
        let row = sprite.len() - 1;
        let last = sprite.last();
        lemma_draw_mask(pix, x, y, front);
        let (before, c0) = draw(pix, x, y, front);
        // rows of the front never reach the pixels of the last row
        assert forall|i: int| 0 <= i < pix.len() implies #[trigger] covered(x, y, sprite, i)
            == (covered(x, y, front, i) || row_hits(x, y, last, row, i))
            && !(covered(x, y, front, i) && row_hits(x, y, last, row, i)) by {
            if covered(x, y, front, i) {
                let r = choose|r: int| 0 <= r < front.len() && #[trigger] row_hits(x, y, front[r], r, i);
                assert(row_hits(x, y, sprite[r], r, i));
            }
            if covered(x, y, sprite, i) {
                let r = choose|r: int| 0 <= r < sprite.len() && #[trigger] row_hits(x, y, sprite[r], r, i);
                if r < row {
                    assert(row_hits(x, y, front[r], r, i));
                }
            }
            if row_hits(x, y, last, row, i) {
                assert(row_hits(x, y, sprite[row], row, i));
            }
        }
        assert(draw(pix, x, y, sprite).0 =~= Seq::new(pix.len(), |i: int| pix[i] != covered(x, y, sprite, i)));
        let c = draw(pix, x, y, sprite).1;
        if c {
            if c0 {
                let i = choose|i: int| 0 <= i < pix.len() && pix[i] && #[trigger] covered(x, y, front, i);
                assert(covered(x, y, sprite, i));
            } else {
                let i = choose|i: int|
                    0 <= i < before.len() && before[i] && #[trigger] row_hits_upto(x, y, last, row, 8, i);
                assert(covered(x, y, sprite, i));
            }
        }
        if exists|i: int| 0 <= i < pix.len() && pix[i] && #[trigger] covered(x, y, sprite, i) {
            let i = choose|i: int| 0 <= i < pix.len() && pix[i] && #[trigger] covered(x, y, sprite, i);
            assert(covered(x, y, sprite, i));
            if !covered(x, y, front, i) {
                assert(row_hits_upto(x, y, last, row, 8, i));
            }
        }
    }
}

/// Drawing a sprite of at most 32 rows reports a collision iff some pixel
/// goes from set to unset.
pub proof fn lemma_collision_iff_cleared(pix: Seq<bool>, x: u8, y: u8, sprite: Seq<u8>)
    requires
        pix.len() == DISPLAY_PIXELS,
        sprite.len() <= DISPLAY_HEIGHT,
    ensures
        draw(pix, x, y, sprite).1 == exists|i: int|
            0 <= i < pix.len() && pix[i] && !(#[trigger] draw(pix, x, y, sprite).0[i]),
{
    lemma_draw_mask(pix, x, y, sprite);
    let after = draw(pix, x, y, sprite).0;
    if draw(pix, x, y, sprite).1 {
        let i = choose|i: int| 0 <= i < pix.len() && pix[i] && #[trigger] covered(x, y, sprite, i);
        assert(!after[i]);
    }
    if exists|i: int| 0 <= i < pix.len() && pix[i] && !(#[trigger] draw(pix, x, y, sprite).0[i]) {
        let i = choose|i: int| 0 <= i < pix.len() && pix[i] && !(#[trigger] draw(pix, x, y, sprite).0[i]);
        assert(covered(x, y, sprite, i));
    }
}

/// Drawing the same sprite of at most 32 rows twice at the same place
/// restores every pixel; the second draw collides iff the first one set
/// some pixel, which it then clears.
pub proof fn lemma_draw_twice(pix: Seq<bool>, x: u8, y: u8, sprite: Seq<u8>)
    requires
        pix.len() == DISPLAY_PIXELS,
        sprite.len() <= DISPLAY_HEIGHT,
    ensures
        draw(draw(pix, x, y, sprite).0, x, y, sprite).0 == pix,
        draw(draw(pix, x, y, sprite).0, x, y, sprite).1 == exists|i: int|
            0 <= i < pix.len() && !pix[i] && #[trigger] draw(pix, x, y, sprite).0[i],
{
    let once = draw(pix, x, y, sprite).0;
    lemma_draw_mask(pix, x, y, sprite);
    lemma_draw_mask(once, x, y, sprite);
    assert(draw(once, x, y, sprite).0 =~= pix);
    if draw(once, x, y, sprite).1 {
        let i = choose|i: int| 0 <= i < once.len() && once[i] && #[trigger] covered(x, y, sprite, i);
        assert(!pix[i] && once[i]);
    }
    if exists|i: int| 0 <= i < pix.len() && !pix[i] && #[trigger] draw(pix, x, y, sprite).0[i] {
        let i = choose|i: int| 0 <= i < pix.len() && !pix[i] && #[trigger] draw(pix, x, y, sprite).0[i];
        assert(covered(x, y, sprite, i));
    }
}

/// The 64x32 one-bit framebuffer. Pixel `(px, py)` has index `py * 64 + px`.
pub struct Display {
    buffer: PixelBits,
}

impl View for Display {
    type V = Seq<bool>;

    closed spec fn view(&self) -> Seq<bool> {
        bits_of(self.buffer)
    }
}

impl Default for Display {
    fn default() -> (r: Display)
        ensures
            r@ == Seq::new(DISPLAY_PIXELS as nat, |i: int| false),
    {
        Display { buffer: PixelBits::zero() }
    }
}

impl Display {
    /// The framebuffer holds exactly one bit per pixel.
    #[verifier::type_invariant]
    pub closed spec fn inv(&self) -> bool {
        bits_of(self.buffer).len() == DISPLAY_PIXELS
    }

    /// Unsets every pixel.
    pub fn clear(&mut self)
        ensures
            final(self)@ == Seq::new(DISPLAY_PIXELS as nat, |i: int| false),
    {
        self.buffer = PixelBits::zero();
    }

    /// XORs `bit` into pixel `i`; true iff that cleared a set pixel.
    fn set_pixel(&mut self, i: usize, bit: bool) -> (r: bool)
        ensures
            i < DISPLAY_PIXELS ==> final(self)@ == old(self)@.update(i as int, old(self)@[i as int] != bit),
            i >= DISPLAY_PIXELS ==> final(self)@ == old(self)@,
            r == (i < DISPLAY_PIXELS && old(self)@[i as int] && bit),
    {
        proof {
            use_type_invariant(&*self);
        }
        if i >= DISPLAY_PIXELS {
            return false;
        }
        let prev = self.buffer.get(i);
        let new = prev != bit;
        self.buffer.set(i, new);
        prev && !new
    }

    /// Draws a sprite, one byte per row, at `(x, y)`: every set bit flips its
    /// pixel, wrapping at the edges. True iff some row cleared a set pixel.
    pub fn draw_sprite(&mut self, x: u8, y: u8, sprite: &[u8]) -> (collision: bool)
        ensures
            (final(self)@, collision) == draw(old(self)@, x, y, sprite@),
    {
        proof {
            use_type_invariant(&*self);
        }
        let mut collision = false;
        let mut row: usize = 0;
        while row < sprite.len()
            invariant
                self@.len() == DISPLAY_PIXELS,
                row <= sprite@.len(),
                (self@, collision) == draw(old(self)@, x, y, sprite@.subrange(0, row as int)),
            decreases sprite@.len() - row,
        {
            let ghost before = self@;
            let ghost collided = collision;
            let byte = sprite[row];
            let py = (y as usize % DISPLAY_HEIGHT + row % DISPLAY_HEIGHT) % DISPLAY_HEIGHT;
            let mut col: usize = 0;
            while col < 8
                invariant
                    before.len() == DISPLAY_PIXELS,
                    row < sprite@.len(),
                    byte == sprite@[row as int],
                    py == (y as int + row) % 32,
                    col <= 8,
                    self@ == xor_row_upto(before, x, y, byte, row as int, col as int),
                    collision == (collided || row_collides_upto(before, x, y, byte, row as int, col as int)),
                decreases 8 - col,
            {
                let px = (x as usize + col) % DISPLAY_WIDTH;
                let bit = byte & (1u8 << (7 - col) as u8) != 0;
                let i = py * DISPLAY_WIDTH + px;
                proof {
                    assert(i / 64 == py && i % 64 == px);
                    assert(col_offset(x, i as int) == col);
                    assert(!row_hits_upto(x, y, byte, row as int, col as int, i as int));
                    assert(self@[i as int] == before[i as int]);
                }
                let cleared = self.set_pixel(i, bit);
                collision = collision || cleared;
                proof {
                    assert forall|j: int| 0 <= j < DISPLAY_PIXELS implies
                        #[trigger] row_hits_upto(x, y, byte, row as int, col + 1, j)
                        == (row_hits_upto(x, y, byte, row as int, col as int, j) || (j == i && bit)) by {
                        if j != i && (y as int + row) % 32 == j / 64 {
                            assert(col_offset(x, j) != col);
                        }
                    }
                    assert(self@ =~= xor_row_upto(before, x, y, byte, row as int, col + 1));
                    if cleared {
                        assert(before[i as int] && row_hits_upto(x, y, byte, row as int, col + 1, i as int));
                    }
                    if row_collides_upto(before, x, y, byte, row as int, col as int) {
                        let j = choose|j: int|
                            0 <= j < before.len() && before[j]
                                && #[trigger] row_hits_upto(x, y, byte, row as int, col as int, j);
                        assert(row_hits_upto(x, y, byte, row as int, col + 1, j));
                    }
                    if row_collides_upto(before, x, y, byte, row as int, col + 1) {
                        let j = choose|j: int|
                            0 <= j < before.len() && before[j]
                                && #[trigger] row_hits_upto(x, y, byte, row as int, col + 1, j);
                        if j != i {
                            assert(row_hits_upto(x, y, byte, row as int, col as int, j));
                        }
                    }
                }
                col += 1;
            }
            proof {
                let s = sprite@.subrange(0, row + 1);
                assert(s.drop_last() =~= sprite@.subrange(0, row as int));
            }
            row += 1;
        }
        assert(sprite@.subrange(0, sprite@.len() as int) =~= sprite@);
        collision
    }

    pub fn get_dimensions(&self) -> (r: (usize, usize))
        ensures
            r == (DISPLAY_WIDTH, DISPLAY_HEIGHT),
    {
        (DISPLAY_WIDTH, DISPLAY_HEIGHT)
    }

    /// Every pixel, row after row.
    pub fn get_pixels(&self) -> (r: Vec<bool>)
        ensures
            r@ == self@,
    {
        proof {
            use_type_invariant(self);
        }
        let mut r: Vec<bool> = Vec::new();
        let mut i: usize = 0;
        while i < DISPLAY_PIXELS
            invariant
                self@.len() == DISPLAY_PIXELS,
                i <= DISPLAY_PIXELS,
                r@ == self@.subrange(0, i as int),
            decreases DISPLAY_PIXELS - i,
        {
            r.push(self.buffer.get(i));
            i += 1;
            assert(r@ =~= self@.subrange(0, i as int));
        }
        assert(self@.subrange(0, DISPLAY_PIXELS as int) =~= self@);
        r
    }
}

} // verus!
