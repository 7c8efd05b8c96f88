use vstd::prelude::*;
use crate::util::filled;

verus! {

/// A 64x32 monochrome framebuffer.
///
/// The screen is only 64 pixels wide, so one `u64` holds a whole row: the
/// most significant bit of `tab[y]` is the pixel at column 0 of row `y`.
#[derive(Debug)]
pub struct Display {
    pub tab: Vec<u64>,
}

/// The pixel of `row` at column `col`, counted from the left.
pub open spec fn col_bit(row: u64, col: u64) -> bool {
    (row >> (63 - col) as u64) & 1 == 1
}

/// The 64-bit row mask of an 8-bit sprite row placed with its most
/// significant bit at column `x`.  When the byte would reach past column
/// 63 the overflowing low bits are shifted out and lost; they do not wrap
/// to column 0.
pub open spec fn sprite_mask(x: u8, b: u8) -> u64 {
    if x > 56 {
        (b as u64) >> ((x - 56) as u64)
    } else {
        (b as u64) << ((56 - x) as u64)
    }
}

/// A sprite row placed at column `x` carries no bit outside the columns
/// `x..x+8`: everything that would lie past the right edge is dropped.
pub proof fn lemma_sprite_mask_cols(x: u8, b: u8, col: u64)
    requires
        x < 64,
        col < 64,
        col < x || col >= x + 8,
    ensures
        !col_bit(sprite_mask(x, b), col),
{
    assert(!((if x > 56 {
        (b as u64) >> ((x - 56) as u64)
    } else {
        (b as u64) << ((56 - x) as u64)
    } >> (63 - col) as u64) & 1 == 1)) by (bit_vector)
        requires
            x < 64,
            col < 64,
            col < x || col >= x + 8,
    ;
}

/// XOR-ing a mask into a row leaves every column clear in the mask alone.
pub proof fn lemma_xor_keeps_cols(row: u64, m: u64, col: u64)
    requires
        col < 64,
        !col_bit(m, col),
    ensures
        col_bit(row ^ m, col) == col_bit(row, col),
{
    assert(((m >> (63 - col) as u64) & 1 != 1) ==> (((row ^ m) >> (63 - col) as u64) & 1 == 1)
        == ((row >> (63 - col) as u64) & 1 == 1)) by (bit_vector);
}

impl Display {
    /// Exactly one word per screen row.
    pub open spec fn wf(&self) -> bool {
        self.tab@.len() == 32
    }

    /// A blank screen.
    pub fn new() -> (r: Display)
        ensures
            r.wf(),
            forall|k: int| 0 <= k < 32 ==> r.tab@[k] == 0u64,
    {
        Display { tab: filled(0u64, 32) }
    }

    /// Set all the pixels to 0.
    pub fn clear(&mut self)
        requires
            old(self).wf(),
        ensures
            final(self).wf(),
            forall|k: int| 0 <= k < 32 ==> final(self).tab@[k] == 0u64,
    {
        self.tab = filled(0u64, 32);
    }

    /// XOR one sprite row into screen row `y`, its most significant bit at
    /// column `x`.  Bits that would land past column 63 are dropped.
    pub fn draw_sprite(&mut self, x: u8, y: u8, byte: u8)
        requires
            old(self).wf(),
            x < 64,
            y < 32,
        ensures
            final(self).wf(),
            final(self).tab@ == old(self).tab@.update(
                y as int,
                old(self).tab@[y as int] ^ sprite_mask(x, byte),
            ),
    {
        let val: u64 = self.tab[y as usize];
        let mask: u64 = if x > 56 {
            (byte as u64) >> ((x - 56) as u64)
        } else {
            (byte as u64) << ((56 - x) as u64)
        };
        self.tab.set(y as usize, val ^ mask);
    }
}

} // verus!
