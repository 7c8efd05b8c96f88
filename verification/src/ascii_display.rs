use vstd::prelude::*;
use crate::display::{col_bit, sprite_mask, Display};

verus! {

/// A text renderer over the framebuffer: every pixel becomes one
/// character, `'@'` when lit and `'-'` when dark.
///
/// Turning rows into characters is pure computation and lives here; the
/// host prints the rows it gets back.
pub struct AsciiDisplay {
    pub disp: Display,
}

/// One framebuffer row as 64 characters, one per pixel from column 0 to
/// column 63: `'@'` when lit, `'-'` when dark.
pub fn row_to_chars(row: u64) -> (cs: Vec<char>)
    ensures
        cs@.len() == 64,
        forall|c: u64|
            c < 64 ==> cs@[c as int] == (if col_bit(row, c) {
                '@'
            } else {
                '-'
            }),
{
    let mut cs: Vec<char> = Vec::new();
    let mut c: u64 = 0;
    while c < 64
        invariant
            c <= 64,
            cs@.len() == c,
            forall|t: u64|
                t < c ==> cs@[t as int] == (if col_bit(row, t) {
                    '@'
                } else {
                    '-'
                }),
        decreases 64 - c,
    {
        let ch: char = if (row >> (63 - c)) & 1 == 1 {
            '@'
        } else {
            '-'
        };
        cs.push(ch);
        c = c + 1;
    }
    cs
}

impl AsciiDisplay {
    /// The underlying framebuffer has its fixed dimensions.
    pub open spec fn wf(&self) -> bool {
        self.disp.wf()
    }

    /// A text renderer over a blank screen.
    pub fn new() -> (r: AsciiDisplay)
        ensures
            r.wf(),
            forall|k: int| 0 <= k < 32 ==> r.disp.tab@[k] == 0u64,
    {
        AsciiDisplay { disp: Display::new() }
    }

    /// Set all the pixels to 0.
    pub fn clear(&mut self)
        requires
            old(self).wf(),
        ensures
            final(self).wf(),
            forall|k: int| 0 <= k < 32 ==> final(self).disp.tab@[k] == 0u64,
    {
        self.disp.clear();
    }

    /// XOR one sprite row into screen row `y`, its most significant bit
    /// at column `x`.
    pub fn draw_sprite(&mut self, x: u8, y: u8, byte: u8)
        requires
            old(self).wf(),
            x < 64,
            y < 32,
        ensures
            final(self).wf(),
            final(self).disp.tab@ == old(self).disp.tab@.update(
                y as int,
                old(self).disp.tab@[y as int] ^ sprite_mask(x, byte),
            ),
    {
        self.disp.draw_sprite(x, y, byte);
    }

    /// Screen row `r` as 64 characters, one per pixel from column 0 to
    /// column 63.
    pub fn row_chars(&self, r: usize) -> (cs: Vec<char>)
        requires
            self.wf(),
            r < 32,
        ensures
            cs@.len() == 64,
            forall|c: u64|
                c < 64 ==> cs@[c as int] == (if col_bit(self.disp.tab@[r as int], c) {
                    '@'
                } else {
                    '-'
                }),
    {
        row_to_chars(self.disp.tab[r])
    }
}

} // verus!
