use vstd::prelude::*;

verus! {

/// One 16-bit big-endian instruction word, split into its fixed bit fields.
///
/// No validation happens here: every field is a pure bit extraction from
/// `full`, and dispatch on the fields is left to the execution engine.
#[derive(Clone, Copy, Debug)]
pub struct ChipInst {
    /// Bits 12-15: the opcode family.
    pub i: u8,
    /// Bits 8-11: first operand register index.
    pub x: u8,
    /// Bits 4-7: second operand register index.
    pub y: u8,
    /// Bits 0-3: small immediate.
    pub n: u8,
    /// Bits 0-7: byte immediate.
    pub nn: u8,
    /// Bits 0-11: address / wide immediate.
    pub nnn: u16,
    /// The raw instruction word.
    pub full: u16,
}

/// Bits 12-15 of an instruction word.
pub open spec fn op_of(w: u16) -> u16 {
    (w >> 12) & 0xF
}

/// Bits 8-11 of an instruction word.
pub open spec fn x_of(w: u16) -> u16 {
    (w >> 8) & 0xF
}

/// Bits 4-7 of an instruction word.
pub open spec fn y_of(w: u16) -> u16 {
    (w >> 4) & 0xF
}

/// Bits 0-3 of an instruction word.
pub open spec fn n_of(w: u16) -> u16 {
    w & 0xF
}

/// Bits 0-7 of an instruction word.
pub open spec fn nn_of(w: u16) -> u16 {
    w & 0xFF
}

/// Bits 0-11 of an instruction word.
pub open spec fn nnn_of(w: u16) -> u16 {
    w & 0xFFF
}

impl ChipInst {
    /// Every field agrees with the corresponding bit range of `full`.
    pub open spec fn wf(self) -> bool {
        &&& self.i == op_of(self.full)
        &&& self.x == x_of(self.full)
        &&& self.y == y_of(self.full)
        &&& self.n == n_of(self.full)
        &&& self.nn == nn_of(self.full)
        &&& self.nnn == nnn_of(self.full)
    }

    /// Decode a word into its fields.
    pub fn new(w: u16) -> (r: ChipInst)
        ensures
            r.wf(),
            r.full == w,
    {
        proof {
            lemma_field_bounds(w);
        }
        ChipInst {
            i: ((w & 0xF000) >> 12) as u8,
            x: ((w & 0x0F00) >> 8) as u8,
            y: ((w & 0x00F0) >> 4) as u8,
            n: (w & 0x000F) as u8,
            nn: (w & 0x00FF) as u8,
            nnn: w & 0x0FFF,
            full: w,
        }
    }
}

/// The bit fields of a word lie in their ranges, and the masked-then-shifted
/// extractions equal the shifted-then-masked ones.
pub proof fn lemma_field_bounds(w: u16)
    ensures
        op_of(w) < 16,
        x_of(w) < 16,
        y_of(w) < 16,
        n_of(w) < 16,
        nn_of(w) < 256,
        nnn_of(w) < 4096,
        (w & 0xF000) >> 12 == op_of(w),
        (w & 0x0F00) >> 8 == x_of(w),
        (w & 0x00F0) >> 4 == y_of(w),
        w & 0x000F == n_of(w),
        w & 0x00FF == nn_of(w),
        w & 0x0FFF == nnn_of(w),
{
    assert((w >> 12) & 0xF < 16 && (w >> 8) & 0xF < 16 && (w >> 4) & 0xF < 16 && w & 0xF < 16
        && w & 0xFF < 256 && w & 0xFFF < 4096 && (w & 0xF000) >> 12 == (w >> 12) & 0xF
        && (w & 0x0F00) >> 8 == (w >> 8) & 0xF && (w & 0x00F0) >> 4 == (w >> 4) & 0xF) by (bit_vector);
}

} // verus!
