use vstd::prelude::*;
use vstd::arithmetic::div_mod::{
    lemma_mod_sub_multiples_vanish, lemma_small_mod,
};
use crate::config::{cfg_valid, ChipCfg};
use crate::display::{col_bit, lemma_sprite_mask_cols, lemma_xor_keeps_cols, sprite_mask};
use crate::instruction::{lemma_field_bounds, n_of, nn_of, nnn_of, op_of, x_of, y_of};
use crate::model::{add8, step, Core};

verus! {

/// Wrapping 8-bit addition is addition modulo 256.
pub proof fn lemma_add8_is_mod(a: u8, b: u8)
    ensures
        add8(a, b) == (a + b) % 256,
{
    if a + b > 255 {
        lemma_mod_sub_multiples_vanish(a + b, 256);
        lemma_small_mod((a + b - 256) as nat, 256);
    } else {
        lemma_small_mod((a + b) as nat, 256);
    }
}

/// 7XNN sets Vx to (Vx + NN) mod 256 and touches nothing else: every
/// other register keeps its value -- the flag register VF included,
/// whenever it is not Vx itself -- and so does the rest of the machine.
pub proof fn law_add_imm_no_flag(cfg: ChipCfg, s: Core, w: u16, rnd: u8, keys: u16)
    requires
        s.wf(),
        op_of(w) == 7,
    ensures
        step(cfg, s, w, rnd, keys) is Ok,
        ({
            let c = step(cfg, s, w, rnd, keys)->Ok_0;
            &&& c.v[x_of(w) as int] == (s.v[x_of(w) as int] + nn_of(w)) % 256
            &&& forall|k: int| 0 <= k < 16 && k != x_of(w) ==> c.v[k] == s.v[k]
            &&& (x_of(w) != 15 ==> c.v[15] == s.v[15])
            &&& c.pc == s.pc && c.i == s.i && c.dt == s.dt && c.st == s.st && c.sp == s.sp
            &&& c.stack == s.stack && c.mem == s.mem && c.fb == s.fb
        }),
{
    lemma_field_bounds(w);
    lemma_add8_is_mod(s.v[x_of(w) as int], nn_of(w) as u8);
}

/// 8XY4 reports carry in VF: 1 exactly when the nine-bit sum of the old
/// Vx and Vy exceeds 255.  8XY5 reports borrow in VF: 0 exactly when the
/// old Vy exceeds the old Vx.  Both flags depend only on the values the
/// registers held before the instruction, so aliasing the operands
/// (x == y, or either being 0xF) cannot change them.
pub proof fn law_carry_borrow_flags(cfg: ChipCfg, s: Core, w: u16, rnd: u8, keys: u16)
    requires
        s.wf(),
        op_of(w) == 8,
        n_of(w) == 4 || n_of(w) == 5,
    ensures
        step(cfg, s, w, rnd, keys) is Ok,
        ({
            let c = step(cfg, s, w, rnd, keys)->Ok_0;
            &&& n_of(w) == 4 ==> (c.v[15] == 1u8 <==> s.v[x_of(w) as int] + s.v[y_of(w) as int]
                > 255)
            &&& n_of(w) == 5 ==> (c.v[15] == 0u8 <==> s.v[y_of(w) as int] > s.v[x_of(w) as int])
            &&& c.v[15] == 0u8 || c.v[15] == 1u8
        }),
{
    lemma_field_bounds(w);
}

/// The shift instructions read the source register Vy (the variant this
/// machine implements): for every value of Vy, 8XY6 leaves the
/// shifted-out low bit of the old Vy in VF and 8XYE the shifted-out high
/// bit, whatever registers x and y name.
pub proof fn law_shift_out_bit(cfg: ChipCfg, s: Core, w: u16, rnd: u8, keys: u16)
    requires
        s.wf(),
        op_of(w) == 8,
        n_of(w) == 6 || n_of(w) == 14,
    ensures
        step(cfg, s, w, rnd, keys) is Ok,
        ({
            let c = step(cfg, s, w, rnd, keys)->Ok_0;
            &&& n_of(w) == 6 ==> c.v[15] == s.v[y_of(w) as int] & 1
            &&& n_of(w) == 14 ==> c.v[15] == s.v[y_of(w) as int] >> 7
        }),
{
    lemma_field_bounds(w);
}

/// A successful sprite draw never touches a row outside the 32-row
/// screen -- rows that would fall at or beyond row 32 are skipped and
/// every row outside the drawn span keeps all its pixels -- and never
/// touches a column outside `vx..vx+8`: bits that would fall past
/// column 63 are dropped, not wrapped around to column 0.
pub proof fn law_draw_clips(cfg: ChipCfg, s: Core, w: u16, rnd: u8, keys: u16)
    requires
        s.wf(),
        op_of(w) == 13,
        step(cfg, s, w, rnd, keys) is Ok,
    ensures
        ({
            let c = step(cfg, s, w, rnd, keys)->Ok_0;
            let vx = (s.v[x_of(w) as int] % 64) as u8;
            let vy = (s.v[y_of(w) as int] % 32) as u8;
            let rows = vstd::math::min(n_of(w) as int, 32 - vy);
            &&& c.fb.len() == 32
            &&& forall|t: int| 0 <= t < 32 && !(vy <= t < vy + rows) ==> c.fb[t] == s.fb[t]
            &&& forall|t: int, col: u64|
                0 <= t < 32 && col < 64 && (col < vx || col >= vx + 8)
                    ==> #[trigger] col_bit(c.fb[t], col) == col_bit(s.fb[t], col)
        }),
{
    lemma_field_bounds(w);
    let c = step(cfg, s, w, rnd, keys)->Ok_0;
    let vx = (s.v[x_of(w) as int] % 64) as u8;
    let vy = (s.v[y_of(w) as int] % 32) as u8;
    let rows = vstd::math::min(n_of(w) as int, 32 - vy);
    assert forall|t: int, col: u64|
        0 <= t < 32 && col < 64 && (col < vx || col >= vx + 8) implies #[trigger] col_bit(
        c.fb[t],
        col,
    ) == col_bit(s.fb[t], col) by {
        if vy <= t < vy + rows {
            let b = s.mem[s.i + (t - vy)];
            lemma_sprite_mask_cols(vx, b, col);
            lemma_xor_keeps_cols(s.fb[t], sprite_mask(vx, b), col);
        }
    }
}

/// FX29 points the index register at the glyph for the digit in Vx:
/// font start plus five bytes per digit, for every digit 0 through 15.
pub proof fn law_font_digit_address(cfg: ChipCfg, s: Core, w: u16, rnd: u8, keys: u16)
    requires
        s.wf(),
        cfg_valid(cfg),
        op_of(w) == 15,
        nn_of(w) == 0x29,
    ensures
        step(cfg, s, w, rnd, keys) is Ok,
        step(cfg, s, w, rnd, keys)->Ok_0.i == cfg.font_start + 5 * s.v[x_of(w) as int],
{
    lemma_field_bounds(w);
}

/// FX33 splits any byte 0..=255 into its exact decimal digits: the
/// hundreds, tens and units land at the index register and the two
/// bytes after it, each digit is below ten, and together they recompose
/// the byte.
pub proof fn law_bcd_digits(cfg: ChipCfg, s: Core, w: u16, rnd: u8, keys: u16)
    requires
        s.wf(),
        op_of(w) == 15,
        nn_of(w) == 0x33,
        s.i + 2 < 4096,
    ensures
        step(cfg, s, w, rnd, keys) is Ok,
        ({
            let c = step(cfg, s, w, rnd, keys)->Ok_0;
            let b = s.v[x_of(w) as int];
            &&& c.mem[s.i as int] == b / 100
            &&& c.mem[s.i + 1] == (b / 10) % 10
            &&& c.mem[s.i + 2] == b % 10
            &&& c.mem[s.i as int] < 10 && c.mem[s.i + 1] < 10 && c.mem[s.i + 2] < 10
            &&& 100 * c.mem[s.i as int] + 10 * c.mem[s.i + 1] + c.mem[s.i + 2] == b
        }),
{
    lemma_field_bounds(w);
    let b = s.v[x_of(w) as int];
    assert(b / 100 < 10 && (b / 10) % 10 < 10 && b % 10 < 10 && 100 * (b / 100) + 10 * ((b / 10)
        % 10) + b % 10 == b) by (bit_vector);
}

/// Round trip of FX55 then FX65 without the legacy index quirk: storing
/// V0..Vx and loading the same span back into a zeroed register file
/// reproduces V0..Vx exactly, leaves the registers above Vx zero, and
/// moves the index register at neither step.  With the quirk on, the
/// index advances between the two instructions and the span read back
/// differs; that advance is law_store_index_advance.
pub proof fn law_store_load_roundtrip(
    cfg: ChipCfg,
    s: Core,
    w55: u16,
    w65: u16,
    rnd: u8,
    keys: u16,
)
    requires
        s.wf(),
        !cfg.register_save_legacy,
        op_of(w55) == 15,
        nn_of(w55) == 0x55,
        op_of(w65) == 15,
        nn_of(w65) == 0x65,
        x_of(w65) == x_of(w55),
        s.i + x_of(w55) < 4096,
    ensures
        step(cfg, s, w55, rnd, keys) is Ok,
        ({
            let s1 = step(cfg, s, w55, rnd, keys)->Ok_0;
            let s2 = Core { v: Seq::new(16, |k: int| 0u8), ..s1 };
            let done = step(cfg, s2, w65, rnd, keys);
            &&& s1.i == s.i
            &&& done is Ok
            &&& (forall|k: int| 0 <= k <= x_of(w55) ==> done->Ok_0.v[k] == s.v[k])
            &&& (forall|k: int| x_of(w55) < k < 16 ==> done->Ok_0.v[k] == 0)
            &&& done->Ok_0.i == s.i
        }),
{
    lemma_field_bounds(w55);
    lemma_field_bounds(w65);
}

/// FX55 and FX65 advance the index register by x + 1 exactly when the
/// legacy register-save quirk is on; otherwise they leave it unchanged.
pub proof fn law_store_index_advance(cfg: ChipCfg, s: Core, w: u16, rnd: u8, keys: u16)
    requires
        s.wf(),
        op_of(w) == 15,
        nn_of(w) == 0x55 || nn_of(w) == 0x65,
        s.i + x_of(w) < 4096,
    ensures
        step(cfg, s, w, rnd, keys) is Ok,
        step(cfg, s, w, rnd, keys)->Ok_0.i == if cfg.register_save_legacy {
            s.i + x_of(w) + 1
        } else {
            s.i as int
        },
{
    lemma_field_bounds(w);
}

/// BNNN jumps to Vx + NNN in modern mode, where x names the top nibble
/// of NNN, and to V0 + NNN in legacy mode.
pub proof fn law_jump_offset(cfg: ChipCfg, s: Core, w: u16, rnd: u8, keys: u16)
    requires
        s.wf(),
        op_of(w) == 11,
    ensures
        step(cfg, s, w, rnd, keys) is Ok,
        x_of(w) == (nnn_of(w) >> 8) & 0xF,
        !cfg.jump_offset_legacy ==> step(cfg, s, w, rnd, keys)->Ok_0.pc == s.v[x_of(w) as int]
            + nnn_of(w),
        cfg.jump_offset_legacy ==> step(cfg, s, w, rnd, keys)->Ok_0.pc == s.v[0] + nnn_of(w),
{
    lemma_field_bounds(w);
    assert((w >> 8) & 0xF == ((w & 0xFFF) >> 8) & 0xF) by (bit_vector);
}

} // verus!
