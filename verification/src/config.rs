use vstd::prelude::*;

verus! {

/// Retro-compatibility options, fixed when the machine is created.
///
/// Each flag selects between two historically divergent behaviours of a
/// single instruction; the defaults pick the modern variant everywhere.
#[derive(Clone, Copy, Debug, PartialEq, Eq, Structural)]
pub struct ChipCfg {
    /// First address of the 80-byte font table.
    pub font_start: u16,
    /// If true, BNNN jumps to NNN + V0; otherwise to NNN + Vx, where x is
    /// the top nibble of NNN.
    pub jump_offset_legacy: bool,
    /// If true, FX55 and FX65 advance the index register by x + 1.
    pub register_save_legacy: bool,
    /// If true, FX1E writes the flag register when the index crosses 0x0FFF.
    pub index_add_carry: bool,
}

/// The font table must fit inside the 4096-byte address space.
pub open spec fn cfg_valid(cfg: ChipCfg) -> bool {
    cfg.font_start + 80 <= 4096
}

impl ChipCfg {
    /// The default configuration: font at 0x050, modern behaviour everywhere.
    pub fn modern() -> (r: ChipCfg)
        ensures
            r.font_start == 0x050,
            !r.jump_offset_legacy,
            !r.register_save_legacy,
            !r.index_add_carry,
            cfg_valid(r),
    {
        ChipCfg {
            font_start: 0x050,
            jump_offset_legacy: false,
            register_save_legacy: false,
            index_add_carry: false,
        }
    }
}

impl Default for ChipCfg {
    fn default() -> (r: ChipCfg)
        ensures
            r.font_start == 0x050,
            !r.jump_offset_legacy,
            !r.register_save_legacy,
            !r.index_add_carry,
            cfg_valid(r),
    {
        ChipCfg::modern()
    }
}

} // verus!
