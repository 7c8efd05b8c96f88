use vstd::prelude::*;
use crate::config::{cfg_valid, ChipCfg};
use crate::display::Display;
use crate::errors::Chip8Error;
use crate::font::{default_font, default_font_seq};
use crate::instruction::ChipInst;
use crate::model::Core;
use crate::util::filled;

verus! {

/// The execution engine: it owns all machine state and applies one
/// decoded instruction at a time.
///
/// The host drives it in a loop: `fetch` one instruction, `execute` it
/// with a fresh key snapshot, and call `update_timers` at its own fixed
/// cadence.  Rendering and sound are outside collaborators: they only read
/// the framebuffer rows and `sound_active`.
#[derive(Debug)]
pub struct Chip8 {
    /// 16-bit index register, used as a memory pointer.  Instructions may
    /// legally push it past 0x0FFF; every memory access through it is
    /// checked at use.
    pub i: u16,
    /// 16-bit program counter.
    pub pc: u16,
    /// 8-bit delay timer.
    pub dt: u8,
    /// 8-bit sound timer.
    pub st: u8,
    /// Stack pointer: the number of return addresses currently pushed.
    pub sp: u8,
    /// 16 multi-purpose 8-bit registers.  Register 0xF doubles as the
    /// flag output of arithmetic, shift and index-carry instructions.
    pub v: Vec<u8>,
    /// 32-entry call stack; entries at or beyond `sp` are dead values.
    pub stack: Vec<u16>,
    /// 4 KiB of memory: font and interpreter area below 0x200, the loaded
    /// program from 0x200 up.
    pub mem: Vec<u8>,
    /// The output framebuffer.
    pub disp: Display,
    /// Retro-compatibility configuration, fixed at creation.
    pub config: ChipCfg,
    /// Set when the host asks the machine to stop; no instruction sets it.
    pub exit: bool,
}

impl View for Chip8 {
    type V = Core;

    /// The machine state as the instruction model sees it.
    open spec fn view(&self) -> Core {
        Core {
            i: self.i,
            pc: self.pc,
            dt: self.dt,
            st: self.st,
            sp: self.sp,
            v: self.v@,
            stack: self.stack@,
            mem: self.mem@,
            fb: self.disp.tab@,
        }
    }
}

impl Chip8 {
    /// The machine has its fixed dimensions and a font table that fits in
    /// memory.
    pub open spec fn wf(&self) -> bool {
        &&& self@.wf()
        &&& cfg_valid(self.config)
    }

    /// A fresh machine: cleared state, program counter at 0x200.
    pub fn new(config: ChipCfg) -> (r: Chip8)
        requires
            cfg_valid(config),
        ensures
            r.wf(),
            r.config == config,
            !r.exit,
            r@.i == 0 && r@.pc == 0x200 && r@.dt == 0 && r@.st == 0 && r@.sp == 0,
            forall|k: int| 0 <= k < 16 ==> r@.v[k] == 0,
            forall|k: int| 0 <= k < 4096 ==> r@.mem[k] == 0,
            forall|k: int| 0 <= k < 32 ==> r@.fb[k] == 0,
    {
        Chip8 {
            i: 0,
            pc: 0x200,
            dt: 0,
            st: 0,
            sp: 0,
            v: filled(0u8, 16),
            stack: filled(0u16, 32),
            mem: filled(0u8, 4096),
            disp: Display::new(),
            config,
            exit: false,
        }
    }

    /// Copy a program image into memory at 0x200, where execution starts.
    ///
    /// Fails with `ProgramTooLarge`, changing nothing, exactly when the
    /// image does not fit between 0x200 and the end of memory.
    pub fn load_program(&mut self, arr: &[u8]) -> (r: Result<(), Chip8Error>)
        requires
            old(self).wf(),
        ensures
            final(self).wf(),
            final(self).config == old(self).config,
            final(self).exit == old(self).exit,
            arr@.len() <= 3584 ==> {
                &&& r is Ok
                &&& final(self)@ == (Core {
                    mem: Seq::new(
                        4096,
                        |a: int|
                            if 0x200 <= a < 0x200 + arr@.len() {
                                arr@[a - 0x200]
                            } else {
                                old(self)@.mem[a]
                            },
                    ),
                    ..old(self)@
                })
            },
            arr@.len() > 3584 ==> r == Result::<(), Chip8Error>::Err(
                Chip8Error::ProgramTooLarge,
            ) && final(self)@ == old(self)@,
    {
        if arr.len() > 3584 {
            return Err(Chip8Error::ProgramTooLarge);
        }
        let ghost m0 = self.mem@;
        let mut k: usize = 0;
        while k < arr.len()
            invariant
                self.wf(),
                self.config == old(self).config,
                self.exit == old(self).exit,
                self.i == old(self).i && self.pc == old(self).pc && self.dt == old(self).dt
                    && self.st == old(self).st && self.sp == old(self).sp,
                self.v@ == old(self)@.v && self.stack@ == old(self)@.stack && self.disp.tab@
                    == old(self)@.fb,
                k <= arr@.len() <= 3584,
                m0 == old(self)@.mem,
                forall|a: int|
                    0 <= a < 4096 ==> self.mem@[a] == if 0x200 <= a < 0x200 + k {
                        arr@[a - 0x200]
                    } else {
                        m0[a]
                    },
            decreases arr@.len() - k,
        {
            self.mem.set(0x200 + k, arr[k]);
            k = k + 1;
        }
        proof {
            assert(final(self)@.mem =~= Seq::new(
                4096,
                |a: int|
                    if 0x200 <= a < 0x200 + arr@.len() {
                        arr@[a - 0x200]
                    } else {
                        old(self)@.mem[a]
                    },
            ));
        }
        Ok(())
    }

    /// Copy an 80-byte font table (16 glyphs of five bytes) into memory
    /// at the configured font start.
    pub fn load_font(&mut self, bytes: &[u8])
        requires
            old(self).wf(),
            bytes@.len() == 80,
        ensures
            final(self).wf(),
            final(self).config == old(self).config,
            final(self).exit == old(self).exit,
            final(self)@ == (Core {
                mem: Seq::new(
                    4096,
                    |a: int|
                        if old(self).config.font_start <= a < old(self).config.font_start + 80 {
                            bytes@[a - old(self).config.font_start]
                        } else {
                            old(self)@.mem[a]
                        },
                ),
                ..old(self)@
            }),
    {
        let start: usize = self.config.font_start as usize;
        let ghost m0 = self.mem@;
        let mut k: usize = 0;
        while k < 80
            invariant
                self.wf(),
                self.config == old(self).config,
                self.exit == old(self).exit,
                self.i == old(self).i && self.pc == old(self).pc && self.dt == old(self).dt
                    && self.st == old(self).st && self.sp == old(self).sp,
                self.v@ == old(self)@.v && self.stack@ == old(self)@.stack && self.disp.tab@
                    == old(self)@.fb,
                k <= 80,
                bytes@.len() == 80,
                start == old(self).config.font_start,
                m0 == old(self)@.mem,
                forall|a: int|
                    0 <= a < 4096 ==> self.mem@[a] == if start <= a < start + k {
                        bytes@[a - start]
                    } else {
                        m0[a]
                    },
            decreases 80 - k,
        {
            self.mem.set(start + k, bytes[k]);
            k = k + 1;
        }
        proof {
            assert(final(self)@.mem =~= Seq::new(
                4096,
                |a: int|
                    if old(self).config.font_start <= a < old(self).config.font_start + 80 {
                        bytes@[a - old(self).config.font_start]
                    } else {
                        old(self)@.mem[a]
                    },
            ));
        }
    }

    /// Copy the built-in glyph table into memory at the configured font
    /// start.
    pub fn load_default_font(&mut self)
        requires
            old(self).wf(),
        ensures
            final(self).wf(),
            final(self).config == old(self).config,
            final(self).exit == old(self).exit,
            final(self)@ == (Core {
                mem: Seq::new(
                    4096,
                    |a: int|
                        if old(self).config.font_start <= a < old(self).config.font_start + 80 {
                            default_font_seq()[a - old(self).config.font_start]
                        } else {
                            old(self)@.mem[a]
                        },
                ),
                ..old(self)@
            }),
    {
        let font = default_font();
        self.load_font(font.as_slice());
    }

    /// Read the two-byte big-endian instruction word at the program
    /// counter, advance the counter past it, and decode it.
    ///
    /// Fails with `OutOfBounds`, changing nothing, exactly when the word
    /// would reach past the end of memory.
    pub fn fetch(&mut self) -> (r: Result<ChipInst, Chip8Error>)
        requires
            old(self).wf(),
        ensures
            final(self).wf(),
            final(self).config == old(self).config,
            final(self).exit == old(self).exit,
            old(self).pc < 4095 ==> {
                &&& r is Ok
                &&& r->Ok_0.wf()
                &&& r->Ok_0.full == old(self)@.mem[old(self).pc as int] * 256 + old(
                    self,
                )@.mem[old(self).pc as int + 1]
                &&& final(self)@ == (Core { pc: (old(self).pc + 2) as u16, ..old(self)@ })
            },
            old(self).pc >= 4095 ==> r == Result::<ChipInst, Chip8Error>::Err(
                Chip8Error::OutOfBounds { index: old(self).pc },
            ) && final(self)@ == old(self)@,
    {
        if self.pc >= 4095 {
            return Err(Chip8Error::OutOfBounds { index: self.pc });
        }
        let b1 = self.mem[self.pc as usize];
        let b2 = self.mem[self.pc as usize + 1];
        self.pc = self.pc + 2;
        let w: u16 = ((b1 as u16) << 8u16) | (b2 as u16);
        proof {
            assert((b1 as u16) << 8u16 | (b2 as u16) == b1 * 256 + b2) by (bit_vector);
        }
        Ok(ChipInst::new(w))
    }

    /// One timer tick: each counter that is above zero steps down by one;
    /// neither ever goes below zero.  The host calls this at its own
    /// fixed cadence, decoupled from instruction execution.
    pub fn update_timers(&mut self)
        requires
            old(self).wf(),
        ensures
            final(self).wf(),
            final(self).config == old(self).config,
            final(self).exit == old(self).exit,
            final(self)@ == (Core {
                dt: if old(self).dt > 0 {
                    (old(self).dt - 1) as u8
                } else {
                    0
                },
                st: if old(self).st > 0 {
                    (old(self).st - 1) as u8
                } else {
                    0
                },
                ..old(self)@
            }),
    {
        if self.dt > 0 {
            self.dt = self.dt - 1;
        }
        if self.st > 0 {
            self.st = self.st - 1;
        }
    }

    /// Whether the sound timer asks the host's audio device to play.
    pub fn sound_active(&self) -> (r: bool)
        ensures
            r == (self.st > 0),
    {
        self.st > 0
    }

    /// Whether the host asked the machine to stop.
    pub fn has_exited(&self) -> (r: bool)
        ensures
            r == self.exit,
    {
        self.exit
    }

    /// Ask the machine to stop: the host observes this between cycles.
    pub fn request_exit(&mut self)
        requires
            old(self).wf(),
        ensures
            final(self).wf(),
            final(self).exit,
            final(self)@ == old(self)@,
            final(self).config == old(self).config,
    {
        self.exit = true;
    }

    /// One framebuffer row, for renderers: the most significant bit is
    /// the pixel at column 0.
    pub fn row(&self, r: usize) -> (w: u64)
        requires
            self.wf(),
            r < 32,
        ensures
            w == self@.fb[r as int],
    {
        self.disp.tab[r]
    }
}

} // verus!
