use vstd::prelude::*;
use crate::chip8::Chip8;
use crate::display::sprite_mask;
use crate::errors::Chip8Error;
use crate::instruction::{lemma_field_bounds, ChipInst};
use crate::keypad::{first_key, key_down, Keypad};
use crate::model::{
    add8, add16, drawn_fb, keys_mask, loaded_regs, oob, skipped, step_rel, stored_mem, sub8,
    sub16, zero_fb, Core,
};

verus! {

impl Chip8 {
    /// 00E0: clear the framebuffer.
    fn inst_00e0(&mut self)
        requires
            old(self).wf(),
        ensures
            final(self).wf(),
            final(self).config == old(self).config,
            final(self).exit == old(self).exit,
            final(self)@ == (Core { fb: zero_fb(), ..old(self)@ }),
    {
        self.disp.clear();
        proof {
            assert(final(self)@.fb =~= zero_fb());
        }
    }

    /// 00EE: return: pop the stack into the program counter.
    fn inst_00ee(&mut self) -> (r: Result<(), Chip8Error>)
        requires
            old(self).wf(),
        ensures
            final(self).wf(),
            final(self).config == old(self).config,
            final(self).exit == old(self).exit,
            old(self).sp == 0 ==> r == Result::<(), Chip8Error>::Err(Chip8Error::StackUnderflow)
                && final(self)@ == old(self)@,
            old(self).sp != 0 ==> r is Ok && final(self)@ == (Core {
                pc: old(self)@.stack[old(self).sp - 1],
                sp: (old(self).sp - 1) as u8,
                ..old(self)@
            }),
    {
        if self.sp == 0 {
            return Err(Chip8Error::StackUnderflow);
        }
        self.sp = self.sp - 1;
        self.pc = self.stack[self.sp as usize];
        Ok(())
    }

    /// 1NNN: jump.
    fn inst_1nnn(&mut self, nnn: u16)
        requires
            old(self).wf(),
        ensures
            final(self).wf(),
            final(self).config == old(self).config,
            final(self).exit == old(self).exit,
            final(self)@ == (Core { pc: nnn, ..old(self)@ }),
    {
        self.pc = nnn;
    }

    /// 2NNN: call: push the program counter, then jump.
    fn inst_2nnn(&mut self, nnn: u16) -> (r: Result<(), Chip8Error>)
        requires
            old(self).wf(),
        ensures
            final(self).wf(),
            final(self).config == old(self).config,
            final(self).exit == old(self).exit,
            old(self).sp >= 32 ==> r == Result::<(), Chip8Error>::Err(Chip8Error::StackOverflow)
                && final(self)@ == old(self)@,
            old(self).sp < 32 ==> r is Ok && final(self)@ == (Core {
                stack: old(self)@.stack.update(old(self).sp as int, old(self).pc),
                sp: (old(self).sp + 1) as u8,
                pc: nnn,
                ..old(self)@
            }),
    {
        if self.sp >= 32 {
            return Err(Chip8Error::StackOverflow);
        }
        self.stack.set(self.sp as usize, self.pc);
        self.sp = self.sp + 1;
        self.pc = nnn;
        Ok(())
    }

    /// Step the program counter over the next instruction word.
    fn skip_next(&mut self)
        requires
            old(self).wf(),
        ensures
            final(self).wf(),
            final(self).config == old(self).config,
            final(self).exit == old(self).exit,
            final(self)@ == (Core { pc: add16(old(self).pc, 2), ..old(self)@ }),
    {
        self.pc = self.pc.wrapping_add(2);
    }

    /// 3XNN: skip the next instruction if Vx == NN.
    fn inst_3xnn(&mut self, x: u8, nn: u8)
        requires
            old(self).wf(),
            x < 16,
        ensures
            final(self).wf(),
            final(self).config == old(self).config,
            final(self).exit == old(self).exit,
            final(self)@ == skipped(old(self)@, old(self)@.v[x as int] == nn),
    {
        if self.v[x as usize] == nn {
            self.skip_next();
        }
    }

    /// 4XNN: skip the next instruction if Vx != NN.
    fn inst_4xnn(&mut self, x: u8, nn: u8)
        requires
            old(self).wf(),
            x < 16,
        ensures
            final(self).wf(),
            final(self).config == old(self).config,
            final(self).exit == old(self).exit,
            final(self)@ == skipped(old(self)@, old(self)@.v[x as int] != nn),
    {
        if self.v[x as usize] != nn {
            self.skip_next();
        }
    }

    /// 5XY0: skip the next instruction if Vx == Vy.
    fn inst_5xy0(&mut self, x: u8, y: u8)
        requires
            old(self).wf(),
            x < 16,
            y < 16,
        ensures
            final(self).wf(),
            final(self).config == old(self).config,
            final(self).exit == old(self).exit,
            final(self)@ == skipped(
                old(self)@,
                old(self)@.v[x as int] == old(self)@.v[y as int],
            ),
    {
        if self.v[x as usize] == self.v[y as usize] {
            self.skip_next();
        }
    }

    /// 9XY0: skip the next instruction if Vx != Vy.
    fn inst_9xy0(&mut self, x: u8, y: u8)
        requires
            old(self).wf(),
            x < 16,
            y < 16,
        ensures
            final(self).wf(),
            final(self).config == old(self).config,
            final(self).exit == old(self).exit,
            final(self)@ == skipped(
                old(self)@,
                old(self)@.v[x as int] != old(self)@.v[y as int],
            ),
    {
        if self.v[x as usize] != self.v[y as usize] {
            self.skip_next();
        }
    }

    /// 6XNN: set Vx to NN.
    fn inst_6xnn(&mut self, x: u8, nn: u8)
        requires
            old(self).wf(),
            x < 16,
        ensures
            final(self).wf(),
            final(self).config == old(self).config,
            final(self).exit == old(self).exit,
            final(self)@ == (Core { v: old(self)@.v.update(x as int, nn), ..old(self)@ }),
    {
        self.v.set(x as usize, nn);
    }

    /// 7XNN: add NN to Vx, wrapping modulo 256, with no flag change.
    fn inst_7xnn(&mut self, x: u8, nn: u8)
        requires
            old(self).wf(),
            x < 16,
        ensures
            final(self).wf(),
            final(self).config == old(self).config,
            final(self).exit == old(self).exit,
            final(self)@ == (Core {
                v: old(self)@.v.update(x as int, add8(old(self)@.v[x as int], nn)),
                ..old(self)@
            }),
    {
        let vx = self.v[x as usize];
        self.v.set(x as usize, vx.wrapping_add(nn));
    }

    /// 8XY0: set Vx to Vy.
    fn inst_8xy0(&mut self, x: u8, y: u8)
        requires
            old(self).wf(),
            x < 16,
            y < 16,
        ensures
            final(self).wf(),
            final(self).config == old(self).config,
            final(self).exit == old(self).exit,
            final(self)@ == (Core {
                v: old(self)@.v.update(x as int, old(self)@.v[y as int]),
                ..old(self)@
            }),
    {
        let vy = self.v[y as usize];
        self.v.set(x as usize, vy);
    }

    /// 8XY1: set Vx to Vx OR Vy.
    fn inst_8xy1(&mut self, x: u8, y: u8)
        requires
            old(self).wf(),
            x < 16,
            y < 16,
        ensures
            final(self).wf(),
            final(self).config == old(self).config,
            final(self).exit == old(self).exit,
            final(self)@ == (Core {
                v: old(self)@.v.update(
                    x as int,
                    old(self)@.v[x as int] | old(self)@.v[y as int],
                ),
                ..old(self)@
            }),
    {
        let vx = self.v[x as usize];
        let vy = self.v[y as usize];
        self.v.set(x as usize, vx | vy);
    }

    /// 8XY2: set Vx to Vx AND Vy.
    fn inst_8xy2(&mut self, x: u8, y: u8)
        requires
            old(self).wf(),
            x < 16,
            y < 16,
        ensures
            final(self).wf(),
            final(self).config == old(self).config,
            final(self).exit == old(self).exit,
            final(self)@ == (Core {
                v: old(self)@.v.update(
                    x as int,
                    old(self)@.v[x as int] & old(self)@.v[y as int],
                ),
                ..old(self)@
            }),
    {
        let vx = self.v[x as usize];
        let vy = self.v[y as usize];
        self.v.set(x as usize, vx & vy);
    }

    /// 8XY3: set Vx to Vx XOR Vy.
    fn inst_8xy3(&mut self, x: u8, y: u8)
        requires
            old(self).wf(),
            x < 16,
            y < 16,
        ensures
            final(self).wf(),
            final(self).config == old(self).config,
            final(self).exit == old(self).exit,
            final(self)@ == (Core {
                v: old(self)@.v.update(
                    x as int,
                    old(self)@.v[x as int] ^ old(self)@.v[y as int],
                ),
                ..old(self)@
            }),
    {
        let vx = self.v[x as usize];
        let vy = self.v[y as usize];
        self.v.set(x as usize, vx ^ vy);
    }

    /// 8XY4: set Vx to Vx + Vy modulo 256; VF reports whether the nine-bit
    /// sum exceeded 255.
    fn inst_8xy4(&mut self, x: u8, y: u8)
        requires
            old(self).wf(),
            x < 16,
            y < 16,
        ensures
            final(self).wf(),
            final(self).config == old(self).config,
            final(self).exit == old(self).exit,
            final(self)@ == (Core {
                v: old(self)@.v.update(
                    x as int,
                    add8(old(self)@.v[x as int], old(self)@.v[y as int]),
                ).update(
                    15,
                    if old(self)@.v[x as int] + old(self)@.v[y as int] > 255 {
                        1u8
                    } else {
                        0u8
                    },
                ),
                ..old(self)@
            }),
    {
        let vx = self.v[x as usize];
        let vy = self.v[y as usize];
        self.v.set(x as usize, vx.wrapping_add(vy));
        let flag: u8 = if vx as u16 + vy as u16 > 255 {
            1
        } else {
            0
        };
        self.v.set(15, flag);
    }

    /// 8XY5: set Vx to Vx - Vy modulo 256; VF reports 0 on borrow
    /// (Vy > Vx), else 1.
    fn inst_8xy5(&mut self, x: u8, y: u8)
        requires
            old(self).wf(),
            x < 16,
            y < 16,
        ensures
            final(self).wf(),
            final(self).config == old(self).config,
            final(self).exit == old(self).exit,
            final(self)@ == (Core {
                v: old(self)@.v.update(
                    x as int,
                    sub8(old(self)@.v[x as int], old(self)@.v[y as int]),
                ).update(
                    15,
                    if old(self)@.v[y as int] > old(self)@.v[x as int] {
                        0u8
                    } else {
                        1u8
                    },
                ),
                ..old(self)@
            }),
    {
        let vx = self.v[x as usize];
        let vy = self.v[y as usize];
        self.v.set(x as usize, vx.wrapping_sub(vy));
        let flag: u8 = if vy > vx {
            0
        } else {
            1
        };
        self.v.set(15, flag);
    }

    /// 8XY7: set Vx to Vy - Vx modulo 256; VF reports 0 on borrow
    /// (Vx > Vy), else 1.
    fn inst_8xy7(&mut self, x: u8, y: u8)
        requires
            old(self).wf(),
            x < 16,
            y < 16,
        ensures
            final(self).wf(),
            final(self).config == old(self).config,
            final(self).exit == old(self).exit,
            final(self)@ == (Core {
                v: old(self)@.v.update(
                    x as int,
                    sub8(old(self)@.v[y as int], old(self)@.v[x as int]),
                ).update(
                    15,
                    if old(self)@.v[x as int] > old(self)@.v[y as int] {
                        0u8
                    } else {
                        1u8
                    },
                ),
                ..old(self)@
            }),
    {
        let vx = self.v[x as usize];
        let vy = self.v[y as usize];
        self.v.set(x as usize, vy.wrapping_sub(vx));
        let flag: u8 = if vx > vy {
            0
        } else {
            1
        };
        self.v.set(15, flag);
    }

    /// 8XY6: set Vx to Vy shifted right by one; VF is the shifted-out low
    /// bit of the source register Vy.
    fn inst_8xy6(&mut self, x: u8, y: u8)
        requires
            old(self).wf(),
            x < 16,
            y < 16,
        ensures
            final(self).wf(),
            final(self).config == old(self).config,
            final(self).exit == old(self).exit,
            final(self)@ == (Core {
                v: old(self)@.v.update(x as int, old(self)@.v[y as int] >> 1).update(
                    15,
                    old(self)@.v[y as int] & 1,
                ),
                ..old(self)@
            }),
    {
        let vy = self.v[y as usize];
        self.v.set(x as usize, vy >> 1);
        self.v.set(15, vy & 1);
    }

    /// 8XYE: set Vx to Vy shifted left by one, modulo 256; VF is the
    /// shifted-out high bit of the source register Vy.
    fn inst_8xye(&mut self, x: u8, y: u8)
        requires
            old(self).wf(),
            x < 16,
            y < 16,
        ensures
            final(self).wf(),
            final(self).config == old(self).config,
            final(self).exit == old(self).exit,
            final(self)@ == (Core {
                v: old(self)@.v.update(x as int, old(self)@.v[y as int] << 1).update(
                    15,
                    old(self)@.v[y as int] >> 7,
                ),
                ..old(self)@
            }),
    {
        let vy = self.v[y as usize];
        self.v.set(x as usize, vy << 1);
        self.v.set(15, vy >> 7);
    }

    /// ANNN: set the index register to NNN.
    fn inst_annn(&mut self, nnn: u16)
        requires
            old(self).wf(),
        ensures
            final(self).wf(),
            final(self).config == old(self).config,
            final(self).exit == old(self).exit,
            final(self)@ == (Core { i: nnn, ..old(self)@ }),
    {
        self.i = nnn;
    }

    /// BNNN: jump with offset.  Legacy mode jumps to V0 + NNN; modern mode
    /// jumps to Vx + NNN, where x is the top nibble of NNN.
    fn inst_bnnn(&mut self, x: u8, nnn: u16)
        requires
            old(self).wf(),
            x < 16,
            nnn < 4096,
        ensures
            final(self).wf(),
            final(self).config == old(self).config,
            final(self).exit == old(self).exit,
            final(self)@ == (Core {
                pc: ((if old(self).config.jump_offset_legacy {
                    old(self)@.v[0]
                } else {
                    old(self)@.v[x as int]
                }) + nnn) as u16,
                ..old(self)@
            }),
    {
        let base: u8 = if self.config.jump_offset_legacy {
            self.v[0]
        } else {
            self.v[x as usize]
        };
        self.pc = base as u16 + nnn;
    }

    /// CXNN: set Vx to NN masked with the random byte `rnd`.
    fn inst_cxnn(&mut self, x: u8, nn: u8, rnd: u8)
        requires
            old(self).wf(),
            x < 16,
        ensures
            final(self).wf(),
            final(self).config == old(self).config,
            final(self).exit == old(self).exit,
            final(self)@ == (Core { v: old(self)@.v.update(x as int, rnd & nn), ..old(self)@ }),
    {
        self.v.set(x as usize, rnd & nn);
    }

    /// DXYN: draw an N-row sprite read from memory at the index register,
    /// at (Vx mod 64, Vy mod 32).  Rows at or beyond row 32 are clipped;
    /// a read past the end of memory is a fault that changes nothing.
    fn inst_dxyn(&mut self, x: u8, y: u8, n: u8) -> (r: Result<(), Chip8Error>)
        requires
            old(self).wf(),
            x < 16,
            y < 16,
            n < 16,
        ensures
            final(self).wf(),
            final(self).config == old(self).config,
            final(self).exit == old(self).exit,
            ({
                let vx = (old(self)@.v[x as int] % 64) as u8;
                let vy = (old(self)@.v[y as int] % 32) as u8;
                let rows = vstd::math::min(n as int, 32 - vy);
                if rows > 0 && old(self).i + rows > 4096 {
                    r == Result::<(), Chip8Error>::Err(oob(old(self)@)) && final(self)@ == old(
                        self,
                    )@
                } else {
                    r is Ok && final(self)@ == (Core {
                        fb: drawn_fb(old(self)@.fb, old(self)@.mem, old(self).i, vx, vy, rows),
                        ..old(self)@
                    })
                }
            }),
    {
        let vx = self.v[x as usize] % 64;
        let vy = self.v[y as usize] % 32;
        let rows: u8 = if n < 32 - vy {
            n
        } else {
            32 - vy
        };
        if rows > 0 && self.i as usize + rows as usize > 4096 {
            return Err(Chip8Error::OutOfBounds { index: self.i });
        }
        let ghost fb0 = self.disp.tab@;
        let mut j: u8 = 0;
        while j < rows
            invariant
                self.wf(),
                self.config == old(self).config,
                self.exit == old(self).exit,
                self.i == old(self).i && self.pc == old(self).pc && self.dt == old(self).dt
                    && self.st == old(self).st && self.sp == old(self).sp,
                self.v@ == old(self)@.v && self.stack@ == old(self)@.stack && self.mem@ == old(
                    self,
                )@.mem,
                fb0 == old(self)@.fb,
                j <= rows,
                vx < 64,
                vy < 32,
                vy + rows <= 32,
                rows > 0 ==> self.i + rows <= 4096,
                forall|t: int|
                    0 <= t < 32 ==> self.disp.tab@[t] == (if vy <= t < vy + j {
                        fb0[t] ^ sprite_mask(vx, old(self)@.mem[self.i + (t - vy)])
                    } else {
                        fb0[t]
                    }),
            decreases rows - j,
        {
            let byte = self.mem[self.i as usize + j as usize];
            self.disp.draw_sprite(vx, vy + j, byte);
            j = j + 1;
        }
        proof {
            assert(final(self)@.fb =~= drawn_fb(
                old(self)@.fb,
                old(self)@.mem,
                old(self).i,
                vx,
                vy,
                rows as int,
            ));
        }
        Ok(())
    }

    /// EX9E: skip the next instruction if the key numbered Vx is held.
    fn inst_ex9e(&mut self, x: u8, keys: Option<&Keypad>)
        requires
            old(self).wf(),
            x < 16,
        ensures
            final(self).wf(),
            final(self).config == old(self).config,
            final(self).exit == old(self).exit,
            final(self)@ == skipped(
                old(self)@,
                key_down(keys_mask(keys), old(self)@.v[x as int]),
            ),
    {
        let vx = self.v[x as usize];
        let held = match keys {
            Some(k) => k.is_pressed(vx),
            None => {
                proof {
                    crate::keypad::lemma_zero_mask_no_key(vx);
                }
                false
            },
        };
        if held {
            self.skip_next();
        }
    }

    /// EXA1: skip the next instruction if the key numbered Vx is not held.
    fn inst_exa1(&mut self, x: u8, keys: Option<&Keypad>)
        requires
            old(self).wf(),
            x < 16,
        ensures
            final(self).wf(),
            final(self).config == old(self).config,
            final(self).exit == old(self).exit,
            final(self)@ == skipped(
                old(self)@,
                !key_down(keys_mask(keys), old(self)@.v[x as int]),
            ),
    {
        let vx = self.v[x as usize];
        let held = match keys {
            Some(k) => k.is_pressed(vx),
            None => {
                proof {
                    crate::keypad::lemma_zero_mask_no_key(vx);
                }
                false
            },
        };
        if !held {
            self.skip_next();
        }
    }

    /// FX07: set Vx to the delay timer.
    fn inst_fx07(&mut self, x: u8)
        requires
            old(self).wf(),
            x < 16,
        ensures
            final(self).wf(),
            final(self).config == old(self).config,
            final(self).exit == old(self).exit,
            final(self)@ == (Core {
                v: old(self)@.v.update(x as int, old(self).dt),
                ..old(self)@
            }),
    {
        let dt = self.dt;
        self.v.set(x as usize, dt);
    }

    /// FX0A: blocking key read.  If a key is held, Vx receives the
    /// lowest-numbered held key; otherwise the program counter is rewound
    /// by two so the same instruction re-executes next cycle.
    fn inst_fx0a(&mut self, x: u8, keys: Option<&Keypad>)
        requires
            old(self).wf(),
            x < 16,
        ensures
            final(self).wf(),
            final(self).config == old(self).config,
            final(self).exit == old(self).exit,
            keys_mask(keys) == 0 ==> final(self)@ == (Core {
                pc: sub16(old(self).pc, 2),
                ..old(self)@
            }),
            keys_mask(keys) != 0 ==> final(self)@ == (Core {
                v: old(self)@.v.update(x as int, first_key(keys_mask(keys))),
                ..old(self)@
            }),
    {
        let pressed: Option<u8> = match keys {
            Some(k) => k.pressed_key(),
            None => None,
        };
        match pressed {
            Some(key) => {
                self.v.set(x as usize, key);
            },
            None => {
                self.pc = self.pc.wrapping_sub(2);
            },
        }
    }

    /// FX15: set the delay timer to Vx.
    fn inst_fx15(&mut self, x: u8)
        requires
            old(self).wf(),
            x < 16,
        ensures
            final(self).wf(),
            final(self).config == old(self).config,
            final(self).exit == old(self).exit,
            final(self)@ == (Core { dt: old(self)@.v[x as int], ..old(self)@ }),
    {
        self.dt = self.v[x as usize];
    }

    /// FX18: set the sound timer to Vx.
    fn inst_fx18(&mut self, x: u8)
        requires
            old(self).wf(),
            x < 16,
        ensures
            final(self).wf(),
            final(self).config == old(self).config,
            final(self).exit == old(self).exit,
            final(self)@ == (Core { st: old(self)@.v[x as int], ..old(self)@ }),
    {
        self.st = self.v[x as usize];
    }

    /// FX1E: add Vx to the index register, wrapping modulo 65536.  When
    /// the index-add-carry quirk is enabled, VF reports whether the sum
    /// crossed from the address space (at most 0x0FFF) into 0x1000 and
    /// beyond; when disabled, VF is left untouched.
    fn inst_fx1e(&mut self, x: u8)
        requires
            old(self).wf(),
            x < 16,
        ensures
            final(self).wf(),
            final(self).config == old(self).config,
            final(self).exit == old(self).exit,
            old(self).config.index_add_carry ==> final(self)@ == (Core {
                i: add16(old(self).i, old(self)@.v[x as int] as u16),
                v: old(self)@.v.update(
                    15,
                    if old(self).i <= 0xFFF && old(self).i + old(self)@.v[x as int] >= 0x1000 {
                        1u8
                    } else {
                        0u8
                    },
                ),
                ..old(self)@
            }),
            !old(self).config.index_add_carry ==> final(self)@ == (Core {
                i: add16(old(self).i, old(self)@.v[x as int] as u16),
                ..old(self)@
            }),
    {
        let vx = self.v[x as usize];
        let save_i = self.i;
        self.i = self.i.wrapping_add(vx as u16);
        if self.config.index_add_carry {
            let flag: u8 = if save_i <= 0xFFF && save_i + (vx as u16) >= 0x1000 {
                1
            } else {
                0
            };
            self.v.set(15, flag);
        }
    }

    /// FX29: point the index register at the five-byte glyph for the
    /// digit in Vx: font start plus five times Vx.
    fn inst_fx29(&mut self, x: u8)
        requires
            old(self).wf(),
            x < 16,
        ensures
            final(self).wf(),
            final(self).config == old(self).config,
            final(self).exit == old(self).exit,
            final(self)@ == (Core {
                i: (old(self).config.font_start + 5 * old(self)@.v[x as int]) as u16,
                ..old(self)@
            }),
    {
        let vx = self.v[x as usize];
        self.i = self.config.font_start + 5 * (vx as u16);
    }

    /// FX33: store the three decimal digits of Vx (hundreds, tens, units)
    /// at the index register and the two bytes after it.
    fn inst_fx33(&mut self, x: u8) -> (r: Result<(), Chip8Error>)
        requires
            old(self).wf(),
            x < 16,
        ensures
            final(self).wf(),
            final(self).config == old(self).config,
            final(self).exit == old(self).exit,
            old(self).i + 2 >= 4096 ==> r == Result::<(), Chip8Error>::Err(oob(old(self)@))
                && final(self)@ == old(self)@,
            old(self).i + 2 < 4096 ==> r is Ok && final(self)@ == (Core {
                mem: old(self)@.mem.update(
                    old(self).i as int,
                    old(self)@.v[x as int] / 100,
                ).update(old(self).i + 1, (old(self)@.v[x as int] / 10) % 10).update(
                    old(self).i + 2,
                    old(self)@.v[x as int] % 10,
                ),
                ..old(self)@
            }),
    {
        if self.i >= 4094 {
            return Err(Chip8Error::OutOfBounds { index: self.i });
        }
        let vx = self.v[x as usize];
        let i = self.i as usize;
        self.mem.set(i, vx / 100);
        self.mem.set(i + 1, (vx / 10) % 10);
        self.mem.set(i + 2, vx % 10);
        Ok(())
    }

    /// FX55: store V0 up to Vx inclusive into memory at the index
    /// register.  In legacy mode the index then advances by x + 1.
    fn inst_fx55(&mut self, x: u8) -> (r: Result<(), Chip8Error>)
        requires
            old(self).wf(),
            x < 16,
        ensures
            final(self).wf(),
            final(self).config == old(self).config,
            final(self).exit == old(self).exit,
            old(self).i + x >= 4096 ==> r == Result::<(), Chip8Error>::Err(oob(old(self)@))
                && final(self)@ == old(self)@,
            old(self).i + x < 4096 ==> r is Ok && final(self)@ == (Core {
                mem: stored_mem(old(self)@.mem, old(self)@.v, old(self).i, x as u16),
                i: if old(self).config.register_save_legacy {
                    (old(self).i + x + 1) as u16
                } else {
                    old(self).i
                },
                ..old(self)@
            }),
    {
        if self.i as usize + x as usize >= 4096 {
            return Err(Chip8Error::OutOfBounds { index: self.i });
        }
        let i = self.i as usize;
        let ghost m0 = self.mem@;
        let mut k: usize = 0;
        while k < x as usize + 1
            invariant
                self.wf(),
                self.config == old(self).config,
                self.exit == old(self).exit,
                self.i == old(self).i && self.pc == old(self).pc && self.dt == old(self).dt
                    && self.st == old(self).st && self.sp == old(self).sp,
                self.v@ == old(self)@.v && self.stack@ == old(self)@.stack && self.disp.tab@
                    == old(self)@.fb,
                i == old(self).i,
                x < 16,
                i + x < 4096,
                k <= x + 1,
                m0 == old(self)@.mem,
                forall|a: int|
                    0 <= a < 4096 ==> self.mem@[a] == (if i <= a < i + k {
                        old(self)@.v[a - i]
                    } else {
                        m0[a]
                    }),
            decreases x + 1 - k,
        {
            let val = self.v[k];
            self.mem.set(i + k, val);
            k = k + 1;
        }
        proof {
            assert(self.mem@ =~= stored_mem(
                old(self)@.mem,
                old(self)@.v,
                old(self).i,
                x as u16,
            ));
        }
        if self.config.register_save_legacy {
            self.i = self.i + x as u16 + 1;
        }
        Ok(())
    }

    /// FX65: load memory at the index register into V0 up to Vx
    /// inclusive.  In legacy mode the index then advances by x + 1.
    fn inst_fx65(&mut self, x: u8) -> (r: Result<(), Chip8Error>)
        requires
            old(self).wf(),
            x < 16,
        ensures
            final(self).wf(),
            final(self).config == old(self).config,
            final(self).exit == old(self).exit,
            old(self).i + x >= 4096 ==> r == Result::<(), Chip8Error>::Err(oob(old(self)@))
                && final(self)@ == old(self)@,
            old(self).i + x < 4096 ==> r is Ok && final(self)@ == (Core {
                v: loaded_regs(old(self)@.v, old(self)@.mem, old(self).i, x as u16),
                i: if old(self).config.register_save_legacy {
                    (old(self).i + x + 1) as u16
                } else {
                    old(self).i
                },
                ..old(self)@
            }),
    {
        if self.i as usize + x as usize >= 4096 {
            return Err(Chip8Error::OutOfBounds { index: self.i });
        }
        let i = self.i as usize;
        let ghost v0 = self.v@;
        let mut k: usize = 0;
        while k < x as usize + 1
            invariant
                self.wf(),
                self.config == old(self).config,
                self.exit == old(self).exit,
                self.i == old(self).i && self.pc == old(self).pc && self.dt == old(self).dt
                    && self.st == old(self).st && self.sp == old(self).sp,
                self.mem@ == old(self)@.mem && self.stack@ == old(self)@.stack && self.disp.tab@
                    == old(self)@.fb,
                i == old(self).i,
                x < 16,
                i + x < 4096,
                k <= x + 1,
                v0 == old(self)@.v,
                forall|t: int|
                    0 <= t < 16 ==> self.v@[t] == (if 0 <= t < k {
                        old(self)@.mem[i + t]
                    } else {
                        v0[t]
                    }),
            decreases x + 1 - k,
        {
            let val = self.mem[i + k];
            self.v.set(k, val);
            k = k + 1;
        }
        proof {
            assert(self.v@ =~= loaded_regs(
                old(self)@.v,
                old(self)@.mem,
                old(self).i,
                x as u16,
            ));
        }
        if self.config.register_save_legacy {
            self.i = self.i + x as u16 + 1;
        }
        Ok(())
    }

    /// Apply one decoded instruction deterministically: `rnd` is the byte
    /// CXNN masks and `keys` the snapshot the key instructions consult.
    ///
    /// The outcome is exactly what the `step` model gives: on success the
    /// machine is in the model's next state; on a fault the model's error
    /// comes back and the state does not move.
    pub fn execute_with(
        &mut self,
        inst: &ChipInst,
        keys: Option<&Keypad>,
        rnd: u8,
    ) -> (r: Result<(), Chip8Error>)
        requires
            old(self).wf(),
            inst.wf(),
        ensures
            final(self).wf(),
            final(self).config == old(self).config,
            final(self).exit == old(self).exit,
            step_rel(
                old(self).config,
                old(self)@,
                final(self)@,
                inst.full,
                rnd,
                keys_mask(keys),
                r,
            ),
    {
        proof {
            lemma_field_bounds(inst.full);
        }
        let x = inst.x;
        let y = inst.y;
        let n = inst.n;
        let nn = inst.nn;
        let nnn = inst.nnn;
        match inst.i {
            0x0 => {
                if nnn == 0x0E0 {
                    self.inst_00e0();
                    Ok(())
                } else if nnn == 0x0EE {
                    self.inst_00ee()
                } else {
                    Err(Chip8Error::UnknownOpcode {
                        addr: self.pc.wrapping_sub(2),
                        word: inst.full,
                    })
                }
            },
            0x1 => {
                self.inst_1nnn(nnn);
                Ok(())
            },
            0x2 => self.inst_2nnn(nnn),
            0x3 => {
                self.inst_3xnn(x, nn);
                Ok(())
            },
            0x4 => {
                self.inst_4xnn(x, nn);
                Ok(())
            },
            0x5 => {
                self.inst_5xy0(x, y);
                Ok(())
            },
            0x6 => {
                self.inst_6xnn(x, nn);
                Ok(())
            },
            0x7 => {
                self.inst_7xnn(x, nn);
                Ok(())
            },
            0x8 => {
                match n {
                    0x0 => {
                        self.inst_8xy0(x, y);
                        Ok(())
                    },
                    0x1 => {
                        self.inst_8xy1(x, y);
                        Ok(())
                    },
                    0x2 => {
                        self.inst_8xy2(x, y);
                        Ok(())
                    },
                    0x3 => {
                        self.inst_8xy3(x, y);
                        Ok(())
                    },
                    0x4 => {
                        self.inst_8xy4(x, y);
                        Ok(())
                    },
                    0x5 => {
                        self.inst_8xy5(x, y);
                        Ok(())
                    },
                    0x6 => {
                        self.inst_8xy6(x, y);
                        Ok(())
                    },
                    0x7 => {
                        self.inst_8xy7(x, y);
                        Ok(())
                    },
                    0xE => {
                        self.inst_8xye(x, y);
                        Ok(())
                    },
                    _ => Err(Chip8Error::UnknownOpcode {
                        addr: self.pc.wrapping_sub(2),
                        word: inst.full,
                    }),
                }
            },
            0x9 => {
                self.inst_9xy0(x, y);
                Ok(())
            },
            0xA => {
                self.inst_annn(nnn);
                Ok(())
            },
            0xB => {
                self.inst_bnnn(x, nnn);
                Ok(())
            },
            0xC => {
                self.inst_cxnn(x, nn, rnd);
                Ok(())
            },
            0xD => self.inst_dxyn(x, y, n),
            0xE => {
                if nn == 0x9E {
                    self.inst_ex9e(x, keys);
                    Ok(())
                } else if nn == 0xA1 {
                    self.inst_exa1(x, keys);
                    Ok(())
                } else {
                    Err(Chip8Error::UnknownOpcode {
                        addr: self.pc.wrapping_sub(2),
                        word: inst.full,
                    })
                }
            },
            _ => {
                if nn == 0x07 {
                    self.inst_fx07(x);
                    Ok(())
                } else if nn == 0x0A {
                    self.inst_fx0a(x, keys);
                    Ok(())
                } else if nn == 0x15 {
                    self.inst_fx15(x);
                    Ok(())
                } else if nn == 0x18 {
                    self.inst_fx18(x);
                    Ok(())
                } else if nn == 0x1E {
                    self.inst_fx1e(x);
                    Ok(())
                } else if nn == 0x29 {
                    self.inst_fx29(x);
                    Ok(())
                } else if nn == 0x33 {
                    self.inst_fx33(x)
                } else if nn == 0x55 {
                    self.inst_fx55(x)
                } else if nn == 0x65 {
                    self.inst_fx65(x)
                } else {
                    Err(Chip8Error::UnknownOpcode {
                        addr: self.pc.wrapping_sub(2),
                        word: inst.full,
                    })
                }
            },
        }
    }

    /// Apply one decoded instruction, drawing the random byte CXNN masks
    /// from the generator.  Whatever byte was drawn, the outcome is the
    /// `step` model's outcome for that byte.
    pub fn execute(&mut self, inst: &ChipInst, keys: Option<&Keypad>) -> (r: Result<
        (),
        Chip8Error,
    >)
        requires
            old(self).wf(),
            inst.wf(),
        ensures
            final(self).wf(),
            final(self).config == old(self).config,
            final(self).exit == old(self).exit,
            exists|rnd: u8|
                #[trigger] step_rel(
                    old(self).config,
                    old(self)@,
                    final(self)@,
                    inst.full,
                    rnd,
                    keys_mask(keys),
                    r,
                ),
    {
        let rnd: u8 = rand::random::<u8>();
        self.execute_with(inst, keys, rnd)
    }
}

} // verus!
