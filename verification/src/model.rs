use vstd::prelude::*;
use vstd::math::min;
use crate::config::ChipCfg;
use crate::display::sprite_mask;
use crate::errors::Chip8Error;
use crate::instruction::{op_of, x_of, y_of, n_of, nn_of, nnn_of};
use crate::keypad::{key_down, first_key, Keypad};

verus! {

/// The machine state one instruction reads and writes: index register,
/// program counter, the two timers, stack pointer, the sixteen registers,
/// the call stack, the 4096 bytes of memory and the 32 framebuffer rows.
///
/// The compatibility configuration is not part of this state: it is fixed
/// at creation and no instruction writes it.
pub ghost struct Core {
    pub i: u16,
    pub pc: u16,
    pub dt: u8,
    pub st: u8,
    pub sp: u8,
    pub v: Seq<u8>,
    pub stack: Seq<u16>,
    pub mem: Seq<u8>,
    pub fb: Seq<u64>,
}

impl Core {
    /// The fixed dimensions of the machine.
    pub open spec fn wf(self) -> bool {
        &&& self.v.len() == 16
        &&& self.stack.len() == 32
        &&& self.mem.len() == 4096
        &&& self.fb.len() == 32
        &&& self.sp <= 32
    }
}

/// 8-bit addition, wrapping modulo 256.
pub open spec fn add8(a: u8, b: u8) -> u8 {
    if a + b > 255 {
        (a + b - 256) as u8
    } else {
        (a + b) as u8
    }
}

/// 8-bit subtraction, wrapping modulo 256.
pub open spec fn sub8(a: u8, b: u8) -> u8 {
    if a < b {
        (a - b + 256) as u8
    } else {
        (a - b) as u8
    }
}

/// 16-bit addition, wrapping modulo 65536.
pub open spec fn add16(a: u16, b: u16) -> u16 {
    if a + b > 0xFFFF {
        (a + b - 0x10000) as u16
    } else {
        (a + b) as u16
    }
}

/// 16-bit subtraction, wrapping modulo 65536.
pub open spec fn sub16(a: u16, b: u16) -> u16 {
    if a < b {
        (a - b + 0x10000) as u16
    } else {
        (a - b) as u16
    }
}

/// A blank framebuffer.
pub open spec fn zero_fb() -> Seq<u64> {
    Seq::new(32, |r: int| 0u64)
}

/// The state after a skip instruction: the program counter steps over the
/// next instruction word exactly when `cond` holds.
pub open spec fn skipped(s: Core, cond: bool) -> Core {
    if cond {
        Core { pc: add16(s.pc, 2), ..s }
    } else {
        s
    }
}

/// A decode fault: the word matches no defined opcode pattern.  The word
/// was fetched from two bytes before the already-advanced program counter.
pub open spec fn unknown(s: Core, w: u16) -> Chip8Error {
    Chip8Error::UnknownOpcode { addr: sub16(s.pc, 2), word: w }
}

/// A memory fault through the index register.
pub open spec fn oob(s: Core) -> Chip8Error {
    Chip8Error::OutOfBounds { index: s.i }
}

/// The framebuffer after drawing `rows` sprite rows read from
/// `mem[i..i+rows]` at column `vx`, starting on row `vy`.
pub open spec fn drawn_fb(
    fb: Seq<u64>,
    mem: Seq<u8>,
    i: u16,
    vx: u8,
    vy: u8,
    rows: int,
) -> Seq<u64> {
    Seq::new(
        32,
        |r: int|
            if vy <= r < vy + rows {
                fb[r] ^ sprite_mask(vx, mem[i + (r - vy)])
            } else {
                fb[r]
            },
    )
}

/// Memory after FX55: `v[0..=x]` copied to `mem[i..=i+x]`.
pub open spec fn stored_mem(mem: Seq<u8>, v: Seq<u8>, i: u16, x: u16) -> Seq<u8> {
    Seq::new(
        4096,
        |a: int| if i <= a <= i + x { v[a - i] } else { mem[a] },
    )
}

/// Registers after FX65: `mem[i..=i+x]` copied to `v[0..=x]`.
pub open spec fn loaded_regs(v: Seq<u8>, mem: Seq<u8>, i: u16, x: u16) -> Seq<u8> {
    Seq::new(
        16,
        |k: int| if k <= x { mem[i + k] } else { v[k] },
    )
}

/// The effect of one family-8 register instruction.
///
/// The shift instructions 8XY6 and 8XYE implement the older hardware
/// revision's variant:
/// they read the source register Vy, write the shifted value to Vx, and
/// report the shifted-out bit of Vy in VF.
pub open spec fn step_alu(s: Core, w: u16) -> Result<Core, Chip8Error> {
    let x = x_of(w) as int;
    let vx = s.v[x];
    let vy = s.v[y_of(w) as int];
    let n = n_of(w);
    if n == 0 {
        Ok(Core { v: s.v.update(x, vy), ..s })
    } else if n == 1 {
        Ok(Core { v: s.v.update(x, vx | vy), ..s })
    } else if n == 2 {
        Ok(Core { v: s.v.update(x, vx & vy), ..s })
    } else if n == 3 {
        Ok(Core { v: s.v.update(x, vx ^ vy), ..s })
    } else if n == 4 {
        Ok(
            Core {
                v: s.v.update(x, add8(vx, vy)).update(
                    15,
                    if vx + vy > 255 {
                        1u8
                    } else {
                        0u8
                    },
                ),
                ..s
            },
        )
    } else if n == 5 {
        Ok(
            Core {
                v: s.v.update(x, sub8(vx, vy)).update(
                    15,
                    if vy > vx {
                        0u8
                    } else {
                        1u8
                    },
                ),
                ..s
            },
        )
    } else if n == 6 {
        Ok(Core { v: s.v.update(x, vy >> 1).update(15, vy & 1), ..s })
    } else if n == 7 {
        Ok(
            Core {
                v: s.v.update(x, sub8(vy, vx)).update(
                    15,
                    if vx > vy {
                        0u8
                    } else {
                        1u8
                    },
                ),
                ..s
            },
        )
    } else if n == 14 {
        Ok(Core { v: s.v.update(x, vy << 1).update(15, vy >> 7), ..s })
    } else {
        Err(unknown(s, w))
    }
}

/// The effect of DXYN: draw an 8-pixel-wide, N-row-tall sprite at
/// (Vx mod 64, Vy mod 32).  Rows that would fall at or beyond row 32 are
/// clipped, not wrapped, and only the rows actually drawn are read from
/// memory; reading past the end of memory is a fault that changes nothing.
///
/// The draw does not report pixel collisions in VF: no register moves.
pub open spec fn step_draw(s: Core, w: u16) -> Result<Core, Chip8Error> {
    let vx = (s.v[x_of(w) as int] % 64) as u8;
    let vy = (s.v[y_of(w) as int] % 32) as u8;
    let rows = min(n_of(w) as int, 32 - vy);
    if rows > 0 && s.i + rows > 4096 {
        Err(oob(s))
    } else {
        Ok(Core { fb: drawn_fb(s.fb, s.mem, s.i, vx, vy, rows), ..s })
    }
}

/// The effect of one family-F instruction.
pub open spec fn step_misc(cfg: ChipCfg, s: Core, w: u16, keys: u16) -> Result<
    Core,
    Chip8Error,
> {
    let x = x_of(w) as int;
    let nn = nn_of(w);
    let vx = s.v[x];
    if nn == 0x07 {
        Ok(Core { v: s.v.update(x, s.dt), ..s })
    } else if nn == 0x0A {
        if keys == 0 {
            Ok(Core { pc: sub16(s.pc, 2), ..s })
        } else {
            Ok(Core { v: s.v.update(x, first_key(keys)), ..s })
        }
    } else if nn == 0x15 {
        Ok(Core { dt: vx, ..s })
    } else if nn == 0x18 {
        Ok(Core { st: vx, ..s })
    } else if nn == 0x1E {
        if cfg.index_add_carry {
            Ok(
                Core {
                    i: add16(s.i, vx as u16),
                    v: s.v.update(
                        15,
                        if s.i <= 0xFFF && s.i + vx >= 0x1000 {
                            1u8
                        } else {
                            0u8
                        },
                    ),
                    ..s
                },
            )
        } else {
            Ok(Core { i: add16(s.i, vx as u16), ..s })
        }
    } else if nn == 0x29 {
        Ok(Core { i: (cfg.font_start + 5 * vx) as u16, ..s })
    } else if nn == 0x33 {
        if s.i + 2 >= 4096 {
            Err(oob(s))
        } else {
            Ok(
                Core {
                    mem: s.mem.update(s.i as int, vx / 100).update(
                        s.i + 1,
                        (vx / 10) % 10,
                    ).update(s.i + 2, vx % 10),
                    ..s
                },
            )
        }
    } else if nn == 0x55 {
        if s.i + x_of(w) >= 4096 {
            Err(oob(s))
        } else {
            Ok(
                Core {
                    mem: stored_mem(s.mem, s.v, s.i, x_of(w)),
                    i: if cfg.register_save_legacy {
                        (s.i + x_of(w) + 1) as u16
                    } else {
                        s.i
                    },
                    ..s
                },
            )
        }
    } else if nn == 0x65 {
        if s.i + x_of(w) >= 4096 {
            Err(oob(s))
        } else {
            Ok(
                Core {
                    v: loaded_regs(s.v, s.mem, s.i, x_of(w)),
                    i: if cfg.register_save_legacy {
                        (s.i + x_of(w) + 1) as u16
                    } else {
                        s.i
                    },
                    ..s
                },
            )
        }
    } else {
        Err(unknown(s, w))
    }
}

/// The exact effect of executing the instruction word `w` in state `s`:
/// either the next state, or a fault that leaves the state untouched.
///
/// `rnd` is the random byte CXNN masks, and `keys` is the key snapshot
/// EX9E, EXA1 and FX0A consult.  The program counter in `s` has already
/// been advanced past `w` by the fetch.
pub open spec fn step(cfg: ChipCfg, s: Core, w: u16, rnd: u8, keys: u16) -> Result<
    Core,
    Chip8Error,
> {
    let x = x_of(w) as int;
    let y = y_of(w) as int;
    let nn = nn_of(w) as u8;
    let nnn = nnn_of(w);
    let op = op_of(w);
    if op == 0 {
        if nnn == 0x0E0 {
            Ok(Core { fb: zero_fb(), ..s })
        } else if nnn == 0x0EE {
            if s.sp == 0 {
                Err(Chip8Error::StackUnderflow)
            } else {
                Ok(Core { pc: s.stack[s.sp - 1], sp: (s.sp - 1) as u8, ..s })
            }
        } else {
            Err(unknown(s, w))
        }
    } else if op == 1 {
        Ok(Core { pc: nnn, ..s })
    } else if op == 2 {
        if s.sp >= 32 {
            Err(Chip8Error::StackOverflow)
        } else {
            Ok(
                Core {
                    stack: s.stack.update(s.sp as int, s.pc),
                    sp: (s.sp + 1) as u8,
                    pc: nnn,
                    ..s
                },
            )
        }
    } else if op == 3 {
        Ok(skipped(s, s.v[x] == nn))
    } else if op == 4 {
        Ok(skipped(s, s.v[x] != nn))
    } else if op == 5 {
        Ok(skipped(s, s.v[x] == s.v[y]))
    } else if op == 6 {
        Ok(Core { v: s.v.update(x, nn), ..s })
    } else if op == 7 {
        Ok(Core { v: s.v.update(x, add8(s.v[x], nn)), ..s })
    } else if op == 8 {
        step_alu(s, w)
    } else if op == 9 {
        Ok(skipped(s, s.v[x] != s.v[y]))
    } else if op == 10 {
        Ok(Core { i: nnn, ..s })
    } else if op == 11 {
        let base = if cfg.jump_offset_legacy {
            s.v[0]
        } else {
            s.v[x]
        };
        Ok(Core { pc: (base + nnn) as u16, ..s })
    } else if op == 12 {
        Ok(Core { v: s.v.update(x, rnd & nn), ..s })
    } else if op == 13 {
        step_draw(s, w)
    } else if op == 14 {
        if nn == 0x9E {
            Ok(skipped(s, key_down(keys, s.v[x])))
        } else if nn == 0xA1 {
            Ok(skipped(s, !key_down(keys, s.v[x])))
        } else {
            Err(unknown(s, w))
        }
    } else {
        step_misc(cfg, s, w, keys)
    }
}

/// The key mask an optional snapshot stands for: no snapshot means no key
/// is held.
pub open spec fn keys_mask(keys: Option<&Keypad>) -> u16 {
    match keys {
        Some(k) => k.mask,
        None => 0,
    }
}

/// How an execution step's outcome `r` ties the state after the call to
/// the state before it: on success the machine moved to exactly the state
/// `step` gives; on a fault it reported exactly the error `step` gives and
/// did not move at all.
pub open spec fn step_rel(
    cfg: ChipCfg,
    pre: Core,
    post: Core,
    w: u16,
    rnd: u8,
    keys: u16,
    r: Result<(), Chip8Error>,
) -> bool {
    match step(cfg, pre, w, rnd, keys) {
        Ok(c) => r is Ok && post == c,
        Err(e) => r == Result::<(), Chip8Error>::Err(e) && post == pre,
    }
}

} // verus!
