//! The monochrome framebuffer: a 64x32 grid of cells, each 0 or 1. Sprites
//! are composed onto it by exclusive-or, eight pixels per sprite byte with
//! the most significant bit leftmost, and coordinates wrap around both edges
//! (a toroidal draw). A draw reports a collision when it clears at least one
//! cell that was set.

use vstd::prelude::*;

verus! {

use vstd::arithmetic::div_mod::{
    lemma_add_mod_noop_right,
    lemma_fundamental_div_mod,
    lemma_fundamental_div_mod_converse,
    lemma_small_mod,
    lemma_sub_mod_noop,
    lemma_sub_mod_noop_right,
};
use vstd::pervasive::VecAdditionalExecFns;

/// The pixel grid. `vram[p]` is row `p / 64`, column `p % 64`.
pub struct Gpu {
    /// Grid width in pixels.
    pub width: usize,
    /// Grid height in pixels.
    pub height: usize,
    /// One byte per pixel, each 0 or 1, rows laid out consecutively.
    pub vram: Vec<u8>,
}

impl Gpu {
    /// The grid is 64x32 and every cell is 0 or 1.
    pub open spec fn wf(&self) -> bool {
        &&& self.width == 64
        &&& self.height == 32
        &&& self.vram@.len() == 2048
        &&& forall|p: int| 0 <= p < 2048 ==> self.vram@[p] <= 1
    }
}

/// The sprite row that lands on grid row `p / 64`, for a sprite drawn at
/// vertical position `y`: the unique `r` in `[0, 32)` with
/// `(y + r) % 32 == p / 64`.
pub open spec fn sprite_row(y: u8, p: int) -> int {
    (p / 64 - y as int) % 32
}

/// The sprite column that lands on grid column `p % 64`, for a sprite drawn
/// at horizontal position `x`: the unique `c` in `[0, 64)` with
/// `(x + c) % 64 == p % 64`.
pub open spec fn sprite_col(x: u8, p: int) -> int {
    (p % 64 - x as int) % 64
}

/// Whether bit `c` (counting from the most significant) of sprite byte `r`
/// is set.
pub open spec fn sprite_bit(mem: Seq<u8>, addr: int, r: int, c: int) -> bool {
    (mem[addr + r] >> (7 - c) as u8) & 1 == 1
}

/// Whether pixel `p` is toggled by the part of the sprite strictly before
/// row `row`, column `col` of row `row` (scanning rows outward, columns
/// within a row).
pub open spec fn flips_before(
    mem: Seq<u8>,
    addr: int,
    x: u8,
    y: u8,
    p: int,
    row: int,
    col: int,
) -> bool {
    let r = sprite_row(y, p);
    let c = sprite_col(x, p);
    &&& c < 8
    &&& (r < row || (r == row && c < col))
    &&& sprite_bit(mem, addr, r, c)
}

/// Whether pixel `p` is toggled by an `n`-byte sprite at `(x, y)` whose
/// bytes sit at `mem[addr .. addr + n]`.
pub open spec fn flips(mem: Seq<u8>, addr: int, x: u8, y: u8, n: u8, p: int) -> bool {
    flips_before(mem, addr, x, y, p, n as int, 0)
}

/// Whether an `n`-byte sprite drawn at `(x, y)` would invert at least one
/// pixel that is currently set.
pub open spec fn draw_collides(pre: Gpu, mem: Seq<u8>, addr: int, n: u8, x: u8, y: u8) -> bool {
    exists|p: int| 0 <= p < 2048 && flips(mem, addr, x, y, n, p) && pre.vram@[p] == 1
}

/// The exact effect of one sprite draw: every covered pixel with a set
/// sprite bit is inverted, every other pixel is untouched, and `collision`
/// holds exactly when some inverted pixel was set beforehand.
pub open spec fn post_draw(
    pre: Gpu,
    post: Gpu,
    mem: Seq<u8>,
    addr: int,
    n: u8,
    x: u8,
    y: u8,
    collision: bool,
) -> bool {
    &&& post.width == pre.width
    &&& post.height == pre.height
    &&& post.vram@.len() == pre.vram@.len()
    &&& forall|p: int|
        0 <= p < 2048 ==> post.vram@[p] == (if flips(mem, addr, x, y, n, p) {
            if pre.vram@[p] == 0 {
                1u8
            } else {
                0u8
            }
        } else {
            pre.vram@[p]
        })
    &&& collision == draw_collides(pre, mem, addr, n, x, y)
}

/// For `0 <= k < m` and `0 <= t < m`, the position `t` is hit by offset `k`
/// from base `a` exactly when `k` is the wrapped distance from `a` to `t`.
proof fn lemma_mod_window(a: int, k: int, t: int, m: int)
    requires
        0 < m,
        0 <= a,
        0 <= k < m,
        0 <= t < m,
    ensures
        (t == (a + k) % m) <==> ((t - a) % m == k),
{
    lemma_sub_mod_noop(a + k, a, m);
    lemma_sub_mod_noop_right((a + k) % m, a, m);
    lemma_small_mod(k as nat, m as nat);
    lemma_small_mod(t as nat, m as nat);
    lemma_add_mod_noop_right(a, t - a, m);
}

/// The pixel a sprite cell `(row, col)` lands on, and that it is the only
/// pixel whose wrapped distances from `(x, y)` are `(row, col)`.
proof fn lemma_target_coords(x: u8, y: u8, row: int, col: int, p: int)
    requires
        0 <= row < 32,
        0 <= col < 8,
        p == ((y as int + row) % 32) * 64 + ((x as int + col) % 64),
    ensures
        0 <= p < 2048,
        sprite_row(y, p) == row,
        sprite_col(x, p) == col,
        forall|q: int|
            0 <= q < 2048 && sprite_row(y, q) == row && sprite_col(x, q) == col ==> q == p,
{
    let ty = (y as int + row) % 32;
    let tx = (x as int + col) % 64;
    lemma_fundamental_div_mod_converse(p, 64, ty, tx);
    lemma_mod_window(y as int, row, ty, 32);
    lemma_mod_window(x as int, col, tx, 64);
    assert forall|q: int|
        0 <= q < 2048 && sprite_row(y, q) == row && sprite_col(x, q) == col implies q == p by {
        lemma_fundamental_div_mod(q, 64);
        lemma_mod_window(y as int, row, q / 64, 32);
        lemma_mod_window(x as int, col, q % 64, 64);
    }
}

impl Gpu {
    /// A blank 64x32 framebuffer.
    pub fn new() -> (g: Gpu)
        ensures
            g.wf(),
            forall|p: int| 0 <= p < 2048 ==> g.vram@[p] == 0,
    {
        let mut vram: Vec<u8> = Vec::new();
        let mut k: usize = 0;
        while k < 2048
            invariant
                k <= 2048,
                vram@.len() == k,
                forall|p: int| 0 <= p < k ==> vram@[p] == 0,
            decreases 2048 - k,
        {
            vram.push(0);
            k += 1;
        }
        Gpu { width: 64, height: 32, vram }
    }

    /// Clears every pixel.
    pub fn clear(&mut self)
        requires
            old(self).wf(),
        ensures
            final(self).wf(),
            forall|p: int| 0 <= p < 2048 ==> final(self).vram@[p] == 0,
    {
        let mut k: usize = 0;
        while k < 2048
            invariant
                self.wf(),
                k <= 2048,
                forall|p: int| 0 <= p < k ==> self.vram@[p] == 0,
            decreases 2048 - k,
        {
            self.vram.set(k, 0);
            k += 1;
        }
    }

    /// Clears every pixel; the state after a machine reset.
    pub fn reset(&mut self)
        requires
            old(self).wf(),
        ensures
            final(self).wf(),
            forall|p: int| 0 <= p < 2048 ==> final(self).vram@[p] == 0,
    {
        self.clear();
    }

    /// Composes an `n`-byte sprite from `memory[addr ..]` onto the grid at
    /// `(x, y)` by exclusive-or, wrapping around both edges, and reports
    /// whether any set pixel was cleared.
    pub fn draw_sprite(&mut self, memory: &[u8], addr: u16, n: u8, x: u8, y: u8) -> (collision:
        bool)
        requires
            old(self).wf(),
            n <= 15,
            addr as int + n as int <= memory@.len(),
        ensures
            final(self).wf(),
            post_draw(*old(self), *final(self), memory@, addr as int, n, x, y, collision),
    {
        let ghost pre = *old(self);
        let ghost mem = memory@;
        let mut collision = false;
        let mut row: u8 = 0;
        while row < n
            invariant
                self.wf(),
                pre.wf(),
                row <= n,
                n <= 15,
                addr as int + n as int <= mem.len(),
                mem == memory@,
                self.width == pre.width,
                self.height == pre.height,
                self.vram@.len() == pre.vram@.len(),
                forall|p: int|
                    0 <= p < 2048 ==> self.vram@[p] == (if flips_before(
                        mem,
                        addr as int,
                        x,
                        y,
                        p,
                        row as int,
                        0,
                    ) {
                        if pre.vram@[p] == 0 {
                            1u8
                        } else {
                            0u8
                        }
                    } else {
                        pre.vram@[p]
                    }),
                collision == exists|p: int|
                    0 <= p < 2048 && flips_before(mem, addr as int, x, y, p, row as int, 0)
                        && pre.vram@[p] == 1,
            decreases n - row,
        {
            let byte = memory[addr as usize + row as usize];
            let ty: usize = ((y as usize) + (row as usize)) % 32;
            let mut col: u8 = 0;
            while col < 8
                invariant
                    self.wf(),
                    pre.wf(),
                    row < n,
                    n <= 15,
                    col <= 8,
                    addr as int + n as int <= mem.len(),
                    mem == memory@,
                    byte == mem[addr as int + row as int],
                    ty == (y as int + row as int) % 32,
                    self.width == pre.width,
                    self.height == pre.height,
                    self.vram@.len() == pre.vram@.len(),
                    forall|p: int|
                        0 <= p < 2048 ==> self.vram@[p] == (if flips_before(
                            mem,
                            addr as int,
                            x,
                            y,
                            p,
                            row as int,
                            col as int,
                        ) {
                            if pre.vram@[p] == 0 {
                                1u8
                            } else {
                                0u8
                            }
                        } else {
                            pre.vram@[p]
                        }),
                    collision == exists|p: int|
                        0 <= p < 2048 && flips_before(
                            mem,
                            addr as int,
                            x,
                            y,
                            p,
                            row as int,
                            col as int,
                        ) && pre.vram@[p] == 1,
                decreases 8 - col,
            {
                let tx: usize = ((x as usize) + (col as usize)) % 64;
                let idx: usize = ty * 64 + tx;
                let ghost a = addr as int;
                let ghost r0 = row as int;
                let ghost c0 = col as int;
                proof {
                    lemma_target_coords(x, y, r0, c0, idx as int);
                    assert forall|p: int| 0 <= p < 2048 && p != idx as int implies flips_before(
                        mem,
                        a,
                        x,
                        y,
                        p,
                        r0,
                        c0 + 1,
                    ) == flips_before(mem, a, x, y, p, r0, c0) by {
                        assert(sprite_row(y, p) == r0 && sprite_col(x, p) == c0
                            ==> p == idx as int);
                    }
                }
                if (byte >> (7 - col)) & 1 == 1 {
                    let cell = self.vram[idx];
                    proof {
                        assert(!flips_before(mem, a, x, y, idx as int, r0, c0));
                        assert(cell == pre.vram@[idx as int]);
                        assert(flips_before(mem, a, x, y, idx as int, r0, c0 + 1));
                    }
                    if cell == 1 {
                        collision = true;
                        proof {
                            assert(idx < 2048 && flips_before(
                                mem,
                                a,
                                x,
                                y,
                                idx as int,
                                r0,
                                c0 + 1,
                            ) && pre.vram@[idx as int] == 1);
                        }
                    } else {
                        proof {
                            if collision {
                                let w = choose|p: int|
                                    0 <= p < 2048 && flips_before(mem, a, x, y, p, r0, c0)
                                        && pre.vram@[p] == 1;
                                assert(flips_before(mem, a, x, y, w, r0, c0 + 1));
                            } else {
                                assert forall|p: int|
                                    0 <= p < 2048 && flips_before(mem, a, x, y, p, r0, c0 + 1)
                                        && pre.vram@[p] == 1 implies false by {
                                    assert(p != idx as int);
                                    assert(flips_before(mem, a, x, y, p, r0, c0));
                                }
                            }
                        }
                    }
                    self.vram.set(idx, if cell == 0 { 1 } else { 0 });
                } else {
                    proof {
                        assert(!sprite_bit(mem, a, r0, c0));
                        assert forall|p: int| 0 <= p < 2048 implies flips_before(
                            mem,
                            a,
                            x,
                            y,
                            p,
                            r0,
                            c0 + 1,
                        ) == flips_before(mem, a, x, y, p, r0, c0) by {
                            if p == idx as int {
                                assert(!flips_before(mem, a, x, y, p, r0, c0 + 1));
                                assert(!flips_before(mem, a, x, y, p, r0, c0));
                            }
                        }
                        if collision {
                            let w = choose|p: int|
                                0 <= p < 2048 && flips_before(mem, a, x, y, p, r0, c0)
                                    && pre.vram@[p] == 1;
                            assert(flips_before(mem, a, x, y, w, r0, c0 + 1));
                        } else {
                            assert forall|p: int|
                                0 <= p < 2048 && flips_before(mem, a, x, y, p, r0, c0 + 1)
                                    && pre.vram@[p] == 1 implies false by {
                                assert(flips_before(mem, a, x, y, p, r0, c0));
                            }
                        }
                    }
                }
                col += 1;
            }
            proof {
                assert forall|p: int| 0 <= p < 2048 implies flips_before(
                    mem,
                    addr as int,
                    x,
                    y,
                    p,
                    row as int,
                    8,
                ) == flips_before(mem, addr as int, x, y, p, row as int + 1, 0) by {}
                if collision {
                    let w = choose|p: int|
                        0 <= p < 2048 && flips_before(mem, addr as int, x, y, p, row as int, 8)
                            && pre.vram@[p] == 1;
                    assert(flips_before(mem, addr as int, x, y, w, row as int + 1, 0));
                } else {
                    assert forall|p: int|
                        0 <= p < 2048 && flips_before(mem, addr as int, x, y, p, row as int + 1, 0)
                            && pre.vram@[p] == 1 implies false by {
                        assert(flips_before(mem, addr as int, x, y, p, row as int, 8));
                    }
                }
            }
            row += 1;
        }
        collision
    }
}

/// Drawing the same sprite twice at the same position restores every pixel,
/// and the second draw reports a collision exactly when the sprite sets at
/// least one pixel that was clear at the start (every pixel the first draw
/// turned on collides on the second pass).
pub proof fn lemma_draw_twice_restores(
    g0: Gpu,
    g1: Gpu,
    g2: Gpu,
    mem: Seq<u8>,
    addr: int,
    n: u8,
    x: u8,
    y: u8,
    c1: bool,
    c2: bool,
)
    requires
        g0.wf(),
        post_draw(g0, g1, mem, addr, n, x, y, c1),
        post_draw(g1, g2, mem, addr, n, x, y, c2),
    ensures
        g2.vram@ =~= g0.vram@,
        c2 == exists|p: int| 0 <= p < 2048 && flips(mem, addr, x, y, n, p) && g0.vram@[p] == 0,
{
    assert forall|p: int| 0 <= p < 2048 implies g2.vram@[p] == g0.vram@[p] by {}
    if c2 {
        let p = choose|p: int|
            0 <= p < 2048 && flips(mem, addr, x, y, n, p) && g1.vram@[p] == 1;
        assert(g0.vram@[p] == 0);
    }
    if exists|p: int| 0 <= p < 2048 && flips(mem, addr, x, y, n, p) && g0.vram@[p] == 0 {
        let p = choose|p: int|
            0 <= p < 2048 && flips(mem, addr, x, y, n, p) && g0.vram@[p] == 0;
        assert(g1.vram@[p] == 1);
    }
}

} // verus!
