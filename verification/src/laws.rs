//! Proved laws of the instruction set.
//!
//! Each public proof function here states a property that relates several
//! operations of the interpreter, over the same specification functions
//! that the executable methods are proved against.

use vstd::prelude::*;

use crate::semantics::{
    any_collision, cpu_wf, draw_grid, draw_pixel, first_pressed_from, flip_pixel, row_collides,
    row_collision_count, spec_add_vx, spec_call, spec_cls, spec_drw_vx_vy, spec_ld_vx, spec_ret,
    spec_step, sprite_bit, CpuView,
};
use crate::video::{fb_height, fb_width};
use vstd::arithmetic::div_mod::lemma_fundamental_div_mod_converse;

verus! {

/// Loading an immediate into a register and then reading that register
/// yields the immediate: for every `x`, `6xkk` followed by a read of
/// `Vx` gives `kk`.
pub proof fn lemma_load_then_read(s: CpuView, x: u8, kk: u8)
    requires
        cpu_wf(s),
        x < 16,
    ensures
        spec_ld_vx(s, x, kk).v[x as int] == kk,
{
}

/// Adding immediates composes modulo 256: `ADD Vx, kk1` followed by
/// `ADD Vx, kk2` leaves the same state as a single
/// `ADD Vx, (kk1 + kk2) mod 256`.
pub proof fn lemma_add_immediate_chain(s: CpuView, x: u8, kk1: u8, kk2: u8)
    requires
        cpu_wf(s),
        x < 16,
    ensures
        spec_add_vx(spec_add_vx(s, x, kk1), x, kk2) == spec_add_vx(
            s,
            x,
            ((kk1 as int + kk2 as int) % 256) as u8,
        ),
{
    let combined = ((kk1 as int + kk2 as int) % 256) as u8;
    assert(spec_add_vx(spec_add_vx(s, x, kk1), x, kk2).v =~= spec_add_vx(s, x, combined).v);
    assert(spec_add_vx(spec_add_vx(s, x, kk1), x, kk2) =~= spec_add_vx(s, x, combined));
}

/// After a clear, every framebuffer pixel reads zero and the changed
/// flag is raised.
pub proof fn lemma_cls_reads_zero(s: CpuView, x: int, y: int)
    requires
        cpu_wf(s),
        0 <= x < fb_width(s.fb.hires),
        0 <= y < fb_height(s.fb.hires),
    ensures
        spec_cls(s).fb.grid[y * fb_width(s.fb.hires) + x] == 0u8,
        spec_cls(s).vram_changed,
{
    if s.fb.hires {
        assert(0 <= y * 128 + x < 8192);
    } else {
        assert(0 <= y * 64 + x < 2048);
    }
}

/// A call followed by a return restores the program counter to its value
/// at the call — which the fetch had already advanced past the `CALL`
/// word — and leaves the stack, registers and memory as they were.
pub proof fn lemma_call_then_ret(s: CpuView, nnn: u16)
    requires
        cpu_wf(s),
        s.stack.len() < 16,
    ensures
        ({
            let (s1, f1) = spec_call(s, nnn);
            let (s2, f2) = spec_ret(s1);
            &&& f1 is None
            &&& f2 is None
            &&& s1.pc == nnn
            &&& s2.pc == s.pc
            &&& s2.stack == s.stack
            &&& s2.v == s.v
            &&& s2.ram == s.ram
            &&& s2.fb == s.fb
        }),
{
    let (s1, f1) = spec_call(s, nnn);
    assert(s1.stack.last() == s.pc);
    assert(s1.stack.drop_last() =~= s.stack);
}

/// Whether blitting `sprite` at `(x0, y0)` would turn at least one dark
/// pixel on.
pub open spec fn lights_pixel(
    grid: Seq<u8>,
    sprite: Seq<u8>,
    x0: int,
    y0: int,
    w: int,
    h: int,
) -> bool {
    exists|sy: int, sx: int|
        0 <= sy < sprite.len() && 0 <= sx < 8 && sprite_bit(sprite, sy, sx) == 1 && grid[((y0 + sy)
            % h) * w + ((x0 + sx) % w)] == 0
}

/// The screen position covered by sprite pixel `(sy, sx)` decomposes
/// back into exactly that sprite pixel: the wrapped offsets of the
/// position from the origin are `sy` and `sx` again.
proof fn lemma_cover_coords(x0: int, y0: int, w: int, h: int, sy: int, sx: int)
    requires
        (w == 64 && h == 32) || (w == 128 && h == 64),
        0 <= x0 < w,
        0 <= y0 < h,
        0 <= sy < 16,
        0 <= sx < 8,
    ensures
        ({
            let pos = ((y0 + sy) % h) * w + ((x0 + sx) % w);
            &&& 0 <= pos < w * h
            &&& pos % w == (x0 + sx) % w
            &&& pos / w == (y0 + sy) % h
            &&& (pos / w + h - y0) % h == sy
            &&& (pos % w + w - x0) % w == sx
        }),
{
    let pos = ((y0 + sy) % h) * w + ((x0 + sx) % w);
    lemma_fundamental_div_mod_converse(pos, w, (y0 + sy) % h, (x0 + sx) % w);
}

/// One pixel of the blit result, read back at a sprite-covered position:
/// the old pixel XORed with that sprite bit.
proof fn lemma_draw_pixel_at(
    grid: Seq<u8>,
    sprite: Seq<u8>,
    x0: int,
    y0: int,
    w: int,
    h: int,
    sy: int,
    sx: int,
)
    requires
        (w == 64 && h == 32) || (w == 128 && h == 64),
        grid.len() == w * h,
        sprite.len() <= 16,
        0 <= x0 < w,
        0 <= y0 < h,
        0 <= sy < sprite.len(),
        0 <= sx < 8,
    ensures
        ({
            let pos = ((y0 + sy) % h) * w + ((x0 + sx) % w);
            draw_grid(grid, sprite, x0, y0, w, h)[pos] == flip_pixel(
                grid[pos],
                sprite_bit(sprite, sy, sx),
            )
        }),
{
    lemma_cover_coords(x0, y0, w, h, sy, sx);
}

/// The row-collision count is bounded by the row count and is positive
/// exactly when some row collides.
proof fn lemma_count_positive_iff_any(
    grid: Seq<u8>,
    sprite: Seq<u8>,
    x0: int,
    y0: int,
    w: int,
    h: int,
    n: int,
)
    requires
        n >= 0,
    ensures
        0 <= row_collision_count(grid, sprite, x0, y0, w, h, n) <= n,
        (row_collision_count(grid, sprite, x0, y0, w, h, n) > 0) == any_collision(
            grid,
            sprite,
            x0,
            y0,
            w,
            h,
            n,
        ),
    decreases n,
{
    if n == 0 {
        assert(!any_collision(grid, sprite, x0, y0, w, h, 0));
    } else {
        lemma_count_positive_iff_any(grid, sprite, x0, y0, w, h, n - 1);
        if row_collides(grid, sprite, x0, y0, w, h, n - 1) {
            assert(any_collision(grid, sprite, x0, y0, w, h, n));
        } else if any_collision(grid, sprite, x0, y0, w, h, n - 1) {
            let q = choose|q: int| 0 <= q < n - 1 && row_collides(grid, sprite, x0, y0, w, h, q);
            assert(any_collision(grid, sprite, x0, y0, w, h, n));
        } else {
            assert(!any_collision(grid, sprite, x0, y0, w, h, n)) by {
                if any_collision(grid, sprite, x0, y0, w, h, n) {
                    let q = choose|q: int| 0 <= q < n && row_collides(grid, sprite, x0, y0, w, h, q);
                    if q < n - 1 {
                        assert(any_collision(grid, sprite, x0, y0, w, h, n - 1));
                    }
                }
            }
        }
    }
}

/// Drawing is involutive: blitting the identical sprite at the identical
/// position twice in a row restores every framebuffer pixel, because the
/// second XOR cancels the first. The flags register after the second
/// draw reports a collision exactly when the first draw turned at least
/// one pixel on. `Vx` and `Vy` must not be the flags register itself:
/// the first draw rewrites `VF`, which would move the second sprite.
pub proof fn lemma_draw_involutive(s: CpuView, x: u8, y: u8, n: u8)
    requires
        cpu_wf(s),
        x < 15,
        y < 15,
        n < 16,
        s.i as int + n as int <= 4096,
    ensures
        ({
            let (s1, f1) = spec_drw_vx_vy(s, x, y, n);
            let (s2, f2) = spec_drw_vx_vy(s1, x, y, n);
            let w = fb_width(s.fb.hires);
            let h = fb_height(s.fb.hires);
            let x0 = s.v[x as int] as int % w;
            let y0 = s.v[y as int] as int % h;
            let sprite = s.ram.subrange(s.i as int, s.i as int + n as int);
            &&& f1 is None
            &&& f2 is None
            &&& s2.fb.grid == s.fb.grid
            &&& ((s2.v[15] != 0) <==> lights_pixel(s.fb.grid, sprite, x0, y0, w, h))
        }),
{
    let (s1, f1) = spec_drw_vx_vy(s, x, y, n);
    let (s2, f2) = spec_drw_vx_vy(s1, x, y, n);
    let w = fb_width(s.fb.hires);
    let h = fb_height(s.fb.hires);
    let x0 = s.v[x as int] as int % w;
    let y0 = s.v[y as int] as int % h;
    let g = s.fb.grid;
    let sprite = s.ram.subrange(s.i as int, s.i as int + n as int);
    let g2 = draw_grid(g, sprite, x0, y0, w, h);

    assert(s1.v[x as int] == s.v[x as int]);
    assert(s1.v[y as int] == s.v[y as int]);
    assert(s1.ram == s.ram);
    assert(s1.fb.hires == s.fb.hires);
    assert(s1.fb.grid == g2);

    // The second blit undoes the first, pixel by pixel.
    assert forall|idx: int| 0 <= idx < g.len() implies draw_grid(g2, sprite, x0, y0, w, h)[idx]
        == g[idx] by {
        assert(draw_pixel(g2, sprite, x0, y0, w, h, idx) == flip_pixel(
            flip_pixel(g[idx], sprite_bit(sprite, (idx / w + h - y0) % h, (idx % w + w - x0) % w)),
            sprite_bit(sprite, (idx / w + h - y0) % h, (idx % w + w - x0) % w),
        ) || draw_pixel(g2, sprite, x0, y0, w, h, idx) == g[idx]);
    }
    assert(s2.fb.grid =~= g);

    // The second draw's collision is exactly a pixel the first turned on.
    if any_collision(g2, sprite, x0, y0, w, h, n as int) {
        let sy = choose|sy: int|
            0 <= sy < n as int && row_collides(g2, sprite, x0, y0, w, h, sy);
        let sx = choose|sx: int|
            0 <= sx < 8 && sprite_bit(sprite, sy, sx) == 1 && g2[((y0 + sy) % h) * w + ((x0 + sx)
                % w)] == 1;
        lemma_draw_pixel_at(g, sprite, x0, y0, w, h, sy, sx);
        let pos = ((y0 + sy) % h) * w + ((x0 + sx) % w);
        lemma_cover_coords(x0, y0, w, h, sy, sx);
        assert(g2[pos] == flip_pixel(g[pos], 1));
        assert(g[pos] == 0);
        assert(lights_pixel(g, sprite, x0, y0, w, h));
    }
    if lights_pixel(g, sprite, x0, y0, w, h) {
        let (sy, sx) = choose|sy: int, sx: int|
            0 <= sy < sprite.len() && 0 <= sx < 8 && sprite_bit(sprite, sy, sx) == 1 && g[((y0 + sy)
                % h) * w + ((x0 + sx) % w)] == 0;
        lemma_draw_pixel_at(g, sprite, x0, y0, w, h, sy, sx);
        let pos = ((y0 + sy) % h) * w + ((x0 + sx) % w);
        lemma_cover_coords(x0, y0, w, h, sy, sx);
        assert(g2[pos] == flip_pixel(g[pos], 1));
        assert(g2[pos] == 1);
        assert(row_collides(g2, sprite, x0, y0, w, h, sy));
        assert(any_collision(g2, sprite, x0, y0, w, h, n as int));
    }
    lemma_count_positive_iff_any(g2, sprite, x0, y0, w, h, n as int);
    if s.schip_mode {
        assert(s2.v[15] as int == row_collision_count(g2, sprite, x0, y0, w, h, n as int));
    }
}

/// A scan that starts below every pressed key finds none.
proof fn lemma_no_key_pressed(keys: Seq<bool>, k: int)
    requires
        keys.len() == 16,
        0 <= k <= 16,
        forall|q: int| k <= q < 16 ==> !keys[q],
    ensures
        first_pressed_from(keys, k) is None,
    decreases 16 - k,
{
    if k < 16 {
        lemma_no_key_pressed(keys, k + 1);
    }
}

/// A scan from `j` finds `k`, the lowest pressed key at or above `j`.
proof fn lemma_first_pressed_found(keys: Seq<bool>, j: int, k: int)
    requires
        keys.len() == 16,
        0 <= j <= k < 16,
        keys[k],
        forall|q: int| j <= q < k ==> !keys[q],
    ensures
        first_pressed_from(keys, j) == Some(k),
    decreases k - j,
{
    if j < k {
        lemma_first_pressed_found(keys, j + 1, k);
    }
}

/// While a key wait is pending and no key is pressed, a tick advances
/// nothing: the program counter, registers, timers and wait state all
/// stay put.
pub proof fn lemma_key_wait_blocks(s: CpuView, rand_byte: u8)
    requires
        cpu_wf(s),
        s.waiting_for_key,
        forall|k: int| 0 <= k < 16 ==> !s.keys[k],
    ensures
        ({
            let (t, f) = spec_step(s, rand_byte);
            &&& f is None
            &&& t == (CpuView { vram_changed: false, ..s })
            &&& t.pc == s.pc
            &&& t.v == s.v
            &&& t.waiting_for_key
            &&& t.delay == s.delay
            &&& t.sound == s.sound
        }),
{
    lemma_no_key_pressed(s.keys, 0);
}

/// Once a key is pressed during a key wait, the tick stores the lowest
/// pressed key's index in the recorded target register, ends the wait,
/// and still advances nothing else: execution resumes only on the next
/// tick.
pub proof fn lemma_key_wait_resumes(s: CpuView, rand_byte: u8, k: int)
    requires
        cpu_wf(s),
        s.waiting_for_key,
        0 <= k < 16,
        s.keys[k],
        forall|q: int| 0 <= q < k ==> !s.keys[q],
    ensures
        ({
            let (t, f) = spec_step(s, rand_byte);
            &&& f is None
            &&& !t.waiting_for_key
            &&& t.v == s.v.update(s.key_register as int, k as u8)
            &&& t.pc == s.pc
            &&& t.delay == s.delay
            &&& t.sound == s.sound
        }),
{
    lemma_first_pressed_found(s.keys, 0, k);
}

} // verus!
