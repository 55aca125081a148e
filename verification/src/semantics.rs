//! The mathematical semantics of the instruction set.
//!
//! `CpuView` is the value of the whole interpreter state. Every opcode is
//! given meaning by a function from `CpuView` to `CpuView` (paired with an
//! optional fault); `spec_step` composes the key-wait protocol, the timer
//! decrements, the fetch and the dispatch into the meaning of one tick.
//! The executable interpreter in `cpu` is proved to follow these functions
//! exactly.

use vstd::prelude::*;

use crate::decode::{spec_decode, Instruction};
use crate::timer::tick_down;
use crate::video::{fb_blank, fb_height, fb_wf, fb_width, FbView};
use crate::Fault;

verus! {

/// The complete state of the interpreter, as mathematical values.
#[verifier::ext_equal]
pub struct CpuView {
    /// Configuration: SCHIP opcodes and variant semantics enabled.
    pub schip_mode: bool,
    /// Raised by the SCHIP `EXIT` opcode.
    pub quit_flag: bool,
    /// The 4096 bytes of RAM.
    pub ram: Seq<u8>,
    /// The framebuffer.
    pub fb: FbView,
    /// Whether a drawing opcode ran since the last consumer read.
    pub vram_changed: bool,
    /// The sixteen general registers.
    pub v: Seq<u8>,
    /// The index register.
    pub i: u16,
    /// The program counter.
    pub pc: u16,
    /// The call stack, oldest first.
    pub stack: Seq<u16>,
    /// The delay timer.
    pub delay: u8,
    /// The sound timer.
    pub sound: u8,
    /// The key latch.
    pub keys: Seq<bool>,
    /// Target register of a pending key wait.
    pub key_register: u8,
    /// Whether a key wait is pending.
    pub waiting_for_key: bool,
}

/// A well-formed interpreter state.
pub open spec fn cpu_wf(s: CpuView) -> bool {
    &&& s.ram.len() == 4096
    &&& s.v.len() == 16
    &&& s.stack.len() <= 16
    &&& s.keys.len() == 16
    &&& s.key_register < 16
    &&& fb_wf(s.fb)
}

/// 8-bit addition, wrapping modulo 256.
pub open spec fn wrap_add8(a: u8, b: u8) -> u8 {
    ((a as int + b as int) % 256) as u8
}

/// 8-bit subtraction, wrapping modulo 256.
pub open spec fn wrap_sub8(a: u8, b: u8) -> u8 {
    ((a as int - b as int + 256) % 256) as u8
}

/// 16-bit addition, wrapping modulo 65536.
pub open spec fn wrap_add16(a: u16, b: u16) -> u16 {
    ((a as int + b as int) % 0x10000) as u16
}

/// The program counter after skipping one instruction.
pub open spec fn skip_pc(pc: u16) -> u16 {
    wrap_add16(pc, 2)
}

/// The weight of the bit at `pos` (counted from the least significant).
pub open spec fn bit_weight(pos: int) -> int {
    if pos == 0 {
        1
    } else if pos == 1 {
        2
    } else if pos == 2 {
        4
    } else if pos == 3 {
        8
    } else if pos == 4 {
        16
    } else if pos == 5 {
        32
    } else if pos == 6 {
        64
    } else {
        128
    }
}

/// The bit of `byte` at `pos`, as 0 or 1; 0 outside the byte.
pub open spec fn spec_bit(byte: u8, pos: int) -> u8 {
    if 0 <= pos < 8 {
        ((byte as int / bit_weight(pos)) % 2) as u8
    } else {
        0u8
    }
}

/// Pixel bit `sx` (0 = leftmost) of sprite row `sy`.
pub open spec fn sprite_bit(sprite: Seq<u8>, sy: int, sx: int) -> u8 {
    spec_bit(sprite[sy], 7 - sx)
}

/// XOR of two pixel bits.
pub open spec fn flip_pixel(p: u8, b: u8) -> u8 {
    if b == 1 {
        if p == 1 {
            0u8
        } else {
            1u8
        }
    } else {
        p
    }
}

/// One pixel of the grid after blitting `sprite` at `(x0, y0)` with
/// toroidal wraparound. `idx` addresses the pixel row-major; the sprite
/// covers it when its wrapped offsets from the origin fall inside the
/// sprite's 8-wide, `sprite.len()`-tall box.
pub open spec fn draw_pixel(
    grid: Seq<u8>,
    sprite: Seq<u8>,
    x0: int,
    y0: int,
    w: int,
    h: int,
    idx: int,
) -> u8 {
    let xx = idx % w;
    let yy = idx / w;
    let dy = (yy + h - y0) % h;
    let dx = (xx + w - x0) % w;
    if dy < sprite.len() && dx < 8 {
        flip_pixel(grid[idx], sprite_bit(sprite, dy, dx))
    } else {
        grid[idx]
    }
}

/// The whole grid after blitting `sprite` at `(x0, y0)`.
pub open spec fn draw_grid(grid: Seq<u8>, sprite: Seq<u8>, x0: int, y0: int, w: int, h: int) -> Seq<
    u8,
> {
    Seq::new(grid.len(), |idx: int| draw_pixel(grid, sprite, x0, y0, w, h, idx))
}

/// Whether one of the first `bound` pixels of sprite row `sy` erases a
/// lit pixel.
pub open spec fn row_collides_upto(
    grid: Seq<u8>,
    sprite: Seq<u8>,
    x0: int,
    y0: int,
    w: int,
    h: int,
    sy: int,
    bound: int,
) -> bool {
    exists|sx: int|
        0 <= sx < bound && sprite_bit(sprite, sy, sx) == 1 && grid[((y0 + sy) % h) * w + ((x0 + sx)
            % w)] == 1
}

/// Whether sprite row `sy` erases at least one lit pixel.
pub open spec fn row_collides(
    grid: Seq<u8>,
    sprite: Seq<u8>,
    x0: int,
    y0: int,
    w: int,
    h: int,
    sy: int,
) -> bool {
    row_collides_upto(grid, sprite, x0, y0, w, h, sy, 8)
}

/// How many of the first `n` sprite rows erase a lit pixel.
pub open spec fn row_collision_count(
    grid: Seq<u8>,
    sprite: Seq<u8>,
    x0: int,
    y0: int,
    w: int,
    h: int,
    n: int,
) -> int
    decreases n,
{
    if n <= 0 {
        0
    } else {
        row_collision_count(grid, sprite, x0, y0, w, h, n - 1) + if row_collides(
            grid,
            sprite,
            x0,
            y0,
            w,
            h,
            n - 1,
        ) {
            1int
        } else {
            0int
        }
    }
}

/// Whether any sprite row erases a lit pixel.
pub open spec fn any_collision(
    grid: Seq<u8>,
    sprite: Seq<u8>,
    x0: int,
    y0: int,
    w: int,
    h: int,
    n: int,
) -> bool {
    exists|sy: int| 0 <= sy < n && row_collides(grid, sprite, x0, y0, w, h, sy)
}

/// The flags register value a draw leaves behind: in SCHIP mode the number
/// of colliding rows, otherwise 1 on any collision.
pub open spec fn draw_flag(
    schip: bool,
    grid: Seq<u8>,
    sprite: Seq<u8>,
    x0: int,
    y0: int,
    w: int,
    h: int,
    n: int,
) -> u8 {
    if schip {
        row_collision_count(grid, sprite, x0, y0, w, h, n) as u8
    } else if any_collision(grid, sprite, x0, y0, w, h, n) {
        1u8
    } else {
        0u8
    }
}

/// `00E0`: zero the framebuffer, mark it changed.
pub open spec fn spec_cls(s: CpuView) -> CpuView {
    CpuView { fb: FbView { hires: s.fb.hires, grid: fb_blank(s.fb.hires) }, vram_changed: true, ..s }
}

/// `00EE`: pop the call stack into the program counter; underflow is fatal.
pub open spec fn spec_ret(s: CpuView) -> (CpuView, Option<Fault>) {
    if s.stack.len() == 0 {
        (s, Some(Fault::StackUnderflow))
    } else {
        (CpuView { pc: s.stack.last(), stack: s.stack.drop_last(), ..s }, None)
    }
}

/// `00FD`: raise the quit flag; a reported no-op outside SCHIP mode.
pub open spec fn spec_exit(s: CpuView) -> CpuView {
    if s.schip_mode {
        CpuView { quit_flag: true, ..s }
    } else {
        s
    }
}

/// `00FE`/`00FF`: select the resolution, blanking the reallocated grid; a
/// reported no-op outside SCHIP mode.
pub open spec fn spec_set_res(s: CpuView, hires: bool) -> CpuView {
    if s.schip_mode {
        CpuView { fb: FbView { hires, grid: fb_blank(hires) }, vram_changed: true, ..s }
    } else {
        s
    }
}

/// `1nnn`: jump.
pub open spec fn spec_jp(s: CpuView, nnn: u16) -> CpuView {
    CpuView { pc: nnn, ..s }
}

/// `2nnn`: push the current program counter and jump; a seventeenth
/// pending call is fatal.
pub open spec fn spec_call(s: CpuView, nnn: u16) -> (CpuView, Option<Fault>) {
    if s.stack.len() >= 16 {
        (s, Some(Fault::StackOverflow))
    } else {
        (CpuView { stack: s.stack.push(s.pc), pc: nnn, ..s }, None)
    }
}

/// `3xkk`: skip the next instruction when `Vx == kk`.
pub open spec fn spec_se_vx(s: CpuView, x: u8, kk: u8) -> CpuView {
    if s.v[x as int] == kk {
        CpuView { pc: skip_pc(s.pc), ..s }
    } else {
        s
    }
}

/// `4xkk`: skip the next instruction when `Vx != kk`.
pub open spec fn spec_sne_vx(s: CpuView, x: u8, kk: u8) -> CpuView {
    if s.v[x as int] != kk {
        CpuView { pc: skip_pc(s.pc), ..s }
    } else {
        s
    }
}

/// `5xy0`: skip the next instruction when `Vx == Vy`.
pub open spec fn spec_se_vx_vy(s: CpuView, x: u8, y: u8) -> CpuView {
    if s.v[x as int] == s.v[y as int] {
        CpuView { pc: skip_pc(s.pc), ..s }
    } else {
        s
    }
}

/// `9xy0`: skip the next instruction when `Vx != Vy`.
pub open spec fn spec_sne_vx_vy(s: CpuView, x: u8, y: u8) -> CpuView {
    if s.v[x as int] != s.v[y as int] {
        CpuView { pc: skip_pc(s.pc), ..s }
    } else {
        s
    }
}

/// `6xkk`: load the immediate into `Vx`.
pub open spec fn spec_ld_vx(s: CpuView, x: u8, kk: u8) -> CpuView {
    CpuView { v: s.v.update(x as int, kk), ..s }
}

/// `7xkk`: add the immediate to `Vx`, wrapping, with no flag side effect.
pub open spec fn spec_add_vx(s: CpuView, x: u8, kk: u8) -> CpuView {
    CpuView { v: s.v.update(x as int, wrap_add8(s.v[x as int], kk)), ..s }
}

/// `8xy0`: copy `Vy` into `Vx`.
pub open spec fn spec_ld_vx_vy(s: CpuView, x: u8, y: u8) -> CpuView {
    CpuView { v: s.v.update(x as int, s.v[y as int]), ..s }
}

/// `8xy1`: bitwise or into `Vx`.
pub open spec fn spec_or_vx_vy(s: CpuView, x: u8, y: u8) -> CpuView {
    CpuView { v: s.v.update(x as int, s.v[x as int] | s.v[y as int]), ..s }
}

/// `8xy2`: bitwise and into `Vx`.
pub open spec fn spec_and_vx_vy(s: CpuView, x: u8, y: u8) -> CpuView {
    CpuView { v: s.v.update(x as int, s.v[x as int] & s.v[y as int]), ..s }
}

/// `8xy3`: bitwise exclusive or into `Vx`.
pub open spec fn spec_xor_vx_vy(s: CpuView, x: u8, y: u8) -> CpuView {
    CpuView { v: s.v.update(x as int, s.v[x as int] ^ s.v[y as int]), ..s }
}

/// `8xy4`: `Vx := Vx + Vy` wrapping; then `VF := 1` exactly when the
/// 9-bit sum exceeded 255.
pub open spec fn spec_add_vx_vy(s: CpuView, x: u8, y: u8) -> CpuView {
    let sum = s.v[x as int] as int + s.v[y as int] as int;
    let v1 = s.v.update(x as int, (sum % 256) as u8);
    CpuView {
        v: v1.update(
            15,
            if sum > 255 {
                1u8
            } else {
                0u8
            },
        ),
        ..s
    }
}

/// `8xy5`: `VF := 1` exactly when `Vx > Vy` beforehand; then
/// `Vx := Vx - Vy` wrapping, reading the registers after the flag write.
pub open spec fn spec_sub_vx_vy(s: CpuView, x: u8, y: u8) -> CpuView {
    let v1 = s.v.update(
        15,
        if s.v[x as int] > s.v[y as int] {
            1u8
        } else {
            0u8
        },
    );
    CpuView { v: v1.update(x as int, wrap_sub8(v1[x as int], v1[y as int])), ..s }
}

/// `8xy7`: `Vx := Vy - Vx` wrapping; then `VF := 1` exactly when
/// `Vy > Vx` beforehand.
pub open spec fn spec_subn_vx_vy(s: CpuView, x: u8, y: u8) -> CpuView {
    let v1 = s.v.update(x as int, wrap_sub8(s.v[y as int], s.v[x as int]));
    CpuView {
        v: v1.update(
            15,
            if s.v[y as int] > s.v[x as int] {
                1u8
            } else {
                0u8
            },
        ),
        ..s
    }
}

/// The register a shift reads: `Vx` itself under SCHIP, `Vy` on base
/// CHIP-8.
pub open spec fn shift_source(schip: bool, x: u8, y: u8) -> u8 {
    if schip {
        x
    } else {
        y
    }
}

/// `8xy6`: `VF :=` the low bit of the shift source; then `Vx :=` the
/// source (read after the flag write) shifted right once.
pub open spec fn spec_shr_vx_vy(s: CpuView, x: u8, y: u8) -> CpuView {
    let src = shift_source(s.schip_mode, x, y);
    let v1 = s.v.update(15, (s.v[src as int] as int % 2) as u8);
    CpuView { v: v1.update(x as int, (v1[src as int] as int / 2) as u8), ..s }
}

/// `8xyE`: `VF :=` the high bit of the shift source; then `Vx :=` the
/// source (read after the flag write) shifted left once, wrapping.
pub open spec fn spec_shl_vx_vy(s: CpuView, x: u8, y: u8) -> CpuView {
    let src = shift_source(s.schip_mode, x, y);
    let v1 = s.v.update(15, (s.v[src as int] as int / 128) as u8);
    CpuView { v: v1.update(x as int, (v1[src as int] as int * 2 % 256) as u8), ..s }
}

/// `Annn`: load the index register.
pub open spec fn spec_ld_i(s: CpuView, nnn: u16) -> CpuView {
    CpuView { i: nnn, ..s }
}

/// `Bnnn`: jump to `V0 + nnn`.
pub open spec fn spec_jp_v0(s: CpuView, nnn: u16) -> CpuView {
    CpuView { pc: (s.v[0] as int + nnn as int) as u16, ..s }
}

/// `Cxkk`: the drawn random byte, masked by `kk`, into `Vx`.
pub open spec fn spec_rnd_vx(s: CpuView, x: u8, kk: u8, rand_byte: u8) -> CpuView {
    CpuView { v: s.v.update(x as int, rand_byte & kk), ..s }
}

/// `Dxyn`: blit an `n`-byte sprite from RAM at `I` to
/// `(Vx mod width, Vy mod height)` with toroidal wraparound, XOR
/// compositing and the mode's collision flag; reading the sprite past the
/// end of RAM is fatal.
pub open spec fn spec_drw_vx_vy(s: CpuView, x: u8, y: u8, n: u8) -> (CpuView, Option<Fault>) {
    if s.i as int + n as int > 4096 {
        (s, Some(Fault::AddressOutOfRange))
    } else {
        let w = fb_width(s.fb.hires);
        let h = fb_height(s.fb.hires);
        let x0 = s.v[x as int] as int % w;
        let y0 = s.v[y as int] as int % h;
        let sprite = s.ram.subrange(s.i as int, s.i as int + n as int);
        (
            CpuView {
                fb: FbView {
                    hires: s.fb.hires,
                    grid: draw_grid(s.fb.grid, sprite, x0, y0, w, h),
                },
                v: s.v.update(15, draw_flag(s.schip_mode, s.fb.grid, sprite, x0, y0, w, h, n as int)),
                vram_changed: true,
                ..s
            },
            None,
        )
    }
}

/// `Ex9E`: skip the next instruction when key `Vx` is down; a key index
/// past the pad is fatal.
pub open spec fn spec_skp_vx(s: CpuView, x: u8) -> (CpuView, Option<Fault>) {
    let key = s.v[x as int];
    if key >= 16 {
        (s, Some(Fault::KeyOutOfRange))
    } else if s.keys[key as int] {
        (CpuView { pc: skip_pc(s.pc), ..s }, None)
    } else {
        (s, None)
    }
}

/// `ExA1`: skip the next instruction when key `Vx` is up; a key index
/// past the pad is fatal.
pub open spec fn spec_sknp_vx(s: CpuView, x: u8) -> (CpuView, Option<Fault>) {
    let key = s.v[x as int];
    if key >= 16 {
        (s, Some(Fault::KeyOutOfRange))
    } else if !s.keys[key as int] {
        (CpuView { pc: skip_pc(s.pc), ..s }, None)
    } else {
        (s, None)
    }
}

/// `Fx07`: read the delay timer into `Vx`.
pub open spec fn spec_ld_vx_dt(s: CpuView, x: u8) -> CpuView {
    CpuView { v: s.v.update(x as int, s.delay), ..s }
}

/// `Fx0A`: enter the blocking key wait, recording the target register.
pub open spec fn spec_ld_vx_k(s: CpuView, x: u8) -> CpuView {
    if !s.waiting_for_key {
        CpuView { key_register: x, waiting_for_key: true, ..s }
    } else {
        s
    }
}

/// `Fx15`: load `Vx` into the delay timer.
pub open spec fn spec_ld_dt_vx(s: CpuView, x: u8) -> CpuView {
    CpuView { delay: s.v[x as int], ..s }
}

/// `Fx18`: load `Vx` into the sound timer.
pub open spec fn spec_ld_st_vx(s: CpuView, x: u8) -> CpuView {
    CpuView { sound: s.v[x as int], ..s }
}

/// `Fx1E`: add `Vx` to the index register with 16-bit wraparound and no
/// overflow flag.
pub open spec fn spec_add_i_vx(s: CpuView, x: u8) -> CpuView {
    CpuView { i: wrap_add16(s.i, s.v[x as int] as u16), ..s }
}

/// `Fx29`: point the index register at the 5-byte glyph for `Vx`.
pub open spec fn spec_ld_f_vx(s: CpuView, x: u8) -> CpuView {
    CpuView { i: (crate::constants::FONT_START_ADDR as int + s.v[x as int] as int * 5) as u16, ..s }
}

/// `Fx30`: point the index register at the 10-byte glyph for `Vx`; a
/// reported no-op outside SCHIP mode or for a value past the decimal
/// digits.
pub open spec fn spec_ld_hf_vx(s: CpuView, x: u8) -> CpuView {
    if !s.schip_mode {
        s
    } else if s.v[x as int] > 9 {
        s
    } else {
        CpuView {
            i: (crate::constants::LARGE_FONT_START_ADDR as int + s.v[x as int] as int * 10) as u16,
            ..s
        }
    }
}

/// `Fx33`: store the decimal hundreds, tens and ones of `Vx` at `I`,
/// `I+1`, `I+2`; reaching past the end of RAM is fatal.
pub open spec fn spec_ld_b_vx(s: CpuView, x: u8) -> (CpuView, Option<Fault>) {
    if s.i as int + 2 >= 4096 {
        (s, Some(Fault::AddressOutOfRange))
    } else {
        let val = s.v[x as int];
        (
            CpuView {
                ram: s.ram.update(s.i as int, (val as int / 100) as u8).update(
                    s.i as int + 1,
                    (val as int % 100 / 10) as u8,
                ).update(s.i as int + 2, (val as int % 10) as u8),
                ..s
            },
            None,
        )
    }
}

/// `Fx55`: copy `V0..=Vx` into RAM at `I`; then, on base CHIP-8 only,
/// advance `I` past the block. Reaching past the end of RAM is fatal.
pub open spec fn spec_ld_i_vx(s: CpuView, x: u8) -> (CpuView, Option<Fault>) {
    if s.i as int + x as int >= 4096 {
        (s, Some(Fault::AddressOutOfRange))
    } else {
        let ram2 = Seq::new(
            s.ram.len(),
            |a: int|
                if s.i as int <= a <= s.i as int + x as int {
                    s.v[a - s.i as int]
                } else {
                    s.ram[a]
                },
        );
        let i2 = if s.schip_mode {
            s.i
        } else {
            (s.i as int + x as int + 1) as u16
        };
        (CpuView { ram: ram2, i: i2, ..s }, None)
    }
}

/// `Fx65`: read `V0..=Vx` from RAM at `I`; then, on base CHIP-8 only,
/// advance `I` past the block. Reaching past the end of RAM is fatal.
pub open spec fn spec_ld_vx_i(s: CpuView, x: u8) -> (CpuView, Option<Fault>) {
    if s.i as int + x as int >= 4096 {
        (s, Some(Fault::AddressOutOfRange))
    } else {
        let v2 = Seq::new(
            s.v.len(),
            |j: int|
                if j <= x as int {
                    s.ram[s.i as int + j]
                } else {
                    s.v[j]
                },
        );
        let i2 = if s.schip_mode {
            s.i
        } else {
            (s.i as int + x as int + 1) as u16
        };
        (CpuView { v: v2, i: i2, ..s }, None)
    }
}

/// One instruction's effect on an already-fetched state. `rand_byte` is
/// the byte the random source produced, consulted only by `Cxkk`.
/// Faulting instructions leave the state as the fetch left it. The scroll
/// and RPL-flag opcodes and unknown words are reported no-ops.
pub open spec fn spec_exec_instr(s: CpuView, instruction: u16, rand_byte: u8) -> (
    CpuView,
    Option<Fault>,
) {
    match spec_decode(instruction) {
        Instruction::Scd(_) => (s, None),
        Instruction::Cls => (spec_cls(s), None),
        Instruction::Ret => spec_ret(s),
        Instruction::Scr => (s, None),
        Instruction::Scl => (s, None),
        Instruction::Exit => (spec_exit(s), None),
        Instruction::Low => (spec_set_res(s, false), None),
        Instruction::High => (spec_set_res(s, true), None),
        Instruction::Jp(nnn) => (spec_jp(s, nnn), None),
        Instruction::Call(nnn) => spec_call(s, nnn),
        Instruction::SeVx(x, kk) => (spec_se_vx(s, x, kk), None),
        Instruction::SneVx(x, kk) => (spec_sne_vx(s, x, kk), None),
        Instruction::SeVxVy(x, y) => (spec_se_vx_vy(s, x, y), None),
        Instruction::LdVx(x, kk) => (spec_ld_vx(s, x, kk), None),
        Instruction::AddVx(x, kk) => (spec_add_vx(s, x, kk), None),
        Instruction::LdVxVy(x, y) => (spec_ld_vx_vy(s, x, y), None),
        Instruction::OrVxVy(x, y) => (spec_or_vx_vy(s, x, y), None),
        Instruction::AndVxVy(x, y) => (spec_and_vx_vy(s, x, y), None),
        Instruction::XorVxVy(x, y) => (spec_xor_vx_vy(s, x, y), None),
        Instruction::AddVxVy(x, y) => (spec_add_vx_vy(s, x, y), None),
        Instruction::SubVxVy(x, y) => (spec_sub_vx_vy(s, x, y), None),
        Instruction::ShrVxVy(x, y) => (spec_shr_vx_vy(s, x, y), None),
        Instruction::SubnVxVy(x, y) => (spec_subn_vx_vy(s, x, y), None),
        Instruction::ShlVxVy(x, y) => (spec_shl_vx_vy(s, x, y), None),
        Instruction::SneVxVy(x, y) => (spec_sne_vx_vy(s, x, y), None),
        Instruction::LdI(nnn) => (spec_ld_i(s, nnn), None),
        Instruction::JpV0(nnn) => (spec_jp_v0(s, nnn), None),
        Instruction::RndVx(x, kk) => (spec_rnd_vx(s, x, kk, rand_byte), None),
        Instruction::DrwVxVy(x, y, n) => spec_drw_vx_vy(s, x, y, n),
        Instruction::SkpVx(x) => spec_skp_vx(s, x),
        Instruction::SknpVx(x) => spec_sknp_vx(s, x),
        Instruction::LdVxDt(x) => (spec_ld_vx_dt(s, x), None),
        Instruction::LdVxK(x) => (spec_ld_vx_k(s, x), None),
        Instruction::LdDtVx(x) => (spec_ld_dt_vx(s, x), None),
        Instruction::LdStVx(x) => (spec_ld_st_vx(s, x), None),
        Instruction::AddIVx(x) => (spec_add_i_vx(s, x), None),
        Instruction::LdFVx(x) => (spec_ld_f_vx(s, x), None),
        Instruction::LdHfVx(x) => (spec_ld_hf_vx(s, x), None),
        Instruction::LdBVx(x) => spec_ld_b_vx(s, x),
        Instruction::LdIVx(x) => spec_ld_i_vx(s, x),
        Instruction::LdVxI(x) => spec_ld_vx_i(s, x),
        Instruction::LdRVx(_) => (s, None),
        Instruction::LdVxR(_) => (s, None),
        Instruction::Unknown(_) => (s, None),
    }
}

/// The lowest-numbered pressed key at or after `k`, if any.
pub open spec fn first_pressed_from(keys: Seq<bool>, k: int) -> Option<int>
    decreases 16 - k,
{
    if k < 0 || k >= 16 {
        None
    } else if keys[k] {
        Some(k)
    } else {
        first_pressed_from(keys, k + 1)
    }
}

/// The instruction word at the program counter: two bytes, big-endian.
pub open spec fn fetch_word(s: CpuView) -> u16 {
    (s.ram[s.pc as int] as int * 256 + s.ram[s.pc as int + 1] as int) as u16
}

/// One tick. The drawing-changed flag is lowered first. While a key wait
/// is pending only the latch is scanned: on the first pressed key its
/// index lands in the recorded target register and the wait ends, and in
/// either case no timer moves and nothing is fetched. Otherwise both
/// timers count down once, one instruction is fetched (a program counter
/// past the end of RAM is fatal), the program counter advances past it,
/// and the instruction executes.
pub open spec fn spec_step(s: CpuView, rand_byte: u8) -> (CpuView, Option<Fault>) {
    let s0 = CpuView { vram_changed: false, ..s };
    if s.waiting_for_key {
        match first_pressed_from(s.keys, 0) {
            Some(k) => (
                CpuView {
                    v: s0.v.update(s.key_register as int, k as u8),
                    waiting_for_key: false,
                    key_register: 0,
                    ..s0
                },
                None,
            ),
            None => (s0, None),
        }
    } else {
        let s1 = CpuView { delay: tick_down(s0.delay), sound: tick_down(s0.sound), ..s0 };
        if s1.pc as int + 1 >= 4096 {
            (s1, Some(Fault::AddressOutOfRange))
        } else {
            let instruction = fetch_word(s1);
            let s2 = CpuView { pc: (s1.pc + 2) as u16, ..s1 };
            spec_exec_instr(s2, instruction, rand_byte)
        }
    }
}

/// RAM as construction and reset leave it: all zero but for the font.
pub open spec fn ram_with_font() -> Seq<u8> {
    Seq::new(
        4096,
        |a: int|
            if crate::constants::FONT_START_ADDR as int <= a < crate::constants::FONT_START_ADDR
                as int + crate::fonts::FONT_BYTES as int {
                crate::fonts::spec_font()[a - crate::constants::FONT_START_ADDR as int]
            } else {
                0u8
            },
    )
}

/// The state of a freshly constructed or reset interpreter: zeroed
/// registers and screen, the font seeded in RAM, the program counter at
/// the load address.
pub open spec fn initial_view(schip_mode: bool) -> CpuView {
    CpuView {
        schip_mode,
        quit_flag: false,
        ram: ram_with_font(),
        fb: FbView { hires: false, grid: fb_blank(false) },
        vram_changed: false,
        v: Seq::new(16, |j: int| 0u8),
        i: 0,
        pc: crate::constants::PROGRAM_START_ADDR,
        stack: Seq::empty(),
        delay: 0,
        sound: 0,
        keys: Seq::new(16, |j: int| false),
        key_register: 0,
        waiting_for_key: false,
    }
}

/// RAM after a program image is copied in at the load address.
pub open spec fn load_view(s: CpuView, data: Seq<u8>) -> CpuView {
    CpuView {
        ram: Seq::new(
            s.ram.len(),
            |a: int|
                if crate::constants::PROGRAM_START_ADDR as int <= a
                    < crate::constants::PROGRAM_START_ADDR as int + data.len() {
                    data[a - crate::constants::PROGRAM_START_ADDR as int]
                } else {
                    s.ram[a]
                },
        ),
        ..s
    }
}

/// How one call of the instruction dispatcher relates its outcome to
/// `spec_exec_instr`.
pub open spec fn exec_matches(
    s: CpuView,
    instruction: u16,
    rand_byte: u8,
    s2: CpuView,
    r: Result<(), Fault>,
) -> bool {
    let (t, f) = spec_exec_instr(s, instruction, rand_byte);
    &&& s2 == t
    &&& match f {
        None => r is Ok,
        Some(fault) => r == Result::<(), Fault>::Err(fault),
    }
}

/// How one call of `tick` relates its outcome to `spec_step`: the new
/// state is exactly the stepped state, and the call reports exactly the
/// step's fault.
pub open spec fn step_matches(
    s: CpuView,
    rand_byte: u8,
    s2: CpuView,
    r: Result<(), Fault>,
) -> bool {
    let (t, f) = spec_step(s, rand_byte);
    &&& s2 == t
    &&& match f {
        None => r is Ok,
        Some(fault) => r == Result::<(), Fault>::Err(fault),
    }
}

} // verus!
