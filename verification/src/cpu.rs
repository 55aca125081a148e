//! The interpreter core: all addressable state and the instruction
//! execute engine.
//!
//! Every public operation is specified against the mathematical model in
//! `semantics`: the view of a `Cpu` is a `CpuView`, and each opcode method
//! is proved to transform the view exactly as the corresponding
//! specification function says.

use vstd::prelude::*;

use crate::constants::{FONT_START_ADDR, LARGE_FONT_START_ADDR, MAX_ROM_SIZE, PROGRAM_START_ADDR};
use crate::decode::{decode, spec_decode, Instruction};
use crate::fonts::{font_data, spec_font, FONT_BYTES};
use crate::input_buffer::InputBuffer;
use crate::memory::Memory;
use crate::program_counter::ProgramCounter;
use crate::registers::Registers;
use crate::semantics::{
    any_collision, cpu_wf, draw_pixel, exec_matches, fetch_word, first_pressed_from, initial_view, load_view,
    ram_with_font, row_collides, row_collides_upto, row_collision_count, sprite_bit, spec_add_i_vx,
    spec_add_vx, spec_add_vx_vy, spec_and_vx_vy, spec_call, spec_cls, spec_drw_vx_vy,
    spec_exit, spec_jp, spec_jp_v0, spec_ld_b_vx, spec_ld_dt_vx, spec_ld_f_vx,
    spec_ld_hf_vx, spec_ld_i, spec_ld_i_vx, spec_ld_st_vx, spec_ld_vx, spec_ld_vx_dt,
    spec_ld_vx_i, spec_ld_vx_k, spec_ld_vx_vy, spec_or_vx_vy, spec_ret, spec_rnd_vx,
    spec_se_vx, spec_se_vx_vy, spec_set_res, spec_shl_vx_vy, spec_shr_vx_vy, spec_skp_vx,
    spec_sknp_vx, spec_sne_vx, spec_sne_vx_vy, spec_step, spec_sub_vx_vy, spec_subn_vx_vy,
    spec_xor_vx_vy, step_matches, CpuView,
};
use crate::stack::Stack;
use crate::utils::read_bit_from_byte;
use crate::video::{fb_height, fb_width};
use crate::timer::Timer;
use crate::video::VideoMemory;
use crate::Fault;

verus! {

/// Draws one byte from the process-wide pseudorandom source.
///
/// Relies on `rand::random`: one sample of the thread-local generator's
/// `Standard` distribution over `u8`. Nothing is promised of the value.
#[verifier::external_body]
fn random_byte() -> u8 {
    rand::random::<u8>()
}

/// The interpreter core. Owns all emulated state; driven once per frame
/// by an external loop through `tick`.
pub struct Cpu {
    /// Raised by the SCHIP `EXIT` opcode; the driver stops on it.
    pub quit_flag: bool,
    /// Configuration: SCHIP opcodes and variant semantics enabled.
    pub schip_mode: bool,
    ram: Memory,
    /// The framebuffer, read by the display collaborator.
    pub vram: VideoMemory,
    /// Whether a drawing opcode ran during the last tick.
    pub vram_changed: bool,
    v: Registers,
    i: u16,
    pc: ProgramCounter,
    stack: Stack,
    delay_timer: Timer,
    /// The sound timer, read by the audio collaborator.
    pub sound_timer: Timer,
    /// The key latch, overwritten by the keypad collaborator each frame.
    pub keys: InputBuffer,
    key_register: u8,
    waiting_for_key: bool,
}

impl View for Cpu {
    type V = CpuView;

    closed spec fn view(&self) -> CpuView {
        CpuView {
            schip_mode: self.schip_mode,
            quit_flag: self.quit_flag,
            ram: self.ram@,
            fb: self.vram@,
            vram_changed: self.vram_changed,
            v: self.v@,
            i: self.i,
            pc: self.pc.address,
            stack: self.stack@,
            delay: self.delay_timer.spec_value(),
            sound: self.sound_timer.spec_value(),
            keys: self.keys@,
            key_register: self.key_register,
            waiting_for_key: self.waiting_for_key,
        }
    }
}

impl Cpu {
    pub open spec fn wf(&self) -> bool {
        cpu_wf(self@)
    }

    /// A fresh interpreter: everything zeroed, the font seeded into RAM,
    /// the program counter at the load address.
    pub fn new(schip_mode: bool) -> (r: Cpu)
        ensures
            r.wf(),
            r@ == initial_view(schip_mode),
    {
        let mut cpu = Cpu {
            quit_flag: false,
            schip_mode,
            ram: Memory::new(),
            vram: VideoMemory::new(),
            vram_changed: false,
            v: Registers::new(),
            i: 0,
            pc: ProgramCounter::new(),
            stack: Stack::new(),
            delay_timer: Timer::new(),
            sound_timer: Timer::new(),
            keys: InputBuffer::new(),
            key_register: 0,
            waiting_for_key: false,
        };
        cpu.seed_font();
        proof {
            assert(cpu@.v =~= initial_view(schip_mode).v);
            assert(cpu@.keys =~= initial_view(schip_mode).keys);
            assert(cpu@ =~= initial_view(schip_mode));
        }
        cpu
    }

    /// Copy the font image into otherwise empty RAM at the font base
    /// address.
    fn seed_font(&mut self)
        requires
            old(self).wf(),
            forall|a: int| 0 <= a < 4096 ==> old(self)@.ram[a] == 0u8,
        ensures
            final(self).wf(),
            final(self)@ == (CpuView { ram: ram_with_font(), ..old(self)@ }),
    {
        let font: Vec<u8> = font_data();
        let mut j: usize = 0;
        while j < FONT_BYTES
            invariant
                old(self).wf(),
                self.wf(),
                font@ == spec_font(),
                j <= FONT_BYTES,
                self@ == (CpuView { ram: self@.ram, ..old(self)@ }),
                self@.ram.len() == 4096,
                forall|a: int|
                    FONT_START_ADDR as int <= a < FONT_START_ADDR as int + j as int
                        ==> self@.ram[a] == spec_font()[a - FONT_START_ADDR as int],
                forall|a: int|
                    0 <= a < 4096 && !(FONT_START_ADDR as int <= a < FONT_START_ADDR as int
                        + j as int) ==> self@.ram[a] == old(self)@.ram[a],
            decreases FONT_BYTES - j,
        {
            self.ram.write(FONT_START_ADDR + j as u16, font[j]);
            j = j + 1;
        }
        proof {
            assert(self@.ram =~= ram_with_font());
            assert(self@ =~= (CpuView { ram: ram_with_font(), ..old(self)@ }));
        }
    }

    /// Return every component to its power-on value: RAM re-zeroed and the
    /// font re-seeded, screen blanked at low resolution, registers, stack,
    /// timers and latch cleared, the program counter back at the load
    /// address.
    pub fn reset(&mut self)
        requires
            old(self).wf(),
        ensures
            final(self).wf(),
            final(self)@ == initial_view(old(self)@.schip_mode),
    {
        self.quit_flag = false;
        self.ram.clear();
        self.vram.set_high_res(false);
        self.vram_changed = false;
        self.v.clear();
        self.i = 0;
        self.pc.reset();
        self.stack.clear();
        self.delay_timer.clear();
        self.sound_timer.clear();
        self.keys.clear();
        self.key_register = 0;
        self.waiting_for_key = false;
        self.seed_font();
        proof {
            assert(self@.v =~= initial_view(old(self)@.schip_mode).v);
            assert(self@.keys =~= initial_view(old(self)@.schip_mode).keys);
            assert(self@.ram =~= ram_with_font());
            assert(self@ =~= initial_view(old(self)@.schip_mode));
        }
    }

    /// Copy a program image into RAM at the load address. An image of
    /// `MAX_ROM_SIZE` bytes or more is refused whole, leaving the state
    /// untouched.
    pub fn load_program(&mut self, data: Vec<u8>) -> (res: Result<(), Fault>)
        requires
            old(self).wf(),
        ensures
            final(self).wf(),
            data@.len() >= MAX_ROM_SIZE as int ==> res == Result::<(), Fault>::Err(
                Fault::RomTooLarge,
            ) && final(self)@ == old(self)@,
            data@.len() < MAX_ROM_SIZE as int ==> res is Ok && final(self)@ == load_view(
                old(self)@,
                data@,
            ),
    {
        if data.len() >= MAX_ROM_SIZE {
            return Err(Fault::RomTooLarge);
        }
        let mut j: usize = 0;
        while j < data.len()
            invariant
                old(self).wf(),
                self.wf(),
                j <= data@.len(),
                data@.len() < MAX_ROM_SIZE as int,
                self@ == (CpuView { ram: self@.ram, ..old(self)@ }),
                self@.ram.len() == 4096,
                forall|a: int|
                    PROGRAM_START_ADDR as int <= a < PROGRAM_START_ADDR as int + j as int
                        ==> self@.ram[a] == data@[a - PROGRAM_START_ADDR as int],
                forall|a: int|
                    0 <= a < 4096 && !(PROGRAM_START_ADDR as int <= a < PROGRAM_START_ADDR as int
                        + j as int) ==> self@.ram[a] == old(self)@.ram[a],
            decreases data@.len() - j,
        {
            self.ram.write(PROGRAM_START_ADDR + j as u16, data[j]);
            j = j + 1;
        }
        proof {
            assert(self@.ram =~= load_view(old(self)@, data@).ram);
            assert(self@ =~= load_view(old(self)@, data@));
        }
        Ok(())
    }

    /// One general register, for consumers and tests.
    pub fn get_register(&self, register: u8) -> (r: u8)
        requires
            self.wf(),
            register < 16,
        ensures
            r == self@.v[register as int],
    {
        self.v.read(register)
    }

    /// The program counter, for consumers and tests.
    pub fn get_pc(&self) -> (r: u16)
        ensures
            r == self@.pc,
    {
        self.pc.address
    }

    /// The index register, for consumers and tests.
    pub fn get_i(&self) -> (r: u16)
        ensures
            r == self@.i,
    {
        self.i
    }

    /// One byte of RAM, for consumers and tests.
    pub fn read_memory(&self, addr: u16) -> (r: u8)
        requires
            self.wf(),
            addr < crate::constants::SYSTEM_RAM,
        ensures
            r == self@.ram[addr as int],
    {
        self.ram.read(addr)
    }

    /// The delay timer's value.
    pub fn get_delay(&self) -> (r: u8)
        ensures
            r == self@.delay,
    {
        self.delay_timer.get_value()
    }

    /// Whether a blocking key wait is pending.
    pub fn is_waiting_for_key(&self) -> (r: bool)
        ensures
            r == self@.waiting_for_key,
    {
        self.waiting_for_key
    }

    /// `00E0`: clear the display and mark it changed.
    pub fn cls(&mut self)
        requires
            old(self).wf(),
        ensures
            final(self).wf(),
            final(self)@ == spec_cls(old(self)@),
    {
        self.vram.clear();
        self.vram_changed = true;
        proof {
            assert(self@ =~= spec_cls(old(self)@));
        }
    }

    /// `00EE`: pop the call stack into the program counter. A return with
    /// no pending call is fatal.
    pub fn ret(&mut self) -> (res: Result<(), Fault>)
        requires
            old(self).wf(),
        ensures
            final(self).wf(),
            ({
                let (t, f) = spec_ret(old(self)@);
                final(self)@ == t && match f {
                    None => res is Ok,
                    Some(fault) => res == Result::<(), Fault>::Err(fault),
                }
            }),
    {
        match self.stack.pop() {
            Some(addr) => {
                self.pc.jump(addr);
                proof {
                    assert(self@ =~= spec_ret(old(self)@).0);
                }
                Ok(())
            },
            None => Err(Fault::StackUnderflow),
        }
    }

    /// `00FD`: raise the quit flag; a reported no-op outside SCHIP mode.
    pub fn exit(&mut self)
        requires
            old(self).wf(),
        ensures
            final(self).wf(),
            final(self)@ == spec_exit(old(self)@),
    {
        if self.schip_mode {
            self.quit_flag = true;
        }
        proof {
            assert(self@ =~= spec_exit(old(self)@));
        }
    }

    /// `00FE`: leave high-resolution mode, blanking the reallocated
    /// screen; a reported no-op outside SCHIP mode.
    pub fn low(&mut self)
        requires
            old(self).wf(),
        ensures
            final(self).wf(),
            final(self)@ == spec_set_res(old(self)@, false),
    {
        if self.schip_mode {
            self.vram.set_high_res(false);
            self.vram_changed = true;
        }
        proof {
            assert(self@ =~= spec_set_res(old(self)@, false));
        }
    }

    /// `00FF`: enter high-resolution mode, blanking the reallocated
    /// screen; a reported no-op outside SCHIP mode.
    pub fn high(&mut self)
        requires
            old(self).wf(),
        ensures
            final(self).wf(),
            final(self)@ == spec_set_res(old(self)@, true),
    {
        if self.schip_mode {
            self.vram.set_high_res(true);
            self.vram_changed = true;
        }
        proof {
            assert(self@ =~= spec_set_res(old(self)@, true));
        }
    }

    /// `00Cn`: scroll down; scrolling is not modeled, so this is a
    /// reported no-op in every mode.
    pub fn scd(&mut self, _n: u8)
        requires
            old(self).wf(),
        ensures
            final(self).wf(),
            final(self)@ == old(self)@,
    {
    }

    /// `00FB`: scroll right; scrolling is not modeled, so this is a
    /// reported no-op in every mode.
    pub fn scr(&mut self)
        requires
            old(self).wf(),
        ensures
            final(self).wf(),
            final(self)@ == old(self)@,
    {
    }

    /// `00FC`: scroll left; scrolling is not modeled, so this is a
    /// reported no-op in every mode.
    pub fn scl(&mut self)
        requires
            old(self).wf(),
        ensures
            final(self).wf(),
            final(self)@ == old(self)@,
    {
    }

    /// `1nnn`: jump.
    pub fn jp(&mut self, address: u16)
        requires
            old(self).wf(),
        ensures
            final(self).wf(),
            final(self)@ == spec_jp(old(self)@, address),
    {
        self.pc.jump(address);
        proof {
            assert(self@ =~= spec_jp(old(self)@, address));
        }
    }

    /// `2nnn`: push the current program counter and jump. A seventeenth
    /// pending call is fatal.
    pub fn call(&mut self, address: u16) -> (res: Result<(), Fault>)
        requires
            old(self).wf(),
        ensures
            final(self).wf(),
            ({
                let (t, f) = spec_call(old(self)@, address);
                final(self)@ == t && match f {
                    None => res is Ok,
                    Some(fault) => res == Result::<(), Fault>::Err(fault),
                }
            }),
    {
        if self.stack.push(self.pc.address) {
            self.pc.jump(address);
            proof {
                assert(self@ =~= spec_call(old(self)@, address).0);
            }
            Ok(())
        } else {
            Err(Fault::StackOverflow)
        }
    }

    /// `3xkk`: skip the next instruction when `Vx == kk`.
    pub fn se_vx(&mut self, vx: u8, kk: u8)
        requires
            old(self).wf(),
            vx < 16,
        ensures
            final(self).wf(),
            final(self)@ == spec_se_vx(old(self)@, vx, kk),
    {
        if self.v.read(vx) == kk {
            self.pc.next();
        }
        proof {
            assert(self@ =~= spec_se_vx(old(self)@, vx, kk));
        }
    }

    /// `4xkk`: skip the next instruction when `Vx != kk`.
    pub fn sne_vx(&mut self, vx: u8, kk: u8)
        requires
            old(self).wf(),
            vx < 16,
        ensures
            final(self).wf(),
            final(self)@ == spec_sne_vx(old(self)@, vx, kk),
    {
        if self.v.read(vx) != kk {
            self.pc.next();
        }
        proof {
            assert(self@ =~= spec_sne_vx(old(self)@, vx, kk));
        }
    }

    /// `5xy0`: skip the next instruction when `Vx == Vy`.
    pub fn se_vx_vy(&mut self, vx: u8, vy: u8)
        requires
            old(self).wf(),
            vx < 16,
            vy < 16,
        ensures
            final(self).wf(),
            final(self)@ == spec_se_vx_vy(old(self)@, vx, vy),
    {
        if self.v.read(vx) == self.v.read(vy) {
            self.pc.next();
        }
        proof {
            assert(self@ =~= spec_se_vx_vy(old(self)@, vx, vy));
        }
    }

    /// `9xy0`: skip the next instruction when `Vx != Vy`.
    pub fn sne_vx_vy(&mut self, vx: u8, vy: u8)
        requires
            old(self).wf(),
            vx < 16,
            vy < 16,
        ensures
            final(self).wf(),
            final(self)@ == spec_sne_vx_vy(old(self)@, vx, vy),
    {
        if self.v.read(vx) != self.v.read(vy) {
            self.pc.next();
        }
        proof {
            assert(self@ =~= spec_sne_vx_vy(old(self)@, vx, vy));
        }
    }

    /// `6xkk`: load the immediate into `Vx`.
    pub fn ld_vx(&mut self, vx: u8, kk: u8)
        requires
            old(self).wf(),
            vx < 16,
        ensures
            final(self).wf(),
            final(self)@ == spec_ld_vx(old(self)@, vx, kk),
    {
        self.v.write(vx, kk);
        proof {
            assert(self@ =~= spec_ld_vx(old(self)@, vx, kk));
        }
    }

    /// `7xkk`: add the immediate to `Vx`, wrapping modulo 256, with no
    /// flag side effect.
    pub fn add_vx(&mut self, vx: u8, kk: u8)
        requires
            old(self).wf(),
            vx < 16,
        ensures
            final(self).wf(),
            final(self)@ == spec_add_vx(old(self)@, vx, kk),
    {
        let sum: u8 = self.v.read(vx).wrapping_add(kk);
        self.v.write(vx, sum);
        proof {
            assert(self@ =~= spec_add_vx(old(self)@, vx, kk));
        }
    }

    /// `8xy0`: copy `Vy` into `Vx`.
    pub fn ld_vx_vy(&mut self, vx: u8, vy: u8)
        requires
            old(self).wf(),
            vx < 16,
            vy < 16,
        ensures
            final(self).wf(),
            final(self)@ == spec_ld_vx_vy(old(self)@, vx, vy),
    {
        let value: u8 = self.v.read(vy);
        self.v.write(vx, value);
        proof {
            assert(self@ =~= spec_ld_vx_vy(old(self)@, vx, vy));
        }
    }

    /// `8xy1`: `Vx := Vx | Vy`.
    pub fn or_vx_vy(&mut self, vx: u8, vy: u8)
        requires
            old(self).wf(),
            vx < 16,
            vy < 16,
        ensures
            final(self).wf(),
            final(self)@ == spec_or_vx_vy(old(self)@, vx, vy),
    {
        let value: u8 = self.v.read(vx) | self.v.read(vy);
        self.v.write(vx, value);
        proof {
            assert(self@ =~= spec_or_vx_vy(old(self)@, vx, vy));
        }
    }

    /// `8xy2`: `Vx := Vx & Vy`.
    pub fn and_vx_vy(&mut self, vx: u8, vy: u8)
        requires
            old(self).wf(),
            vx < 16,
            vy < 16,
        ensures
            final(self).wf(),
            final(self)@ == spec_and_vx_vy(old(self)@, vx, vy),
    {
        let value: u8 = self.v.read(vx) & self.v.read(vy);
        self.v.write(vx, value);
        proof {
            assert(self@ =~= spec_and_vx_vy(old(self)@, vx, vy));
        }
    }

    /// `8xy3`: `Vx := Vx ^ Vy`.
    pub fn xor_vx_vy(&mut self, vx: u8, vy: u8)
        requires
            old(self).wf(),
            vx < 16,
            vy < 16,
        ensures
            final(self).wf(),
            final(self)@ == spec_xor_vx_vy(old(self)@, vx, vy),
    {
        let value: u8 = self.v.read(vx) ^ self.v.read(vy);
        self.v.write(vx, value);
        proof {
            assert(self@ =~= spec_xor_vx_vy(old(self)@, vx, vy));
        }
    }

    /// `8xy4`: `Vx := Vx + Vy` wrapping; then `VF := 1` exactly when the
    /// 9-bit sum exceeded 255.
    pub fn add_vx_vy(&mut self, vx: u8, vy: u8)
        requires
            old(self).wf(),
            vx < 16,
            vy < 16,
        ensures
            final(self).wf(),
            final(self)@ == spec_add_vx_vy(old(self)@, vx, vy),
    {
        let sum: u16 = self.v.read(vx) as u16 + self.v.read(vy) as u16;
        self.v.write(vx, (sum % 256) as u8);
        self.v.write(
            0xF,
            if sum > 255 {
                1
            } else {
                0
            },
        );
        proof {
            assert(self@ =~= spec_add_vx_vy(old(self)@, vx, vy));
        }
    }

    /// `8xy5`: `VF := 1` exactly when `Vx > Vy`; then `Vx := Vx - Vy`
    /// wrapping, the operands read after the flag lands.
    pub fn sub_vx_vy(&mut self, vx: u8, vy: u8)
        requires
            old(self).wf(),
            vx < 16,
            vy < 16,
        ensures
            final(self).wf(),
            final(self)@ == spec_sub_vx_vy(old(self)@, vx, vy),
    {
        let flag: u8 = if self.v.read(vx) > self.v.read(vy) {
            1
        } else {
            0
        };
        self.v.write(0xF, flag);
        let diff: u8 = self.v.read(vx).wrapping_sub(self.v.read(vy));
        self.v.write(vx, diff);
        proof {
            assert(self@ =~= spec_sub_vx_vy(old(self)@, vx, vy));
        }
    }

    /// `8xy7`: `Vx := Vy - Vx` wrapping; then `VF := 1` exactly when
    /// `Vy > Vx` held beforehand.
    pub fn subn_vx_vy(&mut self, vx: u8, vy: u8)
        requires
            old(self).wf(),
            vx < 16,
            vy < 16,
        ensures
            final(self).wf(),
            final(self)@ == spec_subn_vx_vy(old(self)@, vx, vy),
    {
        let flag: u8 = if self.v.read(vy) > self.v.read(vx) {
            1
        } else {
            0
        };
        let diff: u8 = self.v.read(vy).wrapping_sub(self.v.read(vx));
        self.v.write(vx, diff);
        self.v.write(0xF, flag);
        proof {
            assert(self@ =~= spec_subn_vx_vy(old(self)@, vx, vy));
        }
    }

    /// `8xy6`: `VF :=` the low bit of the shift source — `Vx` itself
    /// under SCHIP, `Vy` on base CHIP-8 — then `Vx :=` the source (read
    /// after the flag lands) shifted right once.
    pub fn shr_vx_vy(&mut self, vx: u8, vy: u8)
        requires
            old(self).wf(),
            vx < 16,
            vy < 16,
        ensures
            final(self).wf(),
            final(self)@ == spec_shr_vx_vy(old(self)@, vx, vy),
    {
        let src: u8 = if self.schip_mode {
            vx
        } else {
            vy
        };
        let low: u8 = self.v.read(src) % 2;
        self.v.write(0xF, low);
        let value: u8 = self.v.read(src) / 2;
        self.v.write(vx, value);
        proof {
            assert(self@ =~= spec_shr_vx_vy(old(self)@, vx, vy));
        }
    }

    /// `8xyE`: `VF :=` the high bit of the shift source — `Vx` itself
    /// under SCHIP, `Vy` on base CHIP-8 — then `Vx :=` the source (read
    /// after the flag lands) shifted left once, wrapping.
    pub fn shl_vx_vy(&mut self, vx: u8, vy: u8)
        requires
            old(self).wf(),
            vx < 16,
            vy < 16,
        ensures
            final(self).wf(),
            final(self)@ == spec_shl_vx_vy(old(self)@, vx, vy),
    {
        let src: u8 = if self.schip_mode {
            vx
        } else {
            vy
        };
        let high: u8 = self.v.read(src) / 128;
        self.v.write(0xF, high);
        let doubled: u16 = self.v.read(src) as u16 * 2;
        self.v.write(vx, (doubled % 256) as u8);
        proof {
            assert(self@ =~= spec_shl_vx_vy(old(self)@, vx, vy));
        }
    }

    /// `Annn`: load the index register.
    pub fn ld_i(&mut self, address: u16)
        requires
            old(self).wf(),
        ensures
            final(self).wf(),
            final(self)@ == spec_ld_i(old(self)@, address),
    {
        self.i = address;
        proof {
            assert(self@ =~= spec_ld_i(old(self)@, address));
        }
    }

    /// `Bnnn`: jump to `V0 + nnn`.
    pub fn jp_v0(&mut self, address: u16)
        requires
            old(self).wf(),
            address < 0x1000,
        ensures
            final(self).wf(),
            final(self)@ == spec_jp_v0(old(self)@, address),
    {
        let target: u16 = self.v.read(0) as u16 + address;
        self.pc.jump(target);
        proof {
            assert(self@ =~= spec_jp_v0(old(self)@, address));
        }
    }

    /// `Cxkk`: one byte from the pseudorandom source, masked by `kk`,
    /// into `Vx`. The byte itself is unconstrained, so the contract is
    /// existential over it.
    pub fn rnd_vx(&mut self, vx: u8, value: u8)
        requires
            old(self).wf(),
            vx < 16,
        ensures
            final(self).wf(),
            exists|r: u8| final(self)@ == spec_rnd_vx(old(self)@, vx, value, r),
    {
        let rnum: u8 = random_byte();
        self.v.write(vx, rnum & value);
        proof {
            assert(self@ =~= spec_rnd_vx(old(self)@, vx, value, rnum));
        }
    }

    /// `Ex9E`: skip the next instruction when key `Vx` is down. A key
    /// index past the pad is fatal.
    pub fn skp_vx(&mut self, vx: u8) -> (res: Result<(), Fault>)
        requires
            old(self).wf(),
            vx < 16,
        ensures
            final(self).wf(),
            ({
                let (t, f) = spec_skp_vx(old(self)@, vx);
                final(self)@ == t && match f {
                    None => res is Ok,
                    Some(fault) => res == Result::<(), Fault>::Err(fault),
                }
            }),
    {
        let key: u8 = self.v.read(vx);
        if key >= 16 {
            return Err(Fault::KeyOutOfRange);
        }
        if self.keys.get(key as usize) {
            self.pc.next();
        }
        proof {
            assert(self@ =~= spec_skp_vx(old(self)@, vx).0);
        }
        Ok(())
    }

    /// `ExA1`: skip the next instruction when key `Vx` is up. A key
    /// index past the pad is fatal.
    pub fn sknp_vx(&mut self, vx: u8) -> (res: Result<(), Fault>)
        requires
            old(self).wf(),
            vx < 16,
        ensures
            final(self).wf(),
            ({
                let (t, f) = spec_sknp_vx(old(self)@, vx);
                final(self)@ == t && match f {
                    None => res is Ok,
                    Some(fault) => res == Result::<(), Fault>::Err(fault),
                }
            }),
    {
        let key: u8 = self.v.read(vx);
        if key >= 16 {
            return Err(Fault::KeyOutOfRange);
        }
        if !self.keys.get(key as usize) {
            self.pc.next();
        }
        proof {
            assert(self@ =~= spec_sknp_vx(old(self)@, vx).0);
        }
        Ok(())
    }

    /// `Fx07`: read the delay timer into `Vx`.
    pub fn ld_vx_dt(&mut self, vx: u8)
        requires
            old(self).wf(),
            vx < 16,
        ensures
            final(self).wf(),
            final(self)@ == spec_ld_vx_dt(old(self)@, vx),
    {
        let value: u8 = self.delay_timer.get_value();
        self.v.write(vx, value);
        proof {
            assert(self@ =~= spec_ld_vx_dt(old(self)@, vx));
        }
    }

    /// `Fx0A`: enter the blocking key wait, recording `Vx` as the target
    /// register; ticks then scan the latch instead of executing until a
    /// key lands.
    pub fn ld_vx_k(&mut self, vx: u8)
        requires
            old(self).wf(),
            vx < 16,
        ensures
            final(self).wf(),
            final(self)@ == spec_ld_vx_k(old(self)@, vx),
    {
        if !self.waiting_for_key {
            self.key_register = vx;
            self.waiting_for_key = true;
        }
        proof {
            assert(self@ =~= spec_ld_vx_k(old(self)@, vx));
        }
    }

    /// `Fx15`: load `Vx` into the delay timer.
    pub fn ld_dt_vx(&mut self, vx: u8)
        requires
            old(self).wf(),
            vx < 16,
        ensures
            final(self).wf(),
            final(self)@ == spec_ld_dt_vx(old(self)@, vx),
    {
        let value: u8 = self.v.read(vx);
        self.delay_timer.set_value(value);
        proof {
            assert(self@ =~= spec_ld_dt_vx(old(self)@, vx));
        }
    }

    /// `Fx18`: load `Vx` into the sound timer.
    pub fn ld_st_vx(&mut self, vx: u8)
        requires
            old(self).wf(),
            vx < 16,
        ensures
            final(self).wf(),
            final(self)@ == spec_ld_st_vx(old(self)@, vx),
    {
        let value: u8 = self.v.read(vx);
        self.sound_timer.set_value(value);
        proof {
            assert(self@ =~= spec_ld_st_vx(old(self)@, vx));
        }
    }

    /// `Fx1E`: add `Vx` to the index register with 16-bit wraparound and
    /// no overflow flag.
    pub fn add_i_vx(&mut self, vx: u8)
        requires
            old(self).wf(),
            vx < 16,
        ensures
            final(self).wf(),
            final(self)@ == spec_add_i_vx(old(self)@, vx),
    {
        let value: u8 = self.v.read(vx);
        self.i = self.i.wrapping_add(value as u16);
        proof {
            assert(self@ =~= spec_add_i_vx(old(self)@, vx));
        }
    }

    /// `Fx29`: point the index register at the 5-byte glyph for the
    /// value of `Vx`.
    pub fn ld_f_vx(&mut self, vx: u8)
        requires
            old(self).wf(),
            vx < 16,
        ensures
            final(self).wf(),
            final(self)@ == spec_ld_f_vx(old(self)@, vx),
    {
        let value: u8 = self.v.read(vx);
        self.i = FONT_START_ADDR + value as u16 * 5;
        proof {
            assert(self@ =~= spec_ld_f_vx(old(self)@, vx));
        }
    }

    /// `Fx30`: point the index register at the 10-byte glyph for the
    /// value of `Vx`; a reported no-op outside SCHIP mode or when the
    /// value is no decimal digit.
    pub fn ld_hf_vx(&mut self, vx: u8)
        requires
            old(self).wf(),
            vx < 16,
        ensures
            final(self).wf(),
            final(self)@ == spec_ld_hf_vx(old(self)@, vx),
    {
        if self.schip_mode {
            let value: u8 = self.v.read(vx);
            if value <= 9 {
                self.i = LARGE_FONT_START_ADDR + value as u16 * 10;
            }
        }
        proof {
            assert(self@ =~= spec_ld_hf_vx(old(self)@, vx));
        }
    }

    /// `Fx33`: store the decimal hundreds, tens and ones of `Vx` at `I`,
    /// `I+1`, `I+2`. Reaching past the end of RAM is fatal.
    pub fn ld_b_vx(&mut self, vx: u8) -> (res: Result<(), Fault>)
        requires
            old(self).wf(),
            vx < 16,
        ensures
            final(self).wf(),
            ({
                let (t, f) = spec_ld_b_vx(old(self)@, vx);
                final(self)@ == t && match f {
                    None => res is Ok,
                    Some(fault) => res == Result::<(), Fault>::Err(fault),
                }
            }),
    {
        if self.i >= 4094 {
            return Err(Fault::AddressOutOfRange);
        }
        let value: u8 = self.v.read(vx);
        let base: u16 = self.i;
        self.ram.write(base, value / 100);
        self.ram.write(base + 1, (value % 100) / 10);
        self.ram.write(base + 2, value % 10);
        proof {
            assert(self@ =~= spec_ld_b_vx(old(self)@, vx).0);
        }
        Ok(())
    }

    /// `Fx55`: copy `V0..=Vx` into RAM at `I`; on base CHIP-8 only, `I`
    /// then advances past the block. Reaching past the end of RAM is
    /// fatal.
    pub fn ld_i_vx(&mut self, vx: u8) -> (res: Result<(), Fault>)
        requires
            old(self).wf(),
            vx < 16,
        ensures
            final(self).wf(),
            ({
                let (t, f) = spec_ld_i_vx(old(self)@, vx);
                final(self)@ == t && match f {
                    None => res is Ok,
                    Some(fault) => res == Result::<(), Fault>::Err(fault),
                }
            }),
    {
        if self.i as usize + vx as usize >= 4096 {
            return Err(Fault::AddressOutOfRange);
        }
        let base: u16 = self.i;
        let limit: u16 = vx as u16;
        let mut j: u16 = 0;
        while j <= limit
            invariant
                old(self).wf(),
                self.wf(),
                vx < 16,
                limit == vx as u16,
                j as int <= vx as int + 1,
                base == old(self)@.i,
                base as int + vx as int <= 4095,
                self@ == (CpuView { ram: self@.ram, ..old(self)@ }),
                self@.ram.len() == 4096,
                forall|a: int|
                    base as int <= a < base as int + j as int ==> self@.ram[a] == old(self)@.v[a
                        - base as int],
                forall|a: int|
                    0 <= a < 4096 && !(base as int <= a < base as int + j as int)
                        ==> self@.ram[a] == old(self)@.ram[a],
            decreases vx as int + 1 - j as int,
        {
            let value: u8 = self.v.read(j as u8);
            self.ram.write(base + j, value);
            j = j + 1;
        }
        if !self.schip_mode {
            self.i = self.i + vx as u16 + 1;
        }
        proof {
            assert(self@.ram =~= spec_ld_i_vx(old(self)@, vx).0.ram);
            assert(self@ =~= spec_ld_i_vx(old(self)@, vx).0);
        }
        Ok(())
    }

    /// `Fx65`: read `V0..=Vx` from RAM at `I`; on base CHIP-8 only, `I`
    /// then advances past the block. Reaching past the end of RAM is
    /// fatal.
    pub fn ld_vx_i(&mut self, vx: u8) -> (res: Result<(), Fault>)
        requires
            old(self).wf(),
            vx < 16,
        ensures
            final(self).wf(),
            ({
                let (t, f) = spec_ld_vx_i(old(self)@, vx);
                final(self)@ == t && match f {
                    None => res is Ok,
                    Some(fault) => res == Result::<(), Fault>::Err(fault),
                }
            }),
    {
        if self.i as usize + vx as usize >= 4096 {
            return Err(Fault::AddressOutOfRange);
        }
        let base: u16 = self.i;
        let limit: u16 = vx as u16;
        let mut j: u16 = 0;
        while j <= limit
            invariant
                old(self).wf(),
                self.wf(),
                vx < 16,
                limit == vx as u16,
                j as int <= vx as int + 1,
                base == old(self)@.i,
                base as int + vx as int <= 4095,
                self@ == (CpuView { v: self@.v, ..old(self)@ }),
                self@.v.len() == 16,
                forall|q: int| 0 <= q < j as int ==> self@.v[q] == old(self)@.ram[base as int + q],
                forall|q: int| j as int <= q < 16 ==> self@.v[q] == old(self)@.v[q],
            decreases vx as int + 1 - j as int,
        {
            let value: u8 = self.ram.read(base + j);
            self.v.write(j as u8, value);
            j = j + 1;
        }
        if !self.schip_mode {
            self.i = self.i + vx as u16 + 1;
        }
        proof {
            assert(self@.v =~= spec_ld_vx_i(old(self)@, vx).0.v);
            assert(self@ =~= spec_ld_vx_i(old(self)@, vx).0);
        }
        Ok(())
    }

    /// `Dxyn`: blit an `n`-byte sprite from RAM at `I` to
    /// `(Vx mod width, Vy mod height)`. Each sprite row wraps around the
    /// screen edges toroidally; every set sprite bit is XORed into the
    /// framebuffer. `VF` is rewritten with the mode's collision result:
    /// the count of colliding rows under SCHIP, otherwise 1 on any
    /// collision. Reading the sprite past the end of RAM is fatal.
    pub fn drw_vx_vy(&mut self, vx: u8, vy: u8, sprite_len: u8) -> (res: Result<(), Fault>)
        requires
            old(self).wf(),
            vx < 16,
            vy < 16,
            sprite_len < 16,
        ensures
            final(self).wf(),
            ({
                let (t, f) = spec_drw_vx_vy(old(self)@, vx, vy, sprite_len);
                final(self)@ == t && match f {
                    None => res is Ok,
                    Some(fault) => res == Result::<(), Fault>::Err(fault),
                }
            }),
    {
        if self.i as usize + sprite_len as usize > 4096 {
            return Err(Fault::AddressOutOfRange);
        }
        let w: usize = self.vram.get_screen_width();
        let h: usize = self.vram.get_screen_height();
        let x0: usize = self.v.read(vx) as usize % w;
        let y0: usize = self.v.read(vy) as usize % h;
        let sprite: Vec<u8> = self.ram.read_slice(self.i, sprite_len as u16);
        let ghost g0 = old(self)@.fb.grid;
        let ghost xi = x0 as int;
        let ghost yi = y0 as int;
        let ghost wi = w as int;
        let ghost hi = h as int;

        // Count the collisions against the pre-draw grid.
        let mut rows: u8 = 0;
        let mut hit_any: bool = false;
        let mut sy: usize = 0;
        while sy < sprite.len()
            invariant
                self.wf(),
                self@ == old(self)@,
                vx < 16,
                vy < 16,
                sprite_len < 16,
                sprite@.len() == sprite_len as int,
                g0 == self@.fb.grid,
                wi == fb_width(self@.fb.hires),
                hi == fb_height(self@.fb.hires),
                w as int == wi,
                h as int == hi,
                xi == x0 as int,
                yi == y0 as int,
                x0 < w,
                y0 < h,
                sy <= sprite@.len(),
                rows as int == row_collision_count(g0, sprite@, xi, yi, wi, hi, sy as int),
                rows as int <= sy as int,
                hit_any == any_collision(g0, sprite@, xi, yi, wi, hi, sy as int),
            decreases sprite@.len() - sy as int,
        {
            let mut row_hit: bool = false;
            let mut sx: usize = 0;
            while sx < 8
                invariant
                    self.wf(),
                    self@ == old(self)@,
                    sprite@.len() == sprite_len as int,
                    g0 == self@.fb.grid,
                    wi == fb_width(self@.fb.hires),
                    hi == fb_height(self@.fb.hires),
                    w as int == wi,
                    h as int == hi,
                    xi == x0 as int,
                    yi == y0 as int,
                    x0 < w,
                    y0 < h,
                    sy < sprite@.len(),
                    sprite_len < 16,
                    sx <= 8,
                    row_hit == row_collides_upto(g0, sprite@, xi, yi, wi, hi, sy as int, sx as int),
                decreases 8 - sx as int,
            {
                let b: u8 = read_bit_from_byte(sprite[sy], 7 - sx as u8);
                let px: usize = (x0 + sx) % w;
                let py: usize = (y0 + sy) % h;
                let lit: bool = self.vram.read(px, py) == 1;
                proof {
                    assert(b == sprite_bit(sprite@, sy as int, sx as int));
                    assert(py as int == (yi + sy as int) % hi);
                    assert(px as int == (xi + sx as int) % wi);
                    if b == 1 && lit {
                        assert(row_collides_upto(g0, sprite@, xi, yi, wi, hi, sy as int, sx as int + 1));
                    } else if row_hit {
                        let q = choose|q: int|
                            0 <= q < sx as int && sprite_bit(sprite@, sy as int, q) == 1 && g0[((yi
                                + sy as int) % hi) * wi + ((xi + q) % wi)] == 1;
                        assert(row_collides_upto(g0, sprite@, xi, yi, wi, hi, sy as int, sx as int + 1));
                    } else {
                        assert(!row_collides_upto(g0, sprite@, xi, yi, wi, hi, sy as int, sx as int + 1));
                    }
                }
                if b == 1 && lit {
                    row_hit = true;
                }
                sx = sx + 1;
            }
            proof {
                assert(row_hit == row_collides(g0, sprite@, xi, yi, wi, hi, sy as int));
                if row_hit {
                    assert(any_collision(g0, sprite@, xi, yi, wi, hi, sy as int + 1));
                } else if hit_any {
                    let q = choose|q: int|
                        0 <= q < sy as int && row_collides(g0, sprite@, xi, yi, wi, hi, q);
                    assert(any_collision(g0, sprite@, xi, yi, wi, hi, sy as int + 1));
                } else {
                    assert(!any_collision(g0, sprite@, xi, yi, wi, hi, sy as int + 1));
                }
            }
            if row_hit {
                rows = rows + 1;
                hit_any = true;
            }
            sy = sy + 1;
        }

        // Rewrite every pixel with its post-blit value.
        let total: usize = if self.vram.get_hires_mode() {
            8192
        } else {
            2048
        };
        let mut idx: usize = 0;
        while idx < total
            invariant
                self.wf(),
                self@ == (CpuView { fb: self@.fb, ..old(self)@ }),
                self@.fb.hires == old(self)@.fb.hires,
                sprite@.len() == sprite_len as int,
                sprite_len < 16,
                g0 == old(self)@.fb.grid,
                g0.len() == total as int,
                wi == fb_width(self@.fb.hires),
                hi == fb_height(self@.fb.hires),
                w as int == wi,
                h as int == hi,
                xi == x0 as int,
                yi == y0 as int,
                x0 < w,
                y0 < h,
                total as int == crate::video::fb_len(self@.fb.hires),
                idx <= total,
                self@.fb.grid.len() == total as int,
                forall|j: int|
                    0 <= j < idx as int ==> self@.fb.grid[j] == draw_pixel(
                        g0,
                        sprite@,
                        xi,
                        yi,
                        wi,
                        hi,
                        j,
                    ),
                forall|j: int| idx as int <= j < total as int ==> self@.fb.grid[j] == g0[j],
            decreases total as int - idx as int,
        {
            let px: usize = idx % w;
            let py: usize = idx / w;
            proof {
                vstd::arithmetic::div_mod::lemma_fundamental_div_mod(idx as int, wi);
                if self@.fb.hires {
                    assert(wi == 128 && hi == 64);
                } else {
                    assert(wi == 64 && hi == 32);
                }
                assert(px < w);
                assert(py < h);
                assert(py as int * wi + px as int == idx as int);
            }
            let dy: usize = (py + h - y0) % h;
            let dx: usize = (px + w - x0) % w;
            if dy < sprite.len() && dx < 8 {
                let b: u8 = read_bit_from_byte(sprite[dy], 7 - dx as u8);
                let p: u8 = self.vram.read(px, py);
                let newp: u8 = if b == 1 {
                    if p == 1 {
                        0
                    } else {
                        1
                    }
                } else {
                    p
                };
                self.vram.write(px, py, newp);
                proof {
                    assert(self@.fb.grid[idx as int] == draw_pixel(g0, sprite@, xi, yi, wi, hi, idx as int));
                }
            } else {
                proof {
                    assert(self@.fb.grid[idx as int] == draw_pixel(g0, sprite@, xi, yi, wi, hi, idx as int));
                }
            }
            idx = idx + 1;
        }
        let flag: u8 = if self.schip_mode {
            rows
        } else if hit_any {
            1
        } else {
            0
        };
        self.v.write(0xF, flag);
        self.vram_changed = true;
        proof {
            let (t, f) = spec_drw_vx_vy(old(self)@, vx, vy, sprite_len);
            assert(sprite@ == old(self)@.ram.subrange(
                old(self)@.i as int,
                old(self)@.i as int + sprite_len as int,
            ));
            assert(flag == crate::semantics::draw_flag(
                old(self)@.schip_mode,
                g0,
                sprite@,
                xi,
                yi,
                wi,
                hi,
                sprite_len as int,
            ));
            assert(self@.fb.grid =~= crate::semantics::draw_grid(g0, sprite@, xi, yi, wi, hi));
            assert(self@ =~= t);
        }
        Ok(())
    }

    /// `Fx75`: save registers to the RPL flags; the flags are not
    /// modeled, so this is a reported no-op in every mode.
    pub fn ld_r_vx(&mut self, _vx: u8)
        requires
            old(self).wf(),
        ensures
            final(self).wf(),
            final(self)@ == old(self)@,
    {
    }

    /// `Fx85`: restore registers from the RPL flags; the flags are not
    /// modeled, so this is a reported no-op in every mode.
    pub fn ld_vx_r(&mut self, _vx: u8)
        requires
            old(self).wf(),
        ensures
            final(self).wf(),
            final(self)@ == old(self)@,
    {
    }

    /// Decode one fetched word and execute it.
    fn execute_instruction(&mut self, instruction: u16) -> (res: Result<(), Fault>)
        requires
            old(self).wf(),
        ensures
            final(self).wf(),
            exists|r: u8| exec_matches(old(self)@, instruction, r, final(self)@, res),
    {
        proof {
            crate::decode::lemma_decode_operands_bounded(instruction);
        }
        let res: Result<(), Fault> = match decode(instruction) {
            Instruction::Scd(n) => {
                self.scd(n);
                Ok(())
            },
            Instruction::Cls => {
                self.cls();
                Ok(())
            },
            Instruction::Ret => self.ret(),
            Instruction::Scr => {
                self.scr();
                Ok(())
            },
            Instruction::Scl => {
                self.scl();
                Ok(())
            },
            Instruction::Exit => {
                self.exit();
                Ok(())
            },
            Instruction::Low => {
                self.low();
                Ok(())
            },
            Instruction::High => {
                self.high();
                Ok(())
            },
            Instruction::Jp(nnn) => {
                self.jp(nnn);
                Ok(())
            },
            Instruction::Call(nnn) => self.call(nnn),
            Instruction::SeVx(x, kk) => {
                self.se_vx(x, kk);
                Ok(())
            },
            Instruction::SneVx(x, kk) => {
                self.sne_vx(x, kk);
                Ok(())
            },
            Instruction::SeVxVy(x, y) => {
                self.se_vx_vy(x, y);
                Ok(())
            },
            Instruction::LdVx(x, kk) => {
                self.ld_vx(x, kk);
                Ok(())
            },
            Instruction::AddVx(x, kk) => {
                self.add_vx(x, kk);
                Ok(())
            },
            Instruction::LdVxVy(x, y) => {
                self.ld_vx_vy(x, y);
                Ok(())
            },
            Instruction::OrVxVy(x, y) => {
                self.or_vx_vy(x, y);
                Ok(())
            },
            Instruction::AndVxVy(x, y) => {
                self.and_vx_vy(x, y);
                Ok(())
            },
            Instruction::XorVxVy(x, y) => {
                self.xor_vx_vy(x, y);
                Ok(())
            },
            Instruction::AddVxVy(x, y) => {
                self.add_vx_vy(x, y);
                Ok(())
            },
            Instruction::SubVxVy(x, y) => {
                self.sub_vx_vy(x, y);
                Ok(())
            },
            Instruction::ShrVxVy(x, y) => {
                self.shr_vx_vy(x, y);
                Ok(())
            },
            Instruction::SubnVxVy(x, y) => {
                self.subn_vx_vy(x, y);
                Ok(())
            },
            Instruction::ShlVxVy(x, y) => {
                self.shl_vx_vy(x, y);
                Ok(())
            },
            Instruction::SneVxVy(x, y) => {
                self.sne_vx_vy(x, y);
                Ok(())
            },
            Instruction::LdI(nnn) => {
                self.ld_i(nnn);
                Ok(())
            },
            Instruction::JpV0(nnn) => {
                self.jp_v0(nnn);
                Ok(())
            },
            Instruction::RndVx(x, kk) => {
                self.rnd_vx(x, kk);
                Ok(())
            },
            Instruction::DrwVxVy(x, y, n) => self.drw_vx_vy(x, y, n),
            Instruction::SkpVx(x) => self.skp_vx(x),
            Instruction::SknpVx(x) => self.sknp_vx(x),
            Instruction::LdVxDt(x) => {
                self.ld_vx_dt(x);
                Ok(())
            },
            Instruction::LdVxK(x) => {
                self.ld_vx_k(x);
                Ok(())
            },
            Instruction::LdDtVx(x) => {
                self.ld_dt_vx(x);
                Ok(())
            },
            Instruction::LdStVx(x) => {
                self.ld_st_vx(x);
                Ok(())
            },
            Instruction::AddIVx(x) => {
                self.add_i_vx(x);
                Ok(())
            },
            Instruction::LdFVx(x) => {
                self.ld_f_vx(x);
                Ok(())
            },
            Instruction::LdHfVx(x) => {
                self.ld_hf_vx(x);
                Ok(())
            },
            Instruction::LdBVx(x) => self.ld_b_vx(x),
            Instruction::LdIVx(x) => self.ld_i_vx(x),
            Instruction::LdVxI(x) => self.ld_vx_i(x),
            Instruction::LdRVx(x) => {
                self.ld_r_vx(x);
                Ok(())
            },
            Instruction::LdVxR(x) => {
                self.ld_vx_r(x);
                Ok(())
            },
            Instruction::Unknown(_) => Ok(()),
        };
        proof {
            match spec_decode(instruction) {
                Instruction::RndVx(x, kk) => {
                    let r = choose|r: u8| self@ == spec_rnd_vx(old(self)@, x, kk, r);
                    assert(exec_matches(old(self)@, instruction, r, self@, res));
                },
                _ => {
                    assert(exec_matches(old(self)@, instruction, 0u8, self@, res));
                },
            }
        }
        res
    }

    /// One tick. The drawing flag is lowered first. While a key wait is
    /// pending only the latch is scanned: the first pressed key lands in
    /// the recorded target register and ends the wait, and nothing else
    /// moves. Otherwise both timers count down once and one instruction
    /// is fetched, decoded and executed; a fatal condition of the running
    /// program is reported as the error of the corresponding tick.
    pub fn tick(&mut self) -> (res: Result<(), Fault>)
        requires
            old(self).wf(),
        ensures
            final(self).wf(),
            exists|r: u8| step_matches(old(self)@, r, final(self)@, res),
    {
        self.vram_changed = false;
        if self.waiting_for_key {
            let mut key: usize = 0;
            while key < 16
                invariant
                    self.wf(),
                    self@ == (CpuView { vram_changed: false, ..old(self)@ }),
                    old(self)@.waiting_for_key,
                    key <= 16,
                    first_pressed_from(self@.keys, 0) == first_pressed_from(
                        self@.keys,
                        key as int,
                    ),
                decreases 16 - key,
            {
                if self.keys.get(key) {
                    proof {
                        assert(first_pressed_from(self@.keys, key as int) == Some(key as int));
                    }
                    let target: u8 = self.key_register;
                    self.v.write(target, key as u8);
                    self.waiting_for_key = false;
                    self.key_register = 0;
                    proof {
                        assert(self@ =~= (CpuView {
                            v: old(self)@.v.update(old(self)@.key_register as int, key as u8),
                            waiting_for_key: false,
                            key_register: 0,
                            vram_changed: false,
                            ..old(self)@
                        }));
                        assert(step_matches(old(self)@, 0u8, self@, Result::<(), Fault>::Ok(())));
                    }
                    return Ok(());
                }
                proof {
                    assert(first_pressed_from(self@.keys, key as int) == first_pressed_from(
                        self@.keys,
                        key as int + 1,
                    ));
                }
                key = key + 1;
            }
            proof {
                assert(first_pressed_from(self@.keys, 0) is None);
                assert(step_matches(old(self)@, 0u8, self@, Result::<(), Fault>::Ok(())));
            }
            return Ok(());
        }
        self.delay_timer.decrement_if_positive();
        self.sound_timer.decrement_if_positive();
        let ghost fetched = CpuView {
            vram_changed: false,
            delay: crate::timer::tick_down(old(self)@.delay),
            sound: crate::timer::tick_down(old(self)@.sound),
            ..old(self)@
        };
        if self.pc.address >= 4095 {
            proof {
                assert(self@ =~= fetched);
                assert(step_matches(
                    old(self)@,
                    0u8,
                    self@,
                    Result::<(), Fault>::Err(Fault::AddressOutOfRange),
                ));
            }
            return Err(Fault::AddressOutOfRange);
        }
        let hi: u8 = self.ram.read(self.pc.address);
        let lo: u8 = self.ram.read(self.pc.address + 1);
        let instruction: u16 = hi as u16 * 256 + lo as u16;
        self.pc.next();
        proof {
            assert(self@ =~= (CpuView { pc: (fetched.pc + 2) as u16, ..fetched }));
            assert(instruction == fetch_word(fetched));
        }
        let ghost mid = self@;
        let res = self.execute_instruction(instruction);
        proof {
            let r = choose|r: u8| exec_matches(mid, instruction, r, self@, res);
            assert(step_matches(old(self)@, r, self@, res));
        }
        res
    }
}

} // verus!
