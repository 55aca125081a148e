//! The leaf components and the decoder, exercised directly.

use chip8::config::{EmulatorConfig, EmulatorState};
use chip8::decode::{decode, Instruction};
use chip8::input_buffer::InputBuffer;
use chip8::memory::{Memory, Storage};
use chip8::program_counter::ProgramCounter;
use chip8::registers::Registers;
use chip8::stack::Stack;
use chip8::tape::Tape;
use chip8::timer::Timer;
use chip8::utils::read_bit_from_byte;
use chip8::video::VideoMemory;

#[test]
fn memory_reads_back_writes() {
    let mut mem = Memory::new();
    assert_eq!(mem.read(0), 0);
    mem.write(0x123, 0xAB);
    assert_eq!(mem.read(0x123), 0xAB);
    let slice = mem.read_slice(0x122, 3);
    assert_eq!(slice, vec![0x00, 0xAB, 0x00]);
    mem.clear();
    assert_eq!(mem.read(0x123), 0);
}

#[test]
fn memory_serves_the_storage_interface() {
    let mut mem = Memory::new();
    Storage::write(&mut mem, 7, 0x55);
    assert_eq!(Storage::read(&mem, 7), 0x55);
    Storage::clear(&mut mem);
    assert_eq!(Storage::read(&mem, 7), 0);
}

#[test]
fn registers_read_back_writes() {
    let mut regs = Registers::new();
    assert_eq!(regs.read(0xF), 0);
    regs.write(0xF, 0x7E);
    assert_eq!(regs.read(0xF), 0x7E);
    regs.clear();
    assert_eq!(regs.read(0xF), 0);
}

#[test]
fn program_counter_moves() {
    let mut pc = ProgramCounter::new();
    assert_eq!(pc.address, 0x200);
    pc.next();
    assert_eq!(pc.address, 0x202);
    pc.jump(0x789);
    assert_eq!(pc.address, 0x789);
    pc.reset();
    assert_eq!(pc.address, 0x200);
}

#[test]
fn stack_reports_overflow_and_underflow() {
    let mut stack = Stack::new();
    assert_eq!(stack.pop(), None);
    for d in 0..16u16 {
        assert!(stack.push(0x200 + d));
    }
    assert!(!stack.push(0x999));
    assert_eq!(stack.pop(), Some(0x20F));
    assert!(stack.push(0x999));
    assert_eq!(stack.pop(), Some(0x999));
    stack.clear();
    assert_eq!(stack.pop(), None);
}

#[test]
fn timer_saturates_at_zero() {
    let mut timer = Timer::new();
    assert_eq!(timer.get_value(), 0);
    timer.decrement_if_positive();
    assert_eq!(timer.get_value(), 0);
    timer.set_value(2);
    timer.decrement_if_positive();
    assert_eq!(timer.get_value(), 1);
    timer.decrement_if_positive();
    timer.decrement_if_positive();
    assert_eq!(timer.get_value(), 0);
    timer.set_value(5);
    timer.clear();
    assert_eq!(timer.get_value(), 0);
}

#[test]
fn input_buffer_latches_keys() {
    let mut keys = InputBuffer::new();
    assert!(!keys.get(0xC));
    keys.set(0xC, true);
    assert!(keys.get(0xC));
    assert!(keys.get_key(0xC));
    assert_eq!(keys.get_buffer().len(), 16);
    assert!(keys.get_buffer()[0xC]);
    keys.clear();
    assert!(!keys.get(0xC));
}

#[test]
fn video_memory_stores_pixels_per_mode() {
    let mut vram = VideoMemory::new();
    assert_eq!(vram.get_screen_width(), 64);
    assert_eq!(vram.get_screen_height(), 32);
    assert!(!vram.get_hires_mode());
    vram.write(10, 20, 1);
    assert_eq!(vram.read(10, 20), 1);
    vram.clear();
    assert_eq!(vram.read(10, 20), 0);
    vram.write(0, 0, 1);
    vram.set_high_res(true);
    assert_eq!(vram.get_screen_width(), 128);
    assert_eq!(vram.get_screen_height(), 64);
    assert_eq!(vram.read(0, 0), 0);
    vram.write(127, 63, 1);
    assert_eq!(vram.read(127, 63), 1);
}

#[test]
fn tape_starts_empty() {
    let tape = Tape::new();
    assert!(tape.rom.is_empty());
    assert_eq!(tape.size, 0);
    assert_eq!(tape.baud, 750);
    assert!(!tape.sim_timing);
}

#[test]
fn config_defaults() {
    let config = EmulatorConfig::default();
    assert!(!config.schip_mode);
    assert!(!config.quirks_mode);
    assert!(!config.debug_mode);
    assert!(!config.step_mode);
    assert_eq!(config.target_clock_speed, 120);
    assert_eq!(config.max_rom_size, 3585);
    let state = EmulatorState::Running;
    assert!(matches!(state, EmulatorState::Running));
}

#[test]
fn bits_read_from_the_low_end() {
    assert_eq!(read_bit_from_byte(0b1000_0001, 0), 1);
    assert_eq!(read_bit_from_byte(0b1000_0001, 1), 0);
    assert_eq!(read_bit_from_byte(0b1000_0001, 7), 1);
    assert_eq!(read_bit_from_byte(0xFF, 8), 0);
}

#[test]
fn decoder_splits_every_family() {
    assert_eq!(decode(0x00E0), Instruction::Cls);
    assert_eq!(decode(0x00EE), Instruction::Ret);
    assert_eq!(decode(0x00C3), Instruction::Scd(3));
    assert_eq!(decode(0x00FB), Instruction::Scr);
    assert_eq!(decode(0x00FC), Instruction::Scl);
    assert_eq!(decode(0x00FD), Instruction::Exit);
    assert_eq!(decode(0x00FE), Instruction::Low);
    assert_eq!(decode(0x00FF), Instruction::High);
    assert_eq!(decode(0x1234), Instruction::Jp(0x234));
    assert_eq!(decode(0x2345), Instruction::Call(0x345));
    assert_eq!(decode(0x3A7F), Instruction::SeVx(0xA, 0x7F));
    assert_eq!(decode(0x4A7F), Instruction::SneVx(0xA, 0x7F));
    assert_eq!(decode(0x5AB0), Instruction::SeVxVy(0xA, 0xB));
    assert_eq!(decode(0x6C42), Instruction::LdVx(0xC, 0x42));
    assert_eq!(decode(0x7C42), Instruction::AddVx(0xC, 0x42));
    assert_eq!(decode(0x8AB0), Instruction::LdVxVy(0xA, 0xB));
    assert_eq!(decode(0x8AB1), Instruction::OrVxVy(0xA, 0xB));
    assert_eq!(decode(0x8AB2), Instruction::AndVxVy(0xA, 0xB));
    assert_eq!(decode(0x8AB3), Instruction::XorVxVy(0xA, 0xB));
    assert_eq!(decode(0x8AB4), Instruction::AddVxVy(0xA, 0xB));
    assert_eq!(decode(0x8AB5), Instruction::SubVxVy(0xA, 0xB));
    assert_eq!(decode(0x8AB6), Instruction::ShrVxVy(0xA, 0xB));
    assert_eq!(decode(0x8AB7), Instruction::SubnVxVy(0xA, 0xB));
    assert_eq!(decode(0x8ABE), Instruction::ShlVxVy(0xA, 0xB));
    assert_eq!(decode(0x9AB0), Instruction::SneVxVy(0xA, 0xB));
    assert_eq!(decode(0xA123), Instruction::LdI(0x123));
    assert_eq!(decode(0xB123), Instruction::JpV0(0x123));
    assert_eq!(decode(0xC5AA), Instruction::RndVx(0x5, 0xAA));
    assert_eq!(decode(0xD125), Instruction::DrwVxVy(0x1, 0x2, 0x5));
    assert_eq!(decode(0xE49E), Instruction::SkpVx(0x4));
    assert_eq!(decode(0xE4A1), Instruction::SknpVx(0x4));
    assert_eq!(decode(0xF407), Instruction::LdVxDt(0x4));
    assert_eq!(decode(0xF40A), Instruction::LdVxK(0x4));
    assert_eq!(decode(0xF415), Instruction::LdDtVx(0x4));
    assert_eq!(decode(0xF418), Instruction::LdStVx(0x4));
    assert_eq!(decode(0xF41E), Instruction::AddIVx(0x4));
    assert_eq!(decode(0xF429), Instruction::LdFVx(0x4));
    assert_eq!(decode(0xF430), Instruction::LdHfVx(0x4));
    assert_eq!(decode(0xF433), Instruction::LdBVx(0x4));
    assert_eq!(decode(0xF455), Instruction::LdIVx(0x4));
    assert_eq!(decode(0xF465), Instruction::LdVxI(0x4));
    assert_eq!(decode(0xF475), Instruction::LdRVx(0x4));
    assert_eq!(decode(0xF485), Instruction::LdVxR(0x4));
    assert_eq!(decode(0x5AB1), Instruction::Unknown(0x5AB1));
    assert_eq!(decode(0x8AB8), Instruction::Unknown(0x8AB8));
    assert_eq!(decode(0xE400), Instruction::Unknown(0xE400));
    assert_eq!(decode(0xF400), Instruction::Unknown(0xF400));
    assert_eq!(decode(0x0123), Instruction::Unknown(0x0123));
}
