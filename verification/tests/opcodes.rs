//! Opcode-level behavior, driven through the public methods of the core.

use chip8::cpu::Cpu;
use chip8::Fault;

#[test]
fn load_immediate_then_read_yields_immediate() {
    let mut cpu = Cpu::new(false);
    cpu.ld_vx(0, 0x12);
    assert_eq!(cpu.get_register(0), 0x12);
    cpu.ld_vx(7, 0xFF);
    assert_eq!(cpu.get_register(7), 0xFF);
    cpu.ld_vx(15, 0x00);
    assert_eq!(cpu.get_register(15), 0x00);
}

#[test]
fn add_immediate_composes_modulo_256() {
    let mut twice = Cpu::new(false);
    twice.ld_vx(3, 200);
    twice.add_vx(3, 100);
    twice.add_vx(3, 60);
    let mut once = Cpu::new(false);
    once.ld_vx(3, 200);
    once.add_vx(3, ((100u16 + 60u16) % 256) as u8);
    assert_eq!(twice.get_register(3), once.get_register(3));
    assert_eq!(twice.get_register(3), ((200u16 + 160u16) % 256) as u8);
}

#[test]
fn add_immediate_wraps_without_flag() {
    let mut cpu = Cpu::new(false);
    cpu.ld_vx(0, 0xFF);
    cpu.ld_vx(0xF, 7);
    cpu.add_vx(0, 2);
    assert_eq!(cpu.get_register(0), 1);
    assert_eq!(cpu.get_register(0xF), 7);
}

#[test]
fn add_register_register_sets_carry() {
    let mut cpu = Cpu::new(false);
    cpu.ld_vx(0, 0xFF);
    cpu.ld_vx(1, 0x01);
    cpu.add_vx_vy(0, 1);
    assert_eq!(cpu.get_register(0), 0x00);
    assert_eq!(cpu.get_register(0xF), 1);

    let mut cpu = Cpu::new(false);
    cpu.ld_vx(0, 0x01);
    cpu.ld_vx(1, 0x01);
    cpu.add_vx_vy(0, 1);
    assert_eq!(cpu.get_register(0), 0x02);
    assert_eq!(cpu.get_register(0xF), 0);
}

#[test]
fn sub_sets_borrow_flag() {
    let mut cpu = Cpu::new(false);
    cpu.ld_vx(0, 10);
    cpu.ld_vx(1, 3);
    cpu.sub_vx_vy(0, 1);
    assert_eq!(cpu.get_register(0), 7);
    assert_eq!(cpu.get_register(0xF), 1);

    let mut cpu = Cpu::new(false);
    cpu.ld_vx(0, 3);
    cpu.ld_vx(1, 10);
    cpu.sub_vx_vy(0, 1);
    assert_eq!(cpu.get_register(0), 249);
    assert_eq!(cpu.get_register(0xF), 0);
}

#[test]
fn subn_reverses_operands() {
    let mut cpu = Cpu::new(false);
    cpu.ld_vx(0, 3);
    cpu.ld_vx(1, 10);
    cpu.subn_vx_vy(0, 1);
    assert_eq!(cpu.get_register(0), 7);
    assert_eq!(cpu.get_register(0xF), 1);

    let mut cpu = Cpu::new(false);
    cpu.ld_vx(0, 10);
    cpu.ld_vx(1, 3);
    cpu.subn_vx_vy(0, 1);
    assert_eq!(cpu.get_register(0), 249);
    assert_eq!(cpu.get_register(0xF), 0);
}

#[test]
fn logic_ops() {
    let mut cpu = Cpu::new(false);
    cpu.ld_vx(0, 0b1100);
    cpu.ld_vx(1, 0b1010);
    cpu.or_vx_vy(0, 1);
    assert_eq!(cpu.get_register(0), 0b1110);
    cpu.ld_vx(0, 0b1100);
    cpu.and_vx_vy(0, 1);
    assert_eq!(cpu.get_register(0), 0b1000);
    cpu.ld_vx(0, 0b1100);
    cpu.xor_vx_vy(0, 1);
    assert_eq!(cpu.get_register(0), 0b0110);
}

#[test]
fn shr_semantics_differ_by_mode() {
    // Base CHIP-8: the source is Vy; its low bit lands in VF.
    let mut cpu = Cpu::new(false);
    cpu.ld_vx(1, 0x00);
    cpu.ld_vx(2, 0x03);
    cpu.shr_vx_vy(1, 2);
    assert_eq!(cpu.get_register(1), 0x01);
    assert_eq!(cpu.get_register(0xF), 1);
    assert_eq!(cpu.get_register(2), 0x03);

    // SCHIP: the source is Vx itself; Vy is ignored.
    let mut cpu = Cpu::new(true);
    cpu.ld_vx(1, 0x03);
    cpu.ld_vx(2, 0x00);
    cpu.shr_vx_vy(1, 2);
    assert_eq!(cpu.get_register(1), 0x01);
    assert_eq!(cpu.get_register(0xF), 1);
}

#[test]
fn shl_semantics_differ_by_mode() {
    let mut cpu = Cpu::new(false);
    cpu.ld_vx(1, 0x00);
    cpu.ld_vx(2, 0x81);
    cpu.shl_vx_vy(1, 2);
    assert_eq!(cpu.get_register(1), 0x02);
    assert_eq!(cpu.get_register(0xF), 1);

    let mut cpu = Cpu::new(true);
    cpu.ld_vx(1, 0x81);
    cpu.ld_vx(2, 0x00);
    cpu.shl_vx_vy(1, 2);
    assert_eq!(cpu.get_register(1), 0x02);
    assert_eq!(cpu.get_register(0xF), 1);
}

#[test]
fn skips_compare_as_documented() {
    let mut cpu = Cpu::new(false);
    let start = cpu.get_pc();
    cpu.ld_vx(0, 5);
    cpu.se_vx(0, 5);
    assert_eq!(cpu.get_pc(), start + 2);
    cpu.se_vx(0, 6);
    assert_eq!(cpu.get_pc(), start + 2);
    cpu.sne_vx(0, 6);
    assert_eq!(cpu.get_pc(), start + 4);
    cpu.ld_vx(1, 5);
    cpu.se_vx_vy(0, 1);
    assert_eq!(cpu.get_pc(), start + 6);
    cpu.sne_vx_vy(0, 1);
    assert_eq!(cpu.get_pc(), start + 6);
    cpu.ld_vx(1, 9);
    cpu.sne_vx_vy(0, 1);
    assert_eq!(cpu.get_pc(), start + 8);
}

#[test]
fn jumps_and_index_loads() {
    let mut cpu = Cpu::new(false);
    cpu.jp(0x345);
    assert_eq!(cpu.get_pc(), 0x345);
    cpu.ld_vx(0, 0x10);
    cpu.jp_v0(0x300);
    assert_eq!(cpu.get_pc(), 0x310);
    cpu.ld_i(0xABC);
    assert_eq!(cpu.get_i(), 0xABC);
}

#[test]
fn add_i_wraps_at_sixteen_bits() {
    let mut cpu = Cpu::new(false);
    cpu.ld_i(0xFFF);
    cpu.ld_vx(0, 2);
    cpu.add_i_vx(0);
    assert_eq!(cpu.get_i(), 0x1001);
    cpu.ld_i(0xFFFF);
    cpu.add_i_vx(0);
    assert_eq!(cpu.get_i(), 0x0001);
}

#[test]
fn font_pointer_opcodes() {
    let mut cpu = Cpu::new(false);
    cpu.ld_vx(0, 0xA);
    cpu.ld_f_vx(0);
    assert_eq!(cpu.get_i(), 0x50 + 10 * 5);

    // Outside SCHIP mode the large-font load is a no-op.
    cpu.ld_i(0);
    cpu.ld_vx(0, 3);
    cpu.ld_hf_vx(0);
    assert_eq!(cpu.get_i(), 0);

    let mut cpu = Cpu::new(true);
    cpu.ld_vx(0, 3);
    cpu.ld_hf_vx(0);
    assert_eq!(cpu.get_i(), 0x50 + 3 * 10);
    // A value past the decimal digits is reported and ignored.
    cpu.ld_vx(0, 10);
    cpu.ld_hf_vx(0);
    assert_eq!(cpu.get_i(), 0x50 + 3 * 10);
}

#[test]
fn bcd_decomposition() {
    let mut cpu = Cpu::new(false);
    cpu.ld_vx(4, 123);
    cpu.ld_i(0x300);
    assert!(cpu.ld_b_vx(4).is_ok());
    assert_eq!(cpu.read_memory(0x300), 1);
    assert_eq!(cpu.read_memory(0x301), 2);
    assert_eq!(cpu.read_memory(0x302), 3);

    cpu.ld_vx(4, 7);
    assert!(cpu.ld_b_vx(4).is_ok());
    assert_eq!(cpu.read_memory(0x300), 0);
    assert_eq!(cpu.read_memory(0x301), 0);
    assert_eq!(cpu.read_memory(0x302), 7);
}

#[test]
fn bcd_near_end_of_ram_is_fatal() {
    let mut cpu = Cpu::new(false);
    cpu.ld_vx(0, 9);
    cpu.ld_i(4094);
    assert_eq!(cpu.ld_b_vx(0), Err(Fault::AddressOutOfRange));
    cpu.ld_i(4093);
    assert!(cpu.ld_b_vx(0).is_ok());
    assert_eq!(cpu.read_memory(4095), 9);
}

#[test]
fn block_store_advances_i_only_on_base_chip8() {
    let mut cpu = Cpu::new(false);
    cpu.ld_vx(0, 0xAA);
    cpu.ld_vx(1, 0xBB);
    cpu.ld_vx(2, 0xCC);
    cpu.ld_i(0x400);
    assert!(cpu.ld_i_vx(2).is_ok());
    assert_eq!(cpu.read_memory(0x400), 0xAA);
    assert_eq!(cpu.read_memory(0x401), 0xBB);
    assert_eq!(cpu.read_memory(0x402), 0xCC);
    assert_eq!(cpu.get_i(), 0x403);

    let mut cpu = Cpu::new(true);
    cpu.ld_vx(0, 0xAA);
    cpu.ld_i(0x400);
    assert!(cpu.ld_i_vx(0).is_ok());
    assert_eq!(cpu.read_memory(0x400), 0xAA);
    assert_eq!(cpu.get_i(), 0x400);
}

#[test]
fn block_load_reads_back_registers() {
    let mut cpu = Cpu::new(false);
    cpu.ld_vx(0, 1);
    cpu.ld_vx(1, 2);
    cpu.ld_vx(2, 3);
    cpu.ld_i(0x500);
    assert!(cpu.ld_i_vx(2).is_ok());
    // Base mode moved I; point it back before reading.
    cpu.ld_i(0x500);
    cpu.ld_vx(0, 0);
    cpu.ld_vx(1, 0);
    cpu.ld_vx(2, 0);
    assert!(cpu.ld_vx_i(2).is_ok());
    assert_eq!(cpu.get_register(0), 1);
    assert_eq!(cpu.get_register(1), 2);
    assert_eq!(cpu.get_register(2), 3);
    assert_eq!(cpu.get_i(), 0x503);
}

#[test]
fn block_transfer_past_ram_is_fatal() {
    let mut cpu = Cpu::new(false);
    cpu.ld_i(4090);
    assert_eq!(cpu.ld_i_vx(6), Err(Fault::AddressOutOfRange));
    assert_eq!(cpu.ld_vx_i(6), Err(Fault::AddressOutOfRange));
    assert!(cpu.ld_i_vx(5).is_ok());
}

#[test]
fn random_is_masked() {
    let mut cpu = Cpu::new(false);
    for _ in 0..32 {
        cpu.rnd_vx(0, 0x0F);
        assert_eq!(cpu.get_register(0) & 0xF0, 0);
    }
    cpu.ld_vx(0, 0xFF);
    cpu.rnd_vx(0, 0x00);
    assert_eq!(cpu.get_register(0), 0);
}

#[test]
fn timer_moves() {
    let mut cpu = Cpu::new(false);
    cpu.ld_vx(0, 42);
    cpu.ld_dt_vx(0);
    assert_eq!(cpu.get_delay(), 42);
    cpu.ld_vx(1, 0);
    cpu.ld_vx_dt(1);
    assert_eq!(cpu.get_register(1), 42);
    cpu.ld_vx(2, 9);
    cpu.ld_st_vx(2);
    assert_eq!(cpu.sound_timer.get_value(), 9);
}

#[test]
fn key_skips_and_out_of_range_key() {
    let mut cpu = Cpu::new(false);
    let start = cpu.get_pc();
    cpu.ld_vx(0, 5);
    cpu.keys.set(5, true);
    assert!(cpu.skp_vx(0).is_ok());
    assert_eq!(cpu.get_pc(), start + 2);
    assert!(cpu.sknp_vx(0).is_ok());
    assert_eq!(cpu.get_pc(), start + 2);
    cpu.keys.set(5, false);
    assert!(cpu.sknp_vx(0).is_ok());
    assert_eq!(cpu.get_pc(), start + 4);

    cpu.ld_vx(1, 200);
    assert_eq!(cpu.skp_vx(1), Err(Fault::KeyOutOfRange));
    assert_eq!(cpu.sknp_vx(1), Err(Fault::KeyOutOfRange));
}

#[test]
fn exit_only_in_schip_mode() {
    let mut cpu = Cpu::new(false);
    cpu.exit();
    assert!(!cpu.quit_flag);
    let mut cpu = Cpu::new(true);
    cpu.exit();
    assert!(cpu.quit_flag);
}

#[test]
fn resolution_toggle_only_in_schip_mode() {
    let mut cpu = Cpu::new(true);
    assert_eq!(cpu.vram.get_screen_width(), 64);
    assert_eq!(cpu.vram.get_screen_height(), 32);
    cpu.high();
    assert_eq!(cpu.vram.get_screen_width(), 128);
    assert_eq!(cpu.vram.get_screen_height(), 64);
    assert!(cpu.vram_changed);
    cpu.low();
    assert_eq!(cpu.vram.get_screen_width(), 64);

    let mut cpu = Cpu::new(false);
    cpu.high();
    assert_eq!(cpu.vram.get_screen_width(), 64);
}

#[test]
fn ret_on_empty_stack_is_fatal() {
    let mut cpu = Cpu::new(false);
    assert_eq!(cpu.ret(), Err(Fault::StackUnderflow));
}

#[test]
fn call_then_ret_restores_pc() {
    let mut cpu = Cpu::new(false);
    let before = cpu.get_pc();
    assert!(cpu.call(0x300).is_ok());
    assert_eq!(cpu.get_pc(), 0x300);
    assert!(cpu.ret().is_ok());
    assert_eq!(cpu.get_pc(), before);
}

#[test]
fn load_program_rejects_oversized_image() {
    let mut cpu = Cpu::new(false);
    let image: Vec<u8> = vec![0u8; 3585];
    assert_eq!(cpu.load_program(image), Err(Fault::RomTooLarge));
    let image: Vec<u8> = vec![0xABu8; 3584];
    assert!(cpu.load_program(image).is_ok());
    assert_eq!(cpu.read_memory(0x200), 0xAB);
    assert_eq!(cpu.read_memory(4095), 0xAB);
}

#[test]
fn reset_restores_power_on_state() {
    let mut cpu = Cpu::new(false);
    cpu.ld_vx(0, 9);
    cpu.ld_i(0x345);
    cpu.jp(0x600);
    assert!(cpu.load_program(vec![0x12, 0x00]).is_ok());
    cpu.reset();
    assert_eq!(cpu.get_register(0), 0);
    assert_eq!(cpu.get_i(), 0);
    assert_eq!(cpu.get_pc(), 0x200);
    assert_eq!(cpu.read_memory(0x200), 0);
    // The font is reseeded.
    assert_eq!(cpu.read_memory(0x50), 0xF0);
}

#[test]
fn font_is_seeded_at_construction() {
    let cpu = Cpu::new(false);
    assert_eq!(cpu.read_memory(0x50), 0xF0);
    assert_eq!(cpu.read_memory(0x51), 0x90);
    assert_eq!(cpu.read_memory(0x9F), 0x80);
    assert_eq!(cpu.read_memory(0xA0), 0x00);
    assert_eq!(cpu.read_memory(0x4F), 0x00);
}
