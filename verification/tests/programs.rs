//! End-to-end behavior: programs loaded into RAM and driven by `tick`.

use chip8::cpu::Cpu;
use chip8::Fault;

#[test]
fn bcd_program_writes_digits() {
    let mut cpu = Cpu::new(false);
    // LD I, 0x22A then LD B, V0 with V0 = 123.
    assert!(cpu.load_program(vec![0xA2, 0x2A, 0xF0, 0x33]).is_ok());
    cpu.ld_vx(0, 123);
    assert!(cpu.tick().is_ok());
    assert_eq!(cpu.get_i(), 0x22A);
    assert!(cpu.tick().is_ok());
    assert_eq!(cpu.read_memory(0x22A), 1);
    assert_eq!(cpu.read_memory(0x22B), 2);
    assert_eq!(cpu.read_memory(0x22C), 3);
}

#[test]
fn seventeen_nested_calls_overflow_the_stack() {
    let mut cpu = Cpu::new(false);
    // CALL 0x200: each tick pushes a return address and jumps back here.
    assert!(cpu.load_program(vec![0x22, 0x00]).is_ok());
    for _ in 0..16 {
        assert!(cpu.tick().is_ok());
    }
    assert_eq!(cpu.tick(), Err(Fault::StackOverflow));
}

#[test]
fn call_then_ret_resumes_after_the_call() {
    let mut cpu = Cpu::new(false);
    // 0x200: CALL 0x204; 0x202: JP 0x202; 0x204: RET.
    assert!(cpu.load_program(vec![0x22, 0x04, 0x12, 0x02, 0x00, 0xEE]).is_ok());
    assert!(cpu.tick().is_ok());
    assert_eq!(cpu.get_pc(), 0x204);
    assert!(cpu.tick().is_ok());
    assert_eq!(cpu.get_pc(), 0x202);
}

#[test]
fn key_wait_suspends_until_a_key_lands() {
    let mut cpu = Cpu::new(false);
    // LD V3, K.
    assert!(cpu.load_program(vec![0xF3, 0x0A]).is_ok());
    assert!(cpu.tick().is_ok());
    assert!(cpu.is_waiting_for_key());
    assert_eq!(cpu.get_pc(), 0x202);

    // No key: ticks only scan; the program counter does not move.
    assert!(cpu.tick().is_ok());
    assert!(cpu.tick().is_ok());
    assert!(cpu.is_waiting_for_key());
    assert_eq!(cpu.get_pc(), 0x202);

    // A key press lands in the target register; execution resumes on the
    // following tick.
    cpu.keys.set(5, true);
    assert!(cpu.tick().is_ok());
    assert!(!cpu.is_waiting_for_key());
    assert_eq!(cpu.get_register(3), 5);
    assert_eq!(cpu.get_pc(), 0x202);
    assert!(cpu.tick().is_ok());
    assert_eq!(cpu.get_pc(), 0x204);
}

#[test]
fn key_wait_takes_the_lowest_pressed_key() {
    let mut cpu = Cpu::new(false);
    assert!(cpu.load_program(vec![0xF0, 0x0A]).is_ok());
    assert!(cpu.tick().is_ok());
    cpu.keys.set(9, true);
    cpu.keys.set(4, true);
    assert!(cpu.tick().is_ok());
    assert_eq!(cpu.get_register(0), 4);
}

#[test]
fn timers_count_down_once_per_tick() {
    let mut cpu = Cpu::new(false);
    // Unknown words execute as no-ops.
    assert!(cpu.load_program(vec![0x00, 0x00, 0x00, 0x00, 0x00, 0x00]).is_ok());
    cpu.ld_vx(0, 2);
    cpu.ld_dt_vx(0);
    cpu.ld_st_vx(0);
    assert!(cpu.tick().is_ok());
    assert_eq!(cpu.get_delay(), 1);
    assert_eq!(cpu.sound_timer.get_value(), 1);
    assert!(cpu.tick().is_ok());
    assert_eq!(cpu.get_delay(), 0);
    assert!(cpu.tick().is_ok());
    assert_eq!(cpu.get_delay(), 0);
    assert_eq!(cpu.sound_timer.get_value(), 0);
}

#[test]
fn fetch_past_ram_is_fatal() {
    let mut cpu = Cpu::new(false);
    cpu.jp(0xFFF);
    assert_eq!(cpu.tick(), Err(Fault::AddressOutOfRange));
    let mut cpu = Cpu::new(false);
    cpu.jp(0xFFE);
    assert!(cpu.tick().is_ok());
}

#[test]
fn draw_program_blits_glyph_and_reports_collision() {
    let mut cpu = Cpu::new(false);
    // LD I, 0x050 (the glyph for 0) then DRW V0, V1, 5 twice.
    assert!(cpu.load_program(vec![0xA0, 0x50, 0xD0, 0x15, 0xD0, 0x15]).is_ok());
    assert!(cpu.tick().is_ok());
    assert!(cpu.tick().is_ok());
    // Top row of the glyph: 0xF0 = four lit pixels.
    assert_eq!(cpu.vram.read(0, 0), 1);
    assert_eq!(cpu.vram.read(3, 0), 1);
    assert_eq!(cpu.vram.read(4, 0), 0);
    // Second row 0x90: ends on.
    assert_eq!(cpu.vram.read(0, 1), 1);
    assert_eq!(cpu.vram.read(1, 1), 0);
    assert!(cpu.vram_changed);
    assert_eq!(cpu.get_register(0xF), 0);

    // The identical second draw erases everything and collides.
    assert!(cpu.tick().is_ok());
    assert_eq!(cpu.get_register(0xF), 1);
    for y in 0..5 {
        for x in 0..8 {
            assert_eq!(cpu.vram.read(x, y), 0);
        }
    }
}

#[test]
fn draw_wraps_toroidally() {
    let mut cpu = Cpu::new(false);
    cpu.ld_vx(0, 62);
    cpu.ld_vx(1, 30);
    cpu.ld_i(0x50);
    assert!(cpu.drw_vx_vy(0, 1, 5).is_ok());
    // Row 0 of the glyph (0xF0) starts at (62, 30) and wraps to x = 0, 1.
    assert_eq!(cpu.vram.read(62, 30), 1);
    assert_eq!(cpu.vram.read(63, 30), 1);
    assert_eq!(cpu.vram.read(0, 30), 1);
    assert_eq!(cpu.vram.read(1, 30), 1);
    assert_eq!(cpu.vram.read(2, 30), 0);
    // Row 2 of the glyph (0x90) wraps in y to the top of the screen.
    assert_eq!(cpu.vram.read(62, 0), 1);
    assert_eq!(cpu.vram.read(1, 0), 1);
}

#[test]
fn draw_past_ram_is_fatal() {
    let mut cpu = Cpu::new(false);
    cpu.ld_i(4093);
    assert_eq!(cpu.drw_vx_vy(0, 1, 5), Err(Fault::AddressOutOfRange));
    cpu.ld_i(4091);
    assert!(cpu.drw_vx_vy(0, 1, 5).is_ok());
}

#[test]
fn cls_clears_pixels_and_marks_changed() {
    let mut cpu = Cpu::new(false);
    cpu.ld_i(0x50);
    assert!(cpu.drw_vx_vy(0, 1, 5).is_ok());
    assert_eq!(cpu.vram.read(0, 0), 1);
    cpu.vram_changed = false;
    cpu.cls();
    assert!(cpu.vram_changed);
    for y in 0..32 {
        for x in 0..64 {
            assert_eq!(cpu.vram.read(x, y), 0);
        }
    }
}

#[test]
fn schip_draw_counts_colliding_rows() {
    let mut cpu = Cpu::new(true);
    cpu.ld_i(0x50);
    // First draw of glyph 0: no collisions.
    assert!(cpu.drw_vx_vy(0, 1, 5).is_ok());
    assert_eq!(cpu.get_register(0xF), 0);
    // Second identical draw: every one of the five rows collides.
    assert!(cpu.drw_vx_vy(0, 1, 5).is_ok());
    assert_eq!(cpu.get_register(0xF), 5);
}

#[test]
fn zero_height_draw_changes_nothing_but_flags() {
    let mut cpu = Cpu::new(false);
    cpu.ld_vx(0xF, 3);
    cpu.ld_i(0x50);
    assert!(cpu.drw_vx_vy(0, 1, 0).is_ok());
    assert_eq!(cpu.get_register(0xF), 0);
    assert!(cpu.vram_changed);
    for y in 0..32 {
        for x in 0..64 {
            assert_eq!(cpu.vram.read(x, y), 0);
        }
    }
}

#[test]
fn hires_draw_uses_the_wide_screen() {
    let mut cpu = Cpu::new(true);
    cpu.high();
    cpu.ld_vx(0, 120);
    cpu.ld_vx(1, 60);
    cpu.ld_i(0x50);
    assert!(cpu.drw_vx_vy(0, 1, 5).is_ok());
    // Row 0 (0xF0) sits at (120..123, 60) without wrapping at 64.
    assert_eq!(cpu.vram.read(120, 60), 1);
    assert_eq!(cpu.vram.read(123, 60), 1);
    assert_eq!(cpu.vram.read(124, 60), 0);
    // Row 4 (0xF0) wraps to y = 0.
    assert_eq!(cpu.vram.read(120, 0), 1);
}

#[test]
fn unknown_opcode_is_a_plain_no_op() {
    let mut cpu = Cpu::new(false);
    assert!(cpu.load_program(vec![0x5A, 0xB1]).is_ok());
    assert!(cpu.tick().is_ok());
    assert_eq!(cpu.get_pc(), 0x202);
    for r in 0..16 {
        assert_eq!(cpu.get_register(r), 0);
    }
}

#[test]
fn schip_only_opcodes_are_no_ops_outside_schip_mode() {
    let mut cpu = Cpu::new(false);
    // EXIT, LOW, HIGH, SCD 3, SCR, SCL, LD R V0, LD V0 R.
    assert!(cpu
        .load_program(vec![
            0x00, 0xFD, 0x00, 0xFE, 0x00, 0xFF, 0x00, 0xC3, 0x00, 0xFB, 0x00, 0xFC, 0xF0, 0x75,
            0xF0, 0x85,
        ])
        .is_ok());
    for _ in 0..8 {
        assert!(cpu.tick().is_ok());
    }
    assert!(!cpu.quit_flag);
    assert_eq!(cpu.vram.get_screen_width(), 64);
    assert_eq!(cpu.get_pc(), 0x210);
}
