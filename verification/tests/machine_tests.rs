//! Whole-machine scenarios through `load` and `cycle`, plus unit tests for
//! the framebuffer, the timers, the keypad and the error taxonomy.

use chip8::cpu::{Cpu, CpuContext};
use chip8::gpu::Gpu;
use chip8::keypad::Keypad;
use chip8::timer::Timer;
use chip8::EmuError;

fn machine() -> (Cpu, Gpu, Timer, Timer, Keypad) {
    (
        Cpu::new(),
        Gpu::new(),
        Timer::new(0, 0),
        Timer::new(0, 0),
        Keypad::new(),
    )
}

#[test]
fn two_steps_of_loaded_program() {
    let (mut cpu, mut gpu, mut delay, mut sound, keypad) = machine();
    cpu.load(&[0x60, 0x05, 0x70, 0x03]).unwrap();
    cpu.cycle(&mut gpu, &mut delay, &mut sound, &keypad, 0).unwrap();
    cpu.cycle(&mut gpu, &mut delay, &mut sound, &keypad, 0).unwrap();
    assert_eq!(cpu.v[0], 0x08);
    assert_eq!(cpu.pc, 0x204);
}

#[test]
fn call_then_ret_through_cycle() {
    let (mut cpu, mut gpu, mut delay, mut sound, keypad) = machine();
    let mut rom = vec![0u8; 0x102];
    rom[0] = 0x23; // CALL 0x300 at 0x200
    rom[1] = 0x00;
    rom[0x100] = 0x00; // RET at 0x300
    rom[0x101] = 0xee;
    cpu.load(&rom).unwrap();
    cpu.cycle(&mut gpu, &mut delay, &mut sound, &keypad, 0).unwrap();
    assert_eq!(cpu.pc, 0x300);
    assert_eq!(cpu.sp, 1);
    assert_eq!(cpu.stack[0], 0x202);
    cpu.cycle(&mut gpu, &mut delay, &mut sound, &keypad, 0).unwrap();
    assert_eq!(cpu.pc, 0x202);
    assert_eq!(cpu.sp, 0);
}

#[test]
fn draw_toggles_back_and_reports_collision() {
    let (mut cpu, mut gpu, _, _, _) = machine();
    let mut ctx = CpuContext { opcode: 0 };
    cpu.reset();
    cpu.i = 0x300;
    cpu.memory[0x300] = 0xff;
    // V0 = 0, V1 = 0: one 0xff row at the origin
    cpu.drw(ctx.op(0xd011), &mut gpu).unwrap();
    assert_eq!(&gpu.vram[0..8], &[1, 1, 1, 1, 1, 1, 1, 1]);
    assert_eq!(gpu.vram[8], 0);
    assert_eq!(cpu.v[0xf], 0);
    // the identical draw erases the row and reports the collision
    cpu.drw(ctx.op(0xd011), &mut gpu).unwrap();
    assert!(gpu.vram.iter().all(|&p| p == 0));
    assert_eq!(cpu.v[0xf], 1);
}

#[test]
fn draw_wraps_around_both_edges() {
    let (mut cpu, mut gpu, _, _, _) = machine();
    let mut ctx = CpuContext { opcode: 0 };
    cpu.i = 0x300;
    cpu.memory[0x300] = 0xff;
    cpu.memory[0x301] = 0xff;
    cpu.v[0] = 60; // column 60: wraps to columns 0..3
    cpu.v[1] = 31; // row 31: the second byte wraps to row 0
    cpu.drw(ctx.op(0xd012), &mut gpu).unwrap();
    for row in [31usize, 0usize] {
        for col in [60, 61, 62, 63, 0, 1, 2, 3] {
            assert_eq!(gpu.vram[row * 64 + col], 1, "row {} col {}", row, col);
        }
        assert_eq!(gpu.vram[row * 64 + 4], 0);
        assert_eq!(gpu.vram[row * 64 + 59], 0);
    }
    assert_eq!(cpu.v[0xf], 0);
}

#[test]
fn rnd_with_zero_mask_is_always_zero() {
    let (mut cpu, _, _, _, _) = machine();
    let mut ctx = CpuContext { opcode: 0 };
    for _ in 0..20 {
        cpu.reset();
        cpu.rnd(ctx.op(0xc100));
        assert_eq!(cpu.v[0x1], 0);
    }
}

#[test]
fn rnd_with_applies_the_mask_exactly() {
    let (mut cpu, _, _, _, _) = machine();
    let mut ctx = CpuContext { opcode: 0 };
    cpu.rnd_with(ctx.op(0xc10f), 0xab);
    assert_eq!(cpu.v[0x1], 0x0b);
    assert_eq!(cpu.pc, 2);
}

#[test]
fn timers_decrement_once_per_period() {
    let period: u32 = 16_666_667; // one sixtieth of a second
    let (mut cpu, mut gpu, _, _, keypad) = machine();
    let mut delay = Timer::new(period, 0);
    let mut sound = Timer::new(period, 0);
    cpu.load(&[0x12, 0x00]).unwrap(); // a jump-to-self loop
    cpu.dt = 5;
    cpu.st = 5;
    let mut prev_dt = 5u8;
    let mut last_decrement_at: u64 = 0;
    // 120 steps spread over roughly one second of simulated wall clock
    for step in 1u64..=120 {
        let now = step * 8_400_000;
        cpu.cycle(&mut gpu, &mut delay, &mut sound, &keypad, now).unwrap();
        assert!(cpu.dt <= prev_dt, "counter went up");
        assert!(prev_dt - cpu.dt <= 1, "counter fell by more than one");
        assert_eq!(cpu.dt, cpu.st, "both counters see the same clock");
        if cpu.dt < prev_dt {
            assert!(
                now - last_decrement_at >= period as u64,
                "decrement before the full period elapsed"
            );
            last_decrement_at = now;
        }
        prev_dt = cpu.dt;
    }
    assert_eq!(cpu.dt, 0);
    assert_eq!(cpu.st, 0);
    assert!(!cpu.halted);
}

#[test]
fn sound_counter_signals_tone_while_nonzero() {
    let (mut cpu, _, _, _, _) = machine();
    let mut ctx = CpuContext { opcode: 0 };
    assert!(!cpu.tone_active());
    cpu.v[2] = 3;
    cpu.ld_st_vx(ctx.op(0xf218));
    assert!(cpu.tone_active());
    cpu.v[2] = 0;
    cpu.ld_st_vx(ctx.op(0xf218));
    assert!(!cpu.tone_active());
}

#[test]
fn gate_fires_only_after_its_period() {
    let mut t = Timer::new(100, 0);
    t.tick(50);
    assert!(!t.active());
    t.tick(99);
    assert!(!t.active());
    t.tick(100);
    assert!(t.active());
    // the period restarts at the fire
    t.tick(150);
    assert!(!t.active());
    t.tick(200);
    assert!(t.active());
}

#[test]
fn timer_reset_reanchors_the_period() {
    let mut t = Timer::new(100, 0);
    t.tick(100);
    assert!(t.active());
    t.reset(500);
    assert!(!t.active());
    t.tick(599);
    assert!(!t.active());
    t.tick(600);
    assert!(t.active());
}

#[test]
fn keypad_tracks_set_and_release() {
    let mut keypad = Keypad::new();
    for k in 0..16 {
        assert!(!keypad.get(k));
    }
    keypad.set(3, true);
    assert!(keypad.get(3));
    for k in 0..16 {
        if k != 3 {
            assert!(!keypad.get(k));
        }
    }
    keypad.set(3, false);
    assert!(!keypad.get(3));
}

#[test]
fn bcd_writes_decimal_digits() {
    let (mut cpu, _, _, _, _) = machine();
    let mut ctx = CpuContext { opcode: 0 };
    cpu.i = 0x400;
    cpu.v[1] = 255;
    cpu.ld_b_vx(ctx.op(0xf133)).unwrap();
    assert_eq!(
        &cpu.memory[0x400..0x403],
        &[2, 5, 5]
    );
    cpu.v[1] = 7;
    cpu.ld_b_vx(ctx.op(0xf133)).unwrap();
    assert_eq!(
        &cpu.memory[0x400..0x403],
        &[0, 0, 7]
    );
}

#[test]
fn nested_calls_restore_and_overflow_faults() {
    let (mut cpu, _, _, _, _) = machine();
    let mut ctx = CpuContext { opcode: 0 };
    cpu.reset();
    for _ in 0..16 {
        cpu.call(ctx.op(0x2300)).unwrap();
    }
    assert_eq!(cpu.sp, 16);
    let r = cpu.call(ctx.op(0x2300));
    assert_eq!(r, Err(EmuError::StackOverflow));
    assert!(cpu.halted);
    cpu.halted = false;
    for _ in 0..16 {
        cpu.ret(ctx.op(0x00ee)).unwrap();
    }
    assert_eq!(cpu.sp, 0);
    assert_eq!(cpu.pc, 0x202);
}

#[test]
fn rom_larger_than_program_region_is_refused() {
    let (mut cpu, _, _, _, _) = machine();
    let r = cpu.load(&vec![0u8; 0xe01]);
    assert_eq!(r, Err(EmuError::RomTooLarge));
    assert_eq!(cpu.pc, 0); // untouched
    cpu.load(&vec![0u8; 0xe00]).unwrap();
    assert_eq!(cpu.pc, 0x200);
}

#[test]
fn unknown_opcode_is_a_decode_error_and_halts() {
    let (mut cpu, mut gpu, mut delay, mut sound, keypad) = machine();
    cpu.load(&[0x80, 0x09]).unwrap();
    let r = cpu.cycle(&mut gpu, &mut delay, &mut sound, &keypad, 0);
    assert_eq!(r, Err(EmuError::Decode));
    assert!(cpu.halted);
    // a halted machine's step is a no-op
    let pc = cpu.pc;
    cpu.cycle(&mut gpu, &mut delay, &mut sound, &keypad, 0).unwrap();
    assert_eq!(cpu.pc, pc);
}

#[test]
fn block_transfers_past_memory_end_fault() {
    let (mut cpu, mut gpu, _, _, _) = machine();
    let mut ctx = CpuContext { opcode: 0 };
    cpu.i = 0xffe;
    let r = cpu.ld_b_vx(ctx.op(0xf133));
    assert_eq!(r, Err(EmuError::MemoryBounds));
    assert!(cpu.halted);

    let (mut cpu, _, _, _, _) = machine();
    cpu.i = 0xff8;
    let r = cpu.ld_i_vx(ctx.op(0xff55));
    assert_eq!(r, Err(EmuError::MemoryBounds));

    let (mut cpu, _, _, _, _) = machine();
    cpu.i = 0xff8;
    let r = cpu.ld_vx_i(ctx.op(0xff65));
    assert_eq!(r, Err(EmuError::MemoryBounds));

    let (mut cpu, _, _, _, _) = machine();
    cpu.i = 0xffe;
    let r = cpu.drw(ctx.op(0xd015), &mut gpu);
    assert_eq!(r, Err(EmuError::MemoryBounds));
}

#[test]
fn reset_seeds_the_glyph_table_and_forces_running() {
    let (mut cpu, _, _, _, _) = machine();
    cpu.halt();
    assert!(cpu.halted);
    cpu.reset();
    assert!(!cpu.halted);
    assert_eq!(cpu.pc, 0x200);
    assert_eq!(cpu.memory[0], 0xf0);
    assert_eq!(cpu.memory[4], 0xf0);
    assert_eq!(cpu.memory[79], 0x80);
    assert_eq!(cpu.memory[80], 0);
    assert_eq!(cpu.sp, 0);
    assert_eq!(cpu.i, 0);
}

#[test]
fn wait_for_key_blocks_across_cycles() {
    let (mut cpu, mut gpu, mut delay, mut sound, mut keypad) = machine();
    cpu.load(&[0xf1, 0x0a]).unwrap();
    cpu.cycle(&mut gpu, &mut delay, &mut sound, &keypad, 0).unwrap();
    assert_eq!(cpu.pc, 0x200); // still waiting
    cpu.cycle(&mut gpu, &mut delay, &mut sound, &keypad, 0).unwrap();
    assert_eq!(cpu.pc, 0x200);
    keypad.set(7, true);
    cpu.cycle(&mut gpu, &mut delay, &mut sound, &keypad, 0).unwrap();
    assert_eq!(cpu.pc, 0x202);
    assert_eq!(cpu.v[1], 7);
}

#[test]
fn fetch_joins_two_bytes_big_endian() {
    let (mut cpu, _, _, _, _) = machine();
    cpu.load(&[0xab, 0xcd]).unwrap();
    assert_eq!(cpu.fetch(), 0xabcd);
}
