//! One test per instruction, driving the instruction methods directly.

use chip8::cpu::{Cpu, CpuContext, Op};
use chip8::gpu::Gpu;
use chip8::keypad::Keypad;
use chip8::EmuError;

fn cpu_test<F>(exec: F)
where
    F: FnOnce(&mut Cpu, &mut CpuContext),
{
    let mut cpu = Cpu::new();
    let mut ctx = CpuContext { opcode: 0x0000 };
    exec(&mut cpu, &mut ctx);
}

#[test]
fn nop() {
    cpu_test(|cpu, ctx| {
        ctx.opcode = 0x0000;
        cpu.nop(*ctx);
        assert_eq!(cpu.pc, 2);
        assert_eq!(cpu.sp, 0);
        assert_eq!(cpu.halted, false);
        assert_eq!(cpu.v, [0; 16]);
        assert_eq!(cpu.i, 0);
    });
}

#[test]
fn cls() {
    cpu_test(|cpu, ctx| {
        let mut gpu = Gpu::new();
        gpu.vram[5] = 1;
        gpu.vram[2047] = 1;
        ctx.opcode = 0x0123;
        cpu.cls(*ctx, &mut gpu);
        assert_eq!(cpu.pc, 2);
        assert!(gpu.vram.iter().all(|&p| p == 0));
    });
}

#[test]
fn ret() {
    cpu_test(|cpu, ctx| {
        ctx.opcode = 0x00ee;
        let r = cpu.ret(*ctx);
        assert_eq!(r, Err(EmuError::StackUnderflow));
        assert!(cpu.halted);
        cpu.reset();
        ctx.opcode = 0x0000;
        cpu.nop(*ctx); // pc = 0x202
        ctx.opcode = 0x2009;
        cpu.call(*ctx).unwrap(); // pc = 9, sp = 1, stack[0] = 0x204
        ctx.opcode = 0x00ee;
        cpu.ret(*ctx).unwrap(); // pc = 0x204, sp = 0
        assert_eq!(cpu.pc, 0x204);
        assert_eq!(cpu.sp, 0);
    });
}

#[test]
fn sys() {
    cpu_test(|cpu, ctx| {
        ctx.opcode = 0x0000;
        cpu.sys(*ctx);
        assert_eq!(cpu.pc, 2);
        assert_eq!(cpu.sp, 0);
        assert_eq!(cpu.halted, false);
        assert_eq!(cpu.v, [0; 16]);
        assert_eq!(cpu.i, 0);
    });
}

#[test]
fn jp() {
    cpu_test(|cpu, ctx| {
        ctx.opcode = 0x7fff;
        cpu.jp(*ctx);
        assert_eq!(cpu.pc, 0x0fff);
    });
}

#[test]
fn call() {
    cpu_test(|cpu, ctx| {
        ctx.opcode = 0x0000;
        cpu.nop(*ctx); // pc = 2
        ctx.opcode = 0x2117;
        cpu.call(*ctx).unwrap();
        assert_eq!(cpu.sp, 1);
        assert_eq!(cpu.pc, 0x117);
        // the pushed return address points just past the call
        assert_eq!(cpu.stack[0], 4);
    });
}

#[test]
fn se_vx_kk() {
    cpu_test(|cpu, ctx| {
        cpu.v[0x1] = 0x12;
        ctx.opcode = 0x3112;
        cpu.se_vx_kk(*ctx);
        assert_eq!(cpu.pc, 4);
        cpu.reset(); // pc = 0x200
        cpu.v[0x1] = 0x12;
        ctx.opcode = 0x0100;
        cpu.se_vx_kk(*ctx);
        assert_eq!(cpu.pc, 0x202);
    });
}

#[test]
fn sne_vx_kk() {
    cpu_test(|cpu, ctx| {
        cpu.v[0x1] = 0x12;
        ctx.opcode = 0x0113;
        cpu.sne_vx_kk(*ctx);
        assert_eq!(cpu.pc, 4);
        cpu.reset(); // pc = 0x200
        cpu.v[0x1] = 0x13;
        ctx.opcode = 0x0113;
        cpu.sne_vx_kk(*ctx);
        assert_eq!(cpu.pc, 0x202);
    });
}

#[test]
fn se_vx_vy() {
    cpu_test(|cpu, ctx| {
        cpu.v[0x0] = 0x12;
        cpu.v[0x1] = 0x12;
        ctx.opcode = 0x5010;
        cpu.se_vx_vy(*ctx);
        assert_eq!(cpu.pc, 4);
        cpu.reset(); // pc = 0x200
        cpu.v[0x0] = 0x01;
        cpu.v[0x1] = 0x02;
        ctx.opcode = 0x5010;
        cpu.se_vx_vy(*ctx);
        assert_eq!(cpu.pc, 0x202);
    });
}

#[test]
fn ld_vx_kk() {
    cpu_test(|cpu, ctx| {
        cpu.reset(); // pc = 0x200
        ctx.opcode = 0x001f;
        cpu.ld_vx_kk(*ctx);
        assert_eq!(cpu.pc, 0x202);
        assert_eq!(cpu.v[0], 0x1f);
    });
}

#[test]
fn add_vx_kk() {
    cpu_test(|cpu, ctx| {
        cpu.reset(); // pc = 0x200
        cpu.v[0] = 0x1f;
        ctx.opcode = 0x7020;
        cpu.add_vx_kk(*ctx);
        assert_eq!(cpu.pc, 0x202);
        assert_eq!(cpu.v[0], 0x3f);
        cpu.reset();
        cpu.v[0x0] = 0xff;
        ctx.opcode = 0x7002;
        cpu.add_vx_kk(*ctx);
        assert_eq!(cpu.v[0x0], 1);
        assert_eq!(cpu.pc, 0x202);
    });
}

#[test]
fn ld_vx_vy() {
    cpu_test(|cpu, ctx| {
        cpu.v[0] = 10;
        cpu.v[1] = 20;
        ctx.opcode = 0x8010;
        cpu.ld_vx_vy(*ctx);
        assert_eq!(cpu.v[0], 20);
        assert_eq!(cpu.v[1], 20);
        assert_eq!(cpu.pc, 2);
    });
}

#[test]
fn or() {
    cpu_test(|cpu, ctx| {
        cpu.v[0] = 0x1f;
        cpu.v[1] = 0xf1;
        ctx.opcode = 0x8011;
        cpu.or(*ctx);
        assert_eq!(cpu.pc, 2);
        assert_eq!(cpu.v[0], 0xff);
    });
}

#[test]
fn and() {
    cpu_test(|cpu, ctx| {
        cpu.v[0] = 0x1f;
        cpu.v[1] = 0x1f;
        cpu.and(ctx.op(0x8012));
        assert_eq!(cpu.v[0], 0x1f);
        assert_eq!(cpu.pc, 2);
    });
}

#[test]
fn xor() {
    cpu_test(|cpu, ctx| {
        cpu.v[0] = 0x1f;
        cpu.v[1] = 0x20;
        cpu.xor(ctx.op(0x8013));
        assert_eq!(cpu.v[0], 0x3f);
        assert_eq!(cpu.pc, 2);
    });
}

#[test]
fn add_vx_vy() {
    cpu_test(|cpu, ctx| {
        cpu.v[0x0] = 250;
        cpu.v[0x1] = 10;
        cpu.add_vx_vy(ctx.op(0x8014));
        assert_eq!(cpu.v[0xf], 1);
        assert_eq!(cpu.v[0x0], 4);
        assert_eq!(cpu.pc, 2);
        cpu.reset(); // pc = 0x200
        cpu.v[0x0] = 100;
        cpu.v[0x1] = 28;
        cpu.add_vx_vy(ctx.op(0x8014));
        assert_eq!(cpu.v[0xf], 0);
        assert_eq!(cpu.v[0x0], 128);
        assert_eq!(cpu.pc, 0x202);
    });
}

#[test]
fn sub_vx_vy() {
    cpu_test(|cpu, ctx| {
        cpu.v[0x0] = 100;
        cpu.v[0x1] = 20;
        cpu.sub_vx_vy(ctx.op(0x8015));
        assert_eq!(cpu.v[0x0], 80);
        assert_eq!(cpu.pc, 2);
    });
}

#[test]
fn shr() {
    cpu_test(|cpu, ctx| {
        cpu.v[0x2] = 8;
        cpu.shr(ctx.op(0x8206));
        assert_eq!(cpu.v[0xf], 0);
        assert_eq!(cpu.v[0x2], 4);
        assert_eq!(cpu.pc, 2);
        cpu.reset(); // pc = 0x200
        cpu.v[0x2] = 7;
        cpu.shr(ctx.op(0x8206));
        assert_eq!(cpu.v[0xf], 1);
        assert_eq!(cpu.v[0x2], 3);
        assert_eq!(cpu.pc, 0x202);
    });
}

#[test]
fn subn() {
    cpu_test(|cpu, ctx| {
        cpu.v[0x0] = 10;
        cpu.v[0x1] = 20;
        cpu.subn(ctx.op(0x8017));
        assert_eq!(cpu.v[0xf], 1);
        assert_eq!(cpu.v[0x0], 10);
        assert_eq!(cpu.pc, 2);
        cpu.reset(); // pc = 0x200
        cpu.v[0x0] = 10;
        cpu.v[0x1] = 5;
        cpu.subn(ctx.op(0x8017));
        assert_eq!(cpu.v[0xf], 0);
        assert_eq!(cpu.v[0x0], 251);
        assert_eq!(cpu.pc, 0x202);
    });
}

#[test]
fn shl() {
    cpu_test(|cpu, ctx| {
        cpu.v[0x2] = 8;
        cpu.shl(ctx.op(0x820e));
        assert_eq!(cpu.v[0xf], 0);
        assert_eq!(cpu.v[0x2], 16);
        assert_eq!(cpu.pc, 2);
        cpu.reset(); // pc = 0x200
        cpu.v[0x2] = 0x80;
        cpu.shl(ctx.op(0x820e));
        assert_eq!(cpu.v[0xf], 1);
        assert_eq!(cpu.pc, 0x202);
    });
}

#[test]
fn sne_vx_vy() {
    cpu_test(|cpu, ctx| {
        cpu.v[0x2] = 8;
        cpu.v[0x3] = 7;
        cpu.sne_vx_vy(ctx.op(0x9230));
        assert_eq!(cpu.pc, 4);
        cpu.reset(); // pc = 0x200
        cpu.v[0x2] = 8;
        cpu.v[0x3] = 8;
        cpu.sne_vx_vy(ctx.op(0x9230));
        assert_eq!(cpu.pc, 0x202);
    });
}

#[test]
fn ld() {
    cpu_test(|cpu, ctx| {
        cpu.ld(ctx.op(0xa777));
        assert_eq!(cpu.i, 0x777);
        assert_eq!(cpu.pc, 2);
    });
}

#[test]
fn jp_v0_addr() {
    cpu_test(|cpu, ctx| {
        cpu.v[0] = 0x32;
        cpu.jp_v0_addr(ctx.op(0xb032));
        assert_eq!(cpu.pc, 0x32 + 0x32);
    });
}

#[test]
fn rnd() {
    cpu_test(|cpu, ctx| {
        for _ in 0..10 {
            cpu.reset(); // pc = 0x200
            cpu.rnd(ctx.op(0xc1ff));
            assert_eq!(cpu.pc, 0x202);
            if cpu.v[0x1] != 0 {
                return;
            }
        }
        assert!(false, "rng doesn't work on host platform");
    });
}

#[test]
fn drw() {
    cpu_test(|cpu, ctx| {
        let mut gpu = Gpu::new();
        // draw an 8x5 sprite of blank memory at (v2, v4) = (0, 0)
        cpu.i = 0x0000;
        cpu.drw(ctx.op(0xd245), &mut gpu).unwrap();
        let index = 2 * gpu.width + 4;
        let addr = cpu.i as usize;
        // blank memory toggles nothing: vram matches sprite memory
        let sprite = &cpu.memory[addr..addr + 40];
        let vram = &gpu.vram[index..index + 40];
        assert_eq!(sprite, vram);
    });
}

#[test]
fn skp() {
    cpu_test(|cpu, ctx| {
        let mut keypad = Keypad::new();
        keypad.set(3, true);
        cpu.v[0] = 3;
        cpu.skp(ctx.op(0xe09e), &keypad);
        assert_eq!(cpu.pc, 4);
        cpu.reset(); // pc = 0x200
        cpu.v[0] = 4;
        cpu.skp(ctx.op(0xe09e), &keypad);
        assert_eq!(cpu.pc, 0x202);
    });
}

#[test]
fn sknp() {
    cpu_test(|cpu, ctx| {
        let mut keypad = Keypad::new();
        keypad.set(3, true);
        cpu.v[0] = 4;
        cpu.sknp(ctx.op(0xe0a1), &keypad);
        assert_eq!(cpu.pc, 4);
        cpu.reset(); // pc = 0x200
        cpu.v[0] = 3;
        cpu.sknp(ctx.op(0xe0a1), &keypad);
        assert_eq!(cpu.pc, 0x202);
    });
}

#[test]
fn ld_vx_dt() {
    cpu_test(|cpu, ctx| {
        cpu.dt = 100;
        cpu.ld_vx_dt(ctx.op(0xf107));
        assert_eq!(cpu.dt, 100);
        assert_eq!(cpu.v[0x1], 100);
        assert_eq!(cpu.pc, 2);
    });
}

#[test]
fn ld_vx_k() {
    cpu_test(|cpu, ctx| {
        let mut keypad = Keypad::new();
        // no key pressed: the program counter stays put
        cpu.ld_vx_k(ctx.op(0xf10a), &keypad);
        assert_eq!(cpu.pc, 0);
        assert_eq!(cpu.v[0x1], 0);
        // the lowest pressed key code lands in the register
        keypad.set(9, true);
        keypad.set(5, true);
        cpu.ld_vx_k(ctx.op(0xf10a), &keypad);
        assert_eq!(cpu.pc, 2);
        assert_eq!(cpu.v[0x1], 5);
    });
}

#[test]
fn ld_dt_vx() {
    cpu_test(|cpu, ctx| {
        cpu.v[0x1] = 42;
        cpu.ld_dt_vx(ctx.op(0xf115));
        assert_eq!(cpu.dt, 42);
        assert_eq!(cpu.pc, 2);
    });
}

#[test]
fn ld_st_vx() {
    cpu_test(|cpu, ctx| {
        cpu.v[0x1] = 42;
        cpu.ld_st_vx(ctx.op(0xf118));
        assert_eq!(cpu.st, 42);
        assert_eq!(cpu.pc, 2);
    });
}

#[test]
fn add_i_vx() {
    cpu_test(|cpu, ctx| {
        cpu.v[0x0f] = 10;
        cpu.i = 1;
        cpu.add_i_vx(ctx.op(0x0f00));
        assert_eq!(cpu.pc, 2);
        assert_eq!(cpu.i, 11);
        // the sum wraps modulo 4096 at the top of the index range
        cpu.i = 0xfff;
        cpu.v[0x0f] = 0xff;
        cpu.add_i_vx(ctx.op(0x0f00));
        assert_eq!(cpu.i, (0xfff + 0xff) % 4096);
    });
}

#[test]
fn ld_f_vx() {
    cpu_test(|cpu, ctx| {
        cpu.v[0x1] = 0xa;
        cpu.ld_i_spr(ctx.op(0xf129));
        assert_eq!(cpu.i, 0xa * 5);
        assert_eq!(cpu.pc, 2);
    });
}

#[test]
fn ld_b_vx() {
    cpu_test(|cpu, ctx| {
        cpu.i = 0x10;
        cpu.v[1] = 123;
        cpu.ld_b_vx(ctx.op(0xf133)).unwrap();
        assert_eq!(cpu.pc, 2);
        assert_eq!(cpu.memory[0x10 + 0], 1);
        assert_eq!(cpu.memory[0x10 + 1], 2);
        assert_eq!(cpu.memory[0x10 + 2], 3);
    });
}

#[test]
fn ld_i_vx() {
    cpu_test(|cpu, ctx| {
        cpu.i = 0x10;
        for i in 0x0..0xf {
            cpu.v[i] = (i * 2) as u8;
        }
        cpu.ld_i_vx(ctx.op(0xff55)).unwrap();
        assert_eq!(cpu.pc, 2);
        for i in 0x0..0xf {
            assert_eq!(cpu.memory[0x10 + i], (i * 2) as u8);
        }
    });
}

#[test]
fn ld_vx_i() {
    cpu_test(|cpu, ctx| {
        cpu.i = 0x10;
        for i in 0x0..0xf {
            cpu.memory[cpu.i as usize + i] = (i * 2) as u8;
        }
        cpu.ld_vx_i(ctx.op(0xff65)).unwrap();
        assert_eq!(cpu.pc, 2);
        for i in 0x0..0xf {
            assert_eq!(cpu.v[i], (i * 2) as u8);
        }
    });
}

#[test]
fn scd() {
    cpu_test(|cpu, _ctx| {
        // a scroll word has no meaning here: the zero category falls back to
        // the architectural no-op
        assert_eq!(cpu.decode(0x00c5), Ok(Op::Sys));
    });
}

#[test]
fn scr() {
    cpu_test(|cpu, _ctx| {
        assert_eq!(cpu.decode(0x00fb), Ok(Op::Sys));
    });
}

#[test]
fn scl() {
    cpu_test(|cpu, _ctx| {
        assert_eq!(cpu.decode(0x00fc), Ok(Op::Sys));
    });
}

#[test]
fn exit() {
    cpu_test(|cpu, ctx| {
        cpu.exit(ctx.op(0x0000));
        assert!(cpu.halted);
    });
}

#[test]
fn low() {
    cpu_test(|cpu, _ctx| {
        // resolution switches are not part of this instruction set
        assert_eq!(cpu.decode(0x00fe), Ok(Op::Sys));
    });
}

#[test]
fn high() {
    cpu_test(|cpu, _ctx| {
        assert_eq!(cpu.decode(0x00ff), Ok(Op::Sys));
    });
}

#[test]
fn drw_vx_vy() {
    cpu_test(|cpu, ctx| {
        let mut gpu = Gpu::new();
        cpu.reset(); // seeds the glyph table at address zero
        cpu.i = 0;
        // draw glyph zero (0xf0 0x90 0x90 0x90 0xf0) at (0, 0)
        cpu.drw(ctx.op(0xd015), &mut gpu).unwrap();
        assert_eq!(cpu.v[0xf], 0);
        // top row of the glyph: four set pixels, then four clear
        assert_eq!(&gpu.vram[0..8], &[1, 1, 1, 1, 0, 0, 0, 0]);
        // second row: 0x90 = pixels 0 and 3
        assert_eq!(&gpu.vram[64..72], &[1, 0, 0, 1, 0, 0, 0, 0]);
    });
}

#[test]
fn ld_hf_vx() {
    cpu_test(|cpu, _ctx| {
        // the big-glyph word matches no defined pattern
        assert_eq!(cpu.decode(0xf130), Err(EmuError::Decode));
    });
}

#[test]
fn ld_r_vx() {
    cpu_test(|cpu, _ctx| {
        assert_eq!(cpu.decode(0xf175), Err(EmuError::Decode));
    });
}

#[test]
fn ld_vx_r() {
    cpu_test(|cpu, _ctx| {
        assert_eq!(cpu.decode(0xf185), Err(EmuError::Decode));
    });
}
