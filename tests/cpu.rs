use boytacean_core::cpu::CpuError;
use boytacean_core::gb::GameBoy;
use boytacean_core::inst::{decode, decode_extended, Op};

#[test]
fn register_pairs_round_trip() {
    let mut gb = GameBoy::new();
    let cpu = gb.cpu();
    cpu.set_bc(0x1234);
    assert_eq!(cpu.bc(), 0x1234);
    assert_eq!(cpu.regs.b, 0x12);
    assert_eq!(cpu.regs.c, 0x34);
    let v = cpu.bc();
    cpu.set_bc(v);
    assert_eq!(cpu.bc(), 0x1234);
    cpu.set_de(0xbeef);
    assert_eq!(cpu.de(), 0xbeef);
    cpu.set_hl(0x00ff);
    assert_eq!(cpu.hl(), 0x00ff);
    assert_eq!(cpu.regs.h, 0x00);
    cpu.set_af(0x12ff);
    assert_eq!(cpu.af(), 0x12f0);
}

#[test]
fn flags_keep_high_nibble_only() {
    let mut gb = GameBoy::new();
    let cpu = gb.cpu();
    for v in 0..=255u8 {
        cpu.set_f(v);
        assert_eq!(cpu.f(), v & 0xf0);
    }
    cpu.set_f(0x80);
    assert!(cpu.get_zero());
    assert!(!cpu.get_carry());
}

#[test]
fn vblank_is_serviced_before_timer() {
    let mut gb = GameBoy::new();
    {
        let cpu = gb.cpu();
        cpu.enable_int();
        cpu.set_sp(0xdffe);
        cpu.set_pc(0x0150);
        cpu.mmu().ie = 0x05;
        cpu.ppu().set_int_vblank(true);
        cpu.timer().set_int_tima(true);
    }
    let r = gb.cpu().clock();
    assert_eq!(r, Ok(24));
    let cpu = gb.cpu();
    assert_eq!(cpu.pc(), 0x40);
    assert!(!cpu.ppu().int_vblank());
    assert!(cpu.timer().int_tima());
    assert!(!cpu.ime());
    assert_eq!(cpu.sp(), 0xdffc);
    assert_eq!(cpu.mmu().read(0xdffd), 0x01);
    assert_eq!(cpu.mmu().read(0xdffc), 0x50);
}

#[test]
fn halted_cpu_wakes_without_servicing() {
    let mut gb = GameBoy::new();
    let cpu = gb.cpu();
    cpu.halt();
    assert_eq!(cpu.clock(), Ok(4));
    assert!(cpu.halted());
    cpu.mmu().ie = 0x04;
    cpu.timer().set_int_tima(true);
    assert_eq!(cpu.clock(), Ok(4));
    assert!(!cpu.halted());
    assert!(cpu.timer().int_tima());
}

#[test]
fn store_a_through_bc() {
    let mut gb = GameBoy::new();
    // LD BC,0xC234 ; LD A,0x42 ; LD (BC),A
    gb.load_boot(&[0x01, 0x34, 0xc2, 0x3e, 0x42, 0x02]);
    assert_eq!(gb.clock(), Ok(12));
    assert_eq!(gb.cpu().bc(), 0xc234);
    assert_eq!(gb.clock(), Ok(8));
    assert_eq!(gb.cpu().regs.a, 0x42);
    assert_eq!(gb.clock(), Ok(8));
    assert_eq!(gb.cpu().mmu().read(0xc234), 0x42);
    assert_eq!(gb.cpu().mmu().memory.ram[0x0234], 0x42);
    assert_eq!(gb.cpu().pc(), 6);
}

#[test]
fn rom_window_ignores_writes() {
    let mut gb = GameBoy::new();
    // LD BC,0x1234 ; LD A,0x42 ; LD (BC),A
    gb.load_boot(&[0x01, 0x34, 0x12, 0x3e, 0x42, 0x02]);
    gb.clock().unwrap();
    gb.clock().unwrap();
    gb.clock().unwrap();
    assert_eq!(gb.cpu().mmu().read(0x1234), 0x00);
}

#[test]
fn stop_is_reported() {
    let mut gb = GameBoy::new();
    gb.load_boot(&[0x10, 0x00]);
    assert_eq!(gb.clock(), Err(CpuError::Unsupported));
    assert_eq!(gb.clock(), Err(CpuError::Unsupported));
}

#[test]
fn unimplemented_opcode_is_a_nop() {
    let mut gb = GameBoy::new();
    gb.load_boot(&[0xd3, 0x00]);
    assert_eq!(gb.clock(), Ok(4));
    assert_eq!(gb.cpu().pc(), 1);
}

#[test]
fn alu_add_sets_flags() {
    let mut gb = GameBoy::new();
    // LD A,0x8F ; ADD A,0x81 ; CP 0x10
    gb.load_boot(&[0x3e, 0x8f, 0xc6, 0x81, 0xfe, 0x10]);
    gb.clock().unwrap();
    gb.clock().unwrap();
    let cpu = gb.cpu();
    assert_eq!(cpu.regs.a, 0x10);
    assert!(cpu.get_carry());
    assert!(cpu.get_half_carry());
    assert!(!cpu.get_zero());
    gb.clock().unwrap();
    assert!(gb.cpu().get_zero());
    assert!(gb.cpu().get_sub());
}

#[test]
fn call_and_return() {
    let mut gb = GameBoy::new();
    // LD SP,0xFFFE ; CALL 0x0010 ; ... 0x0010: RET
    let mut program = vec![0x31, 0xfe, 0xff, 0xcd, 0x10, 0x00];
    program.resize(0x10, 0x00);
    program.push(0xc9);
    gb.load_boot(&program);
    gb.clock().unwrap();
    assert_eq!(gb.clock(), Ok(24));
    assert_eq!(gb.cpu().pc(), 0x10);
    assert_eq!(gb.cpu().sp(), 0xfffc);
    assert_eq!(gb.clock(), Ok(16));
    assert_eq!(gb.cpu().pc(), 6);
    assert_eq!(gb.cpu().sp(), 0xfffe);
}

#[test]
fn conditional_jump_costs_more_when_taken() {
    let mut gb = GameBoy::new();
    // XOR A ; JR Z,+2 ; NOP ; NOP ; JR NZ,+0
    gb.load_boot(&[0xaf, 0x28, 0x02, 0x00, 0x00, 0x20, 0x00]);
    gb.clock().unwrap();
    assert_eq!(gb.clock(), Ok(12));
    assert_eq!(gb.cpu().pc(), 5);
    assert_eq!(gb.clock(), Ok(8));
    assert_eq!(gb.cpu().pc(), 7);
}

#[test]
fn boot_seeds_registers() {
    let mut gb = GameBoy::new();
    gb.cpu().boot();
    let cpu = gb.cpu();
    assert_eq!(cpu.pc(), 0x0100);
    assert_eq!(cpu.sp(), 0xfffe);
    assert_eq!(cpu.af(), 0x0100);
    assert_eq!(cpu.bc(), 0xff13);
    assert_eq!(cpu.de(), 0x00c1);
    assert_eq!(cpu.hl(), 0x8403);
    assert_eq!(cpu.mmu().read(0xff40), 0x91);
}

#[test]
fn interrupt_flags_register_reflects_devices() {
    let mut gb = GameBoy::new();
    let cpu = gb.cpu();
    cpu.timer().set_int_tima(true);
    assert_eq!(cpu.mmu().read(0xff0f), 0xe4);
    cpu.mmu().write(0xff0f, 0x11);
    assert!(cpu.ppu().int_vblank());
    assert!(!cpu.timer().int_tima());
    assert!(cpu.pad().int_pad());
    assert_eq!(cpu.mmu().read(0xff0f), 0xf1);
}

#[test]
fn unmapped_reads_fill() {
    let mut gb = GameBoy::new();
    let cpu = gb.cpu();
    assert_eq!(cpu.mmu().read(0xfea5), 0xff);
    assert_eq!(cpu.mmu().read(0xff03), 0xff);
    cpu.mmu().write(0xfea5, 0x12);
    assert_eq!(cpu.mmu().read(0xfea5), 0xff);
    // work RAM is echoed above 0xe000
    cpu.mmu().write(0xc010, 0x5a);
    assert_eq!(cpu.mmu().read(0xe010), 0x5a);
}

#[test]
fn unsafe_lcdc_write_keeps_line_state() {
    let mut gb = GameBoy::new();
    let cpu = gb.cpu();
    cpu.mmu().write(0xff40, 0x80);
    cpu.ppu().clock(80);
    cpu.mmu().write_unsafe(0xff40, 0x00);
    assert_eq!(cpu.mmu().read(0xff40), 0x00);
    assert_eq!(cpu.ppu().mode(), boytacean_core::ppu::PpuMode::VramRead);
}

#[test]
fn reset_returns_to_power_on() {
    let mut gb = GameBoy::new();
    gb.load_boot(&[0x3e, 0x42]);
    gb.clock().unwrap();
    gb.cpu().mmu().write(0xc000, 7);
    gb.reset();
    assert_eq!(gb.cpu().regs.a, 0);
    assert_eq!(gb.cpu().pc(), 0);
    assert_eq!(gb.cpu().mmu().read(0xc000), 0);
    // the boot image stays mapped
    assert_eq!(gb.cpu().mmu().read(0x0000), 0x3e);
}

#[test]
fn dispatch_table_entries() {
    assert_eq!(decode(0xd3).op.mnemonic(), "! UNIMP !");
    assert_eq!(decode(0x76).op, Op::Halt);
    assert_eq!(decode(0x01).cycles, 12);
    assert_eq!(decode(0x7e).op, Op::LdR8(7, 6));
    assert_eq!(decode(0x7e).cycles, 8);
    assert_eq!(decode(0xfe).op, Op::AluImm(7));
    assert_eq!(decode_extended(0x7c).op, Op::TestBit(7, 4));
    assert_eq!(decode_extended(0x00).op, Op::Unimplemented);
}
