use boytacean_core::gb::GameBoy;
use boytacean_core::state::{BessCore, StateError, StateManager};

fn prepared() -> GameBoy {
    let mut gb = GameBoy::new();
    let cpu = gb.cpu();
    cpu.set_pc(0x0150);
    cpu.set_sp(0xdff0);
    cpu.set_af(0x12b0);
    cpu.set_bc(0x3456);
    cpu.set_de(0x789a);
    cpu.set_hl(0xbcde);
    cpu.enable_int();
    cpu.mmu().ie = 0x1f;
    cpu.mmu().write_many(0xc000, &[1, 2, 3, 4]);
    cpu.mmu().write_many(0x8000, &[0xff, 0xff]);
    cpu.mmu().write_many(0xa010, &[9]);
    cpu.mmu().write_many(0xfe00, &[40, 20, 1, 0]);
    cpu.mmu().write_many(0xff80, &[0xaa, 0xbb]);
    gb
}

#[test]
fn snapshot_restores_registers_and_memory() {
    let mut source = prepared();
    let data = StateManager::save(&source);
    let mut restored = GameBoy::new();
    assert_eq!(StateManager::load(&data, &mut restored), Ok(()));
    let a = source.cpu();
    let (pc, sp, af, bc, de, hl, ime) = (a.pc(), a.sp(), a.af(), a.bc(), a.de(), a.hl(), a.ime());
    let mem_a: Vec<Vec<u8>> = [(0xc000u16, 0x2000u16), (0x8000, 0x2000), (0xa000, 0x2000), (0xfe00, 0xa0), (0xff80, 0x7f)]
        .iter()
        .map(|&(addr, n)| a.mmu().read_many(addr, n))
        .collect();
    let b = restored.cpu();
    assert_eq!(b.pc(), pc);
    assert_eq!(b.sp(), sp);
    assert_eq!(b.af(), af);
    assert_eq!(b.bc(), bc);
    assert_eq!(b.de(), de);
    assert_eq!(b.hl(), hl);
    assert_eq!(b.ime(), ime);
    assert_eq!(b.mmu().ie, 0x1f);
    let mem_b: Vec<Vec<u8>> = [(0xc000u16, 0x2000u16), (0x8000, 0x2000), (0xa000, 0x2000), (0xfe00, 0xa0), (0xff80, 0x7f)]
        .iter()
        .map(|&(addr, n)| b.mmu().read_many(addr, n))
        .collect();
    assert_eq!(mem_a, mem_b);
    assert_eq!(b.ppu().tiles()[0].get(0, 0), 3);
}

#[test]
fn core_round_trip_without_bytes() {
    let source = prepared();
    let core = BessCore::from_gb(&source);
    assert_eq!(core.pc, 0x0150);
    assert_eq!(core.af, 0x12b0);
    assert_eq!(core.oam.buffer.len(), 0xa0);
    let mut restored = GameBoy::new();
    assert_eq!(core.to_gb(&mut restored), Ok(()));
    assert_eq!(restored.cpu().hl(), 0xbcde);
    assert_eq!(restored.cpu().mmu().read(0xc003), 4);
}

#[test]
fn bad_snapshots_are_refused() {
    let mut gb = GameBoy::new();
    assert_eq!(StateManager::load(&[1, 2, 3], &mut gb), Err(StateError::Truncated));
    let mut data = StateManager::save(&prepared());
    let n = data.len();
    data[n - 1] = 0;
    assert_eq!(StateManager::load(&data, &mut gb), Err(StateError::InvalidMagic));
    assert_eq!(gb.cpu().pc(), 0);
    // a footer pointing straight at an END block
    let data = vec![0x45, 0x4e, 0x44, 0x20, 0, 0, 0, 0, 0, 0, 0, 0, 0x42, 0x45, 0x53, 0x53];
    assert_eq!(StateManager::load(&data, &mut gb), Err(StateError::MissingCore));
}

#[test]
fn core_with_wrong_sizes_is_refused() {
    let mut core = BessCore::from_gb(&prepared());
    core.hram.buffer.pop();
    let mut gb = GameBoy::new();
    assert_eq!(core.to_gb(&mut gb), Err(StateError::InvalidSize));
    assert_eq!(gb.cpu().pc(), 0);
}

#[test]
fn snapshot_layout_has_name_info_core_mbc_end() {
    let data = StateManager::save(&prepared());
    assert_eq!(data.len(), 0x623a);
    assert_eq!(&data[0x611f..0x6123], b"NAME");
    assert_eq!(&data[0x6127..0x6130], b"boytacean");
    assert_eq!(&data[0x6130..0x6134], b"INFO");
    assert_eq!(&data[0x614a..0x614e], b"CORE");
    assert_eq!(&data[0x6222..0x6226], b"MBC ");
    assert_eq!(&data[0x622a..0x622e], b"END ");
    let n = data.len();
    assert_eq!(&data[n - 8..n - 4], &[0x1f, 0x61, 0, 0]);
    assert_eq!(&data[n - 4..], b"BESS");
}

#[test]
fn snapshot_of_another_cartridge_is_refused() {
    let mut source = prepared();
    let mut rom = vec![0u8; 0x150];
    rom[0x134..0x13a].copy_from_slice(b"TETRIS");
    source.load_rom(&rom);
    let data = StateManager::save(&source);
    let mut other = GameBoy::new();
    assert_eq!(StateManager::load(&data, &mut other), Err(StateError::TitleMismatch));
    assert_eq!(other.cpu().pc(), 0);
    let mut same = GameBoy::new();
    same.load_rom(&rom);
    assert_eq!(StateManager::load(&data, &mut same), Ok(()));
    assert_eq!(same.cpu().pc(), 0x0150);
}
