use boytacean_core::ppu::{Ppu, PpuMode, DISPLAY_WIDTH};

fn lcd_on() -> Ppu {
    let mut ppu = Ppu::new();
    ppu.write(0xff40, 0x80);
    ppu
}

#[test]
fn test_update_tile_simple() {
    let mut ppu = Ppu::new();
    let result = ppu.tiles()[0].get(0, 0);
    assert_eq!(result, 0);

    ppu.write(0x8000, 0xff);
    ppu.write(0x8001, 0xff);
    let result = ppu.tiles()[0].get(0, 0);
    assert_eq!(result, 3);
}

#[test]
fn test_update_tile_upper() {
    let mut ppu = Ppu::new();
    let result = ppu.tiles()[256].get(0, 0);
    assert_eq!(result, 0);

    ppu.write(0x9000, 0xff);
    ppu.write(0x9001, 0xff);
    let result = ppu.tiles()[256].get(0, 0);
    assert_eq!(result, 3);
}

#[test]
fn tile_row_planes_decode() {
    let mut ppu = Ppu::new();
    ppu.write(0x8010, 0xff);
    ppu.write(0x8011, 0xff);
    for x in 0..8 {
        assert_eq!(ppu.tiles()[1].get(x, 0), 3);
        assert_eq!(ppu.tiles()[1].get(x, 1), 0);
    }
    ppu.write(0x8010, 0x00);
    ppu.write(0x8011, 0x00);
    for x in 0..8 {
        assert_eq!(ppu.tiles()[1].get(x, 0), 0);
    }
    // low plane gives bit 0, high plane bit 1, leftmost pixel in bit 7
    ppu.write(0x8012, 0b1000_0001);
    ppu.write(0x8013, 0b1100_0000);
    assert_eq!(ppu.tiles()[1].get(0, 1), 3);
    assert_eq!(ppu.tiles()[1].get(1, 1), 2);
    assert_eq!(ppu.tiles()[1].get(2, 1), 0);
    assert_eq!(ppu.tiles()[1].get(7, 1), 1);
}

#[test]
fn mode_thresholds() {
    let mut ppu = lcd_on();
    assert_eq!(ppu.mode(), PpuMode::OamRead);
    ppu.clock(79);
    assert_eq!(ppu.mode(), PpuMode::OamRead);
    ppu.clock(1);
    assert_eq!(ppu.mode(), PpuMode::VramRead);
    ppu.clock(172);
    assert_eq!(ppu.mode(), PpuMode::HBlank);
    ppu.clock(204);
    assert_eq!(ppu.mode(), PpuMode::OamRead);
    assert_eq!(ppu.ly(), 1);
}

#[test]
fn last_visible_line_enters_vblank() {
    let mut ppu = lcd_on();
    for _ in 0..143 {
        ppu.clock(80);
        ppu.clock(172);
        ppu.clock(204);
    }
    assert_eq!(ppu.ly(), 143);
    assert!(!ppu.int_vblank());
    ppu.clock(80);
    ppu.clock(172);
    ppu.clock(204);
    assert_eq!(ppu.ly(), 144);
    assert_eq!(ppu.mode(), PpuMode::VBlank);
    assert!(ppu.int_vblank());
}

#[test]
fn vblank_wraps_to_next_frame() {
    let mut ppu = lcd_on();
    for _ in 0..144 {
        ppu.clock(80);
        ppu.clock(172);
        ppu.clock(204);
    }
    assert_eq!(ppu.mode(), PpuMode::VBlank);
    assert_eq!(ppu.frame_index(), 0);
    for line in 0..10 {
        assert_eq!(ppu.ly(), 144 + line);
        ppu.clock(228);
        ppu.clock(228);
    }
    assert_eq!(ppu.ly(), 0);
    assert_eq!(ppu.frame_index(), 1);
    assert_eq!(ppu.mode(), PpuMode::OamRead);
}

#[test]
fn lcd_off_resets_line_and_clears_screen() {
    let mut ppu = lcd_on();
    ppu.clock(80);
    ppu.clock(172);
    ppu.clock(204);
    assert_eq!(ppu.ly(), 1);
    ppu.write(0xff40, 0x00);
    assert_eq!(ppu.ly(), 0);
    assert_eq!(ppu.mode(), PpuMode::HBlank);
    assert_eq!(ppu.screen.frame_buffer[0], 255);
    // off means the clock does nothing
    ppu.clock(200);
    assert_eq!(ppu.mode(), PpuMode::HBlank);
}

#[test]
fn stat_interrupt_on_lyc_match() {
    let mut ppu = lcd_on();
    ppu.write(0xff45, 1);
    ppu.write(0xff41, 0x40);
    ppu.clock(80);
    ppu.clock(172);
    assert!(!ppu.int_stat());
    ppu.clock(204);
    assert_eq!(ppu.ly(), 1);
    assert!(ppu.int_stat());
    assert_eq!(ppu.read(0xff41) & 0x04, 0x04);
}

#[test]
fn palette_register_maps_base_colors() {
    let mut ppu = Ppu::new();
    ppu.write(0xff47, 0b00_01_10_11);
    let p = ppu.palette();
    assert_eq!(p[0], [0, 0, 0]);
    assert_eq!(p[1], [96, 96, 96]);
    assert_eq!(p[2], [192, 192, 192]);
    assert_eq!(p[3], [255, 255, 255]);
    assert_eq!(ppu.read(0xff47), 0b00_01_10_11);
}

#[test]
fn background_line_is_rendered() {
    let mut ppu = Ppu::new();
    ppu.write(0xff47, 0xe4);
    // tile 0 row 0 all color 3; map entry 0 points to tile 0
    ppu.write(0x8000, 0xff);
    ppu.write(0x8001, 0xff);
    ppu.write(0xff40, 0x91);
    ppu.clock(80);
    ppu.clock(172);
    for x in 0..8 {
        assert_eq!(ppu.screen.color_buffer[x], 3);
        assert_eq!(ppu.screen.frame_buffer[3 * x], 0);
    }
}

fn object_line() -> Ppu {
    let mut ppu = Ppu::new();
    ppu.write(0xff48, 0xe4);
    // tile 1 row 0 is all color 1
    ppu.write(0x8010, 0xff);
    ppu.write(0x8011, 0x00);
    // park every object above the screen first
    for k in 0..40u16 {
        ppu.write(0xfe00 + 4 * k, 0);
    }
    for k in 0..11u16 {
        let base = 0xfe00 + 4 * k;
        ppu.write(base, 16);
        ppu.write(base + 1, 8 + 12 * k as u8);
        ppu.write(base + 2, 1);
        ppu.write(base + 3, 0);
    }
    ppu
}

#[test]
fn at_most_ten_objects_per_line() {
    let mut ppu = object_line();
    assert_eq!(ppu.render_objects(), 10);
    for k in 0..10usize {
        assert_eq!(ppu.screen.color_buffer[12 * k], 1);
    }
    // the eleventh object is skipped
    for x in 120..128usize {
        assert_eq!(ppu.screen.color_buffer[x], 0);
    }
}

#[test]
fn fewer_objects_are_all_drawn() {
    let mut ppu = object_line();
    // move the last two objects off line 0
    ppu.write(0xfe00 + 4 * 9, 40);
    ppu.write(0xfe00 + 4 * 10, 40);
    assert_eq!(ppu.render_objects(), 9);
    assert_eq!(ppu.screen.color_buffer[DISPLAY_WIDTH + 8 * 12], 0);
}

#[test]
fn palette_colors_change_recomputes_and_clears() {
    let mut ppu = Ppu::new();
    ppu.write(0xff47, 0xe4);
    let colors = [[1, 2, 3], [4, 5, 6], [7, 8, 9], [10, 11, 12]];
    ppu.set_palette_colors(&colors);
    assert_eq!(ppu.palette(), colors);
    assert_eq!(ppu.palette_obj_0(), [[1, 2, 3]; 4]);
    assert_eq!(&ppu.screen.frame_buffer[0..3], &[1, 2, 3]);
}

#[test]
fn tile_rows_and_rgb() {
    let mut ppu = Ppu::new();
    ppu.write(0x8000, 0xf0);
    ppu.write(0x8001, 0x0f);
    let tile = ppu.tiles()[0];
    assert_eq!(tile.get_row(0), vec![1, 1, 1, 1, 2, 2, 2, 2]);
    assert_eq!(tile.buffer().len(), 64);
    let rgb = tile.palette_buffer([[0, 0, 0], [1, 1, 1], [2, 2, 2], [3, 3, 3]]);
    assert_eq!(rgb.len(), 192);
    assert_eq!(&rgb[0..3], &[1, 1, 1]);
    assert_eq!(&rgb[12..15], &[2, 2, 2]);
    assert_eq!(&rgb[24..27], &[0, 0, 0]);
}

#[test]
fn stat_request_stays_until_acknowledged() {
    let mut ppu = lcd_on();
    ppu.write(0xff41, 0x08);
    ppu.clock(80);
    ppu.clock(172);
    assert!(ppu.int_stat());
    // the level drops in OAM scan, the request does not
    ppu.clock(204);
    assert_eq!(ppu.mode(), PpuMode::OamRead);
    assert!(ppu.int_stat());
    ppu.ack_stat();
    assert!(!ppu.int_stat());
    assert_eq!(ppu.frame_buffer().len(), 160 * 144 * 3);
}
