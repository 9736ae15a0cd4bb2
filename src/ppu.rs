//! Pixel processing unit: video memory, object attributes, the four-mode
//! scanline state machine and the line compositor.

use vstd::prelude::*;

verus! {

pub const VRAM_SIZE: usize = 8192;
pub const HRAM_SIZE: usize = 128;
pub const OAM_SIZE: usize = 260;
pub const PALETTE_SIZE: usize = 4;
pub const RGB_SIZE: usize = 3;
pub const TILE_WIDTH: usize = 8;
pub const TILE_HEIGHT: usize = 8;
pub const TILE_DOUBLE_HEIGHT: usize = 16;

/// The number of tiles that fit in video memory.
pub const TILE_COUNT: usize = 384;

/// The number of objects (sprites) described in OAM.
pub const OBJ_COUNT: usize = 40;

/// The width of the screen in pixels.
pub const DISPLAY_WIDTH: usize = 160;

/// The height of the screen in pixels.
pub const DISPLAY_HEIGHT: usize = 144;

/// The size of the color index buffer (one value from 0 to 3 per pixel).
pub const COLOR_BUFFER_SIZE: usize = DISPLAY_WIDTH * DISPLAY_HEIGHT;

/// The size of the RGB frame buffer in bytes.
pub const FRAME_BUFFER_SIZE: usize = DISPLAY_WIDTH * DISPLAY_HEIGHT * RGB_SIZE;

/// The most objects drawn on a single scanline.
pub const OBJ_LINE_LIMIT: u8 = 10;

/// One RGB pixel.
pub type Pixel = [u8; RGB_SIZE];

/// Four RGB colors, indexed by a 2-bit color index.
pub type Palette = [Pixel; PALETTE_SIZE];

/// The gray level of default base color `i`: white, light gray, dark gray,
/// black.
pub open spec fn default_gray(i: int) -> u8 {
    if i == 0 {
        255
    } else if i == 1 {
        192
    } else if i == 2 {
        96
    } else {
        0
    }
}

/// The default base colors used to derive the three concrete palettes.
pub fn palette_colors_default() -> (r: Palette)
    ensures
        forall|i: int, c: int| 0 <= i < 4 && 0 <= c < 3 ==> #[trigger] r[i][c] == default_gray(i),
{
    [[255, 255, 255], [192, 192, 192], [96, 96, 96], [0, 0, 0]]
}

/// A named palette of base colors.
#[derive(Clone, PartialEq, Eq)]
pub struct PaletteInfo {
    pub name: String,
    pub colors: Palette,
}

impl PaletteInfo {
    pub fn new(name: &str, colors: Palette) -> (r: Self)
        ensures
            r.name@ == name@,
            r.colors == colors,
    {
        Self { name: name.to_string(), colors }
    }

    pub fn name(&self) -> (r: &String)
        ensures
            r == &self.name,
    {
        &self.name
    }

    pub fn colors(&self) -> (r: &Palette)
        ensures
            *r == self.colors,
    {
        &self.colors
    }
}

/// The color index (0 to 3) of pixel `x` (0 is the leftmost) of a tile row
/// whose two bit-planes are `lo` and `hi`.
pub open spec fn row_pixel(lo: u8, hi: u8, x: int) -> u8 {
    (((lo >> ((7 - x) as u8)) & 1u8) | (((hi >> ((7 - x) as u8)) & 1u8) << 1u8)) as u8
}

/// An 8x8 grid of color indices.
#[derive(Clone, Copy, PartialEq, Eq)]
pub struct Tile {
    pub buffer: [u8; 64],
}

impl Tile {
    pub open spec fn view(&self) -> Seq<u8> {
        self.buffer@
    }

    pub fn blank() -> (r: Tile)
        ensures
            forall|i: int| 0 <= i < 64 ==> r.view()[i] == 0,
    {
        Tile { buffer: [0u8; 64] }
    }

    pub fn get(&self, x: usize, y: usize) -> (r: u8)
        requires
            x < TILE_WIDTH,
            y < TILE_HEIGHT,
        ensures
            r == self.view()[y * 8 + x],
    {
        self.buffer[y * TILE_WIDTH + x]
    }

    pub fn set(&mut self, x: usize, y: usize, value: u8)
        requires
            x < TILE_WIDTH,
            y < TILE_HEIGHT,
        ensures
            final(self).view() == old(self).view().update(y * 8 + x, value),
    {
        self.buffer[y * TILE_WIDTH + x] = value;
    }

    pub fn buffer(&self) -> (r: Vec<u8>)
        ensures
            r@ == self.view(),
    {
        let mut r: Vec<u8> = Vec::new();
        let mut i: usize = 0;
        while i < 64
            invariant
                i <= 64,
                r@ == self.view().subrange(0, i as int),
            decreases 64 - i,
        {
            r.push(self.buffer[i]);
            i += 1;
        }
        assert(r@ =~= self.view());
        r
    }

    pub fn get_row(&self, y: usize) -> (r: Vec<u8>)
        requires
            y < TILE_HEIGHT,
        ensures
            r@ == self.view().subrange(y * 8, y * 8 + 8),
    {
        let mut r: Vec<u8> = Vec::new();
        let mut x: usize = 0;
        while x < TILE_WIDTH
            invariant
                y < 8,
                x <= 8,
                r@ == self.view().subrange(y * 8, y * 8 + x),
            decreases 8 - x,
        {
            r.push(self.buffer[y * TILE_WIDTH + x]);
            x += 1;
        }
        r
    }

    /// The RGB bytes of the tile's 64 pixels, row by row, under `palette`.
    pub fn palette_buffer(&self, palette: Palette) -> (r: Vec<u8>)
        requires
            forall|i: int| 0 <= i < 64 ==> self.view()[i] < 4,
        ensures
            r@.len() == 192,
            forall|i: int, c: int|
                0 <= i < 64 && 0 <= c < 3 ==> #[trigger] r@[3 * i + c] == palette[self.view()[i] as int][c],
    {
        let mut r: Vec<u8> = Vec::new();
        let mut i: usize = 0;
        while i < 64
            invariant
                i <= 64,
                forall|i: int| 0 <= i < 64 ==> self.view()[i] < 4,
                r@.len() == 3 * i,
                forall|j: int, c: int|
                    0 <= j < i && 0 <= c < 3 ==> #[trigger] r@[3 * j + c] == palette[self.view()[j] as int][c],
            decreases 64 - i,
        {
            assert(self.view()[i as int] < 4);
            let color = palette[self.buffer[i] as usize];
            r.push(color[0]);
            r.push(color[1]);
            r.push(color[2]);
            proof {
                assert forall|j: int, c: int|
                    0 <= j < i + 1 && 0 <= c < 3 implies #[trigger] r@[3 * j + c] == palette[self.view()[j] as int][c] by {
                    if j == i {
                        assert(c == 0 || c == 1 || c == 2);
                    }
                }
            }
            i += 1;
        }
        r
    }
}

/// The attributes of one object (sprite), decoded from its four OAM bytes.
#[derive(Clone, Copy, PartialEq, Eq)]
pub struct ObjectData {
    pub x: i16,
    pub y: i16,
    pub tile: u8,
    pub palette: u8,
    pub xflip: bool,
    pub yflip: bool,
    pub bg_over: bool,
    pub index: u8,
}

impl ObjectData {
    pub fn blank() -> (r: ObjectData)
        ensures
            r == (ObjectData { x: 0, y: 0, tile: 0, palette: 0, xflip: false, yflip: false, bg_over: false, index: 0 }),
    {
        ObjectData { x: 0, y: 0, tile: 0, palette: 0, xflip: false, yflip: false, bg_over: false, index: 0 }
    }
}

/// A snapshot of the scroll, window and line registers.
#[derive(Clone, Copy, PartialEq, Eq)]
pub struct PpuRegisters {
    pub scy: u8,
    pub scx: u8,
    pub wy: u8,
    pub wx: u8,
    pub ly: u8,
    pub lyc: u8,
}

/// The four modes of the scanline state machine.
#[derive(Clone, Copy, PartialEq, Eq, Structural, Debug)]
pub enum PpuMode {
    HBlank,
    VBlank,
    OamRead,
    VramRead,
}

/// The two low bits of STAT that encode a mode.
pub open spec fn mode_code(mode: PpuMode) -> u8 {
    match mode {
        PpuMode::HBlank => 0,
        PpuMode::VBlank => 1,
        PpuMode::OamRead => 2,
        PpuMode::VramRead => 3,
    }
}

pub fn mode_bits(mode: PpuMode) -> (r: u8)
    ensures
        r == mode_code(mode),
{
    match mode {
        PpuMode::HBlank => 0,
        PpuMode::VBlank => 1,
        PpuMode::OamRead => 2,
        PpuMode::VramRead => 3,
    }
}

/// Video memory and the caches derived from it.
pub struct VideoMemory {
    pub vram: [u8; VRAM_SIZE],
    pub hram: [u8; HRAM_SIZE],
    pub oam: [u8; OAM_SIZE],
    /// Tiles decoded from the tile data area of VRAM.
    pub tiles: [Tile; TILE_COUNT],
    /// Objects decoded from OAM.
    pub obj_data: [ObjectData; OBJ_COUNT],
}

/// The two screen buffers.
pub struct Screen {
    /// Color index (0 to 3) of every pixel of the screen.
    pub color_buffer: Vec<u8>,
    /// RGB bytes of every pixel of the screen.
    pub frame_buffer: Vec<u8>,
}

/// The base colors, the three derived palettes and the registers they were
/// derived from.
#[derive(Clone, Copy)]
pub struct Colors {
    /// The four base colors that the palette registers index into.
    pub palette_colors: Palette,
    pub palette: Palette,
    pub palette_obj_0: Palette,
    pub palette_obj_1: Palette,
    /// The raw values of BGP, OBP0 and OBP1.
    pub palettes: [u8; 3],
}

/// The LCD control, status-select, scroll and window registers.
#[derive(Clone, Copy)]
pub struct LcdControl {
    pub scy: u8,
    pub scx: u8,
    pub wy: u8,
    pub wx: u8,
    pub lyc: u8,
    pub switch_bg: bool,
    pub switch_obj: bool,
    pub obj_size: bool,
    pub bg_map: bool,
    pub bg_tile: bool,
    pub switch_window: bool,
    pub window_map: bool,
    pub switch_lcd: bool,
    pub stat_hblank: bool,
    pub stat_vblank: bool,
    pub stat_oam: bool,
    pub stat_lyc: bool,
}

/// The state of the scanline state machine and the two interrupt requests
/// that it raises.
#[derive(Clone, Copy)]
pub struct LineState {
    pub ly: u8,
    pub mode: PpuMode,
    pub mode_clock: u16,
    /// The number of lines on which the window has been drawn in this frame.
    pub window_counter: u8,
    /// Set until the first frame after the LCD was switched back on ends;
    /// nothing is rendered during it.
    pub first_frame: bool,
    /// A frame counter that wraps at 65536.
    pub frame_index: u16,
    pub int_vblank: bool,
    pub int_stat: bool,
}

/// The pixel processing unit. It owns VRAM, OAM and HRAM, the derived tile
/// and object caches, the palettes, the LCD registers and the screen
/// buffers.
pub struct Ppu {
    pub mem: VideoMemory,
    pub screen: Screen,
    pub colors: Colors,
    pub lcd: LcdControl,
    pub line: LineState,
}

#[verifier::opaque]
pub open spec fn tiles_wf(tiles: Seq<Tile>) -> bool {
    forall|t: int, i: int| 0 <= t < tiles.len() && 0 <= i < 64 ==> #[trigger] tiles[t].buffer@[i] < 4
}

impl LineState {
    /// Lines 144 to 153 belong to the vertical blank, the others to the
    /// three other modes.
    pub open spec fn wf(&self) -> bool {
        &&& (self.mode == PpuMode::VBlank ==> 144 <= self.ly < 154)
        &&& (self.mode != PpuMode::VBlank ==> self.ly < 144)
    }

    pub open spec fn power_on() -> LineState {
        LineState {
            ly: 0,
            mode: PpuMode::OamRead,
            mode_clock: 0,
            window_counter: 0,
            first_frame: false,
            frame_index: 0,
            int_vblank: false,
            int_stat: false,
        }
    }
}

impl Screen {
    pub open spec fn wf(&self) -> bool {
        &&& self.color_buffer@.len() == COLOR_BUFFER_SIZE
        &&& self.frame_buffer@.len() == FRAME_BUFFER_SIZE
    }
}

impl LcdControl {
    pub open spec fn power_on() -> LcdControl {
        LcdControl {
            scy: 0,
            scx: 0,
            wy: 0,
            wx: 0,
            lyc: 0,
            switch_bg: false,
            switch_obj: false,
            obj_size: false,
            bg_map: false,
            bg_tile: false,
            switch_window: false,
            window_map: false,
            switch_lcd: false,
            stat_hblank: false,
            stat_vblank: false,
            stat_oam: false,
            stat_lyc: false,
        }
    }

    fn new() -> (r: LcdControl)
        ensures
            r == LcdControl::power_on(),
    {
        LcdControl {
            scy: 0,
            scx: 0,
            wy: 0,
            wx: 0,
            lyc: 0,
            switch_bg: false,
            switch_obj: false,
            obj_size: false,
            bg_map: false,
            bg_tile: false,
            switch_window: false,
            window_map: false,
            switch_lcd: false,
            stat_hblank: false,
            stat_vblank: false,
            stat_oam: false,
            stat_lyc: false,
        }
    }
}

impl Ppu {
    /// The structural invariant: buffer sizes, the decoded tiles' range and
    /// the scanline range of each mode.
    pub open spec fn wf(&self) -> bool {
        &&& self.screen.wf()
        &&& tiles_wf(self.mem.tiles@)
        &&& self.line.wf()
    }

    /// The power-on state, with the base colors left out.
    pub open spec fn is_power_on(&self) -> bool {
        &&& self.wf()
        &&& forall|i: int| 0 <= i < COLOR_BUFFER_SIZE ==> #[trigger] self.screen.color_buffer@[i] == 0
        &&& forall|i: int| 0 <= i < FRAME_BUFFER_SIZE ==> #[trigger] self.screen.frame_buffer@[i] == 0
        &&& forall|i: int| 0 <= i < VRAM_SIZE ==> #[trigger] self.mem.vram@[i] == 0
        &&& forall|i: int| 0 <= i < HRAM_SIZE ==> #[trigger] self.mem.hram@[i] == 0
        &&& forall|i: int| 0 <= i < OAM_SIZE ==> #[trigger] self.mem.oam@[i] == 0
        &&& forall|t: int, i: int|
            0 <= t < TILE_COUNT && 0 <= i < 64 ==> #[trigger] self.mem.tiles@[t].buffer@[i] == 0
        &&& forall|o: int| 0 <= o < OBJ_COUNT ==> #[trigger] self.mem.obj_data@[o] == ObjectData::blank_spec()
        &&& forall|i: int, c: int|
            0 <= i < 4 && 0 <= c < 3 ==> #[trigger] self.colors.palette[i][c] == 0 && self.colors.palette_obj_0[i][c]
                == 0 && self.colors.palette_obj_1[i][c] == 0
        &&& self.colors.palettes@ == seq![0u8, 0u8, 0u8]
        &&& self.lcd == LcdControl::power_on()
        &&& self.line == LineState::power_on()
    }

    pub fn new() -> (r: Self)
        ensures
            r.is_power_on(),
            forall|i: int, c: int|
                0 <= i < 4 && 0 <= c < 3 ==> #[trigger] r.colors.palette_colors[i][c] == default_gray(i),
    {
        let blank = Tile::blank();
        let r = Self {
            mem: VideoMemory {
                vram: [0u8; VRAM_SIZE],
                hram: [0u8; HRAM_SIZE],
                oam: [0u8; OAM_SIZE],
                tiles: [blank; TILE_COUNT],
                obj_data: [ObjectData::blank(); OBJ_COUNT],
            },
            screen: Screen { color_buffer: vec![0u8; COLOR_BUFFER_SIZE], frame_buffer: vec![0u8; FRAME_BUFFER_SIZE] },
            colors: Colors {
                palette_colors: palette_colors_default(),
                palette: [[0u8; RGB_SIZE]; PALETTE_SIZE],
                palette_obj_0: [[0u8; RGB_SIZE]; PALETTE_SIZE],
                palette_obj_1: [[0u8; RGB_SIZE]; PALETTE_SIZE],
                palettes: [0u8; 3],
            },
            lcd: LcdControl::new(),
            line: LineState {
                ly: 0,
                mode: PpuMode::OamRead,
                mode_clock: 0,
                window_counter: 0,
                first_frame: false,
                frame_index: 0,
                int_vblank: false,
                int_stat: false,
            },
        };
        assert(r.colors.palettes@ =~= seq![0u8, 0u8, 0u8]);
        assert forall|t: int, i: int| 0 <= t < TILE_COUNT && 0 <= i < 64 implies #[trigger] r.mem.tiles@[t].buffer@[i]
            == 0 by {
            assert(r.mem.tiles@[t] == blank);
            assert(blank.view()[i] == 0);
        }
        proof {
            reveal(tiles_wf);
        }
        r
    }

    /// Resets every register, memory area and buffer to its power-on value;
    /// the base colors are kept.
    pub fn reset(&mut self)
        ensures
            final(self).is_power_on(),
            final(self).colors.palette_colors == old(self).colors.palette_colors,
    {
        let colors = self.colors.palette_colors;
        let mut fresh = Ppu::new();
        fresh.colors.palette_colors = colors;
        *self = fresh;
    }
}

impl ObjectData {
    pub open spec fn blank_spec() -> ObjectData {
        ObjectData { x: 0, y: 0, tile: 0, palette: 0, xflip: false, yflip: false, bg_over: false, index: 0 }
    }
}

/// The index into VRAM of the low bit-plane byte of the tile row that
/// `addr` falls in.
pub open spec fn tile_addr(addr: u16) -> int {
    (addr & 0x1ffe) as int
}

/// The tile that a tile-data address falls in.
pub open spec fn tile_of(addr: u16) -> int {
    tile_addr(addr) / 16
}

/// The row of its tile that a tile-data address falls in.
pub open spec fn row_of(addr: u16) -> int {
    (tile_addr(addr) / 2) % 8
}

/// `new` is `old` with row `y` decoded from the bit-planes `lo` and `hi`.
pub open spec fn row_decoded(old: Tile, new: Tile, y: int, lo: u8, hi: u8) -> bool {
    forall|i: int|
        0 <= i < 64 ==> #[trigger] new.buffer@[i] == if i / 8 == y {
            row_pixel(lo, hi, i % 8)
        } else {
            old.buffer@[i]
        }
}

/// The tile cache after a write to tile data at `addr`, with `vram` the
/// video memory after the write.
pub open spec fn tile_updated(old: Seq<Tile>, new: Seq<Tile>, vram: Seq<u8>, addr: u16) -> bool {
    let t = tile_of(addr);
    &&& new.len() == old.len()
    &&& forall|j: int| 0 <= j < new.len() && j != t ==> #[trigger] new[j] == old[j]
    &&& row_decoded(old[t], new[t], row_of(addr), vram[tile_addr(addr)], vram[tile_addr(addr) + 1])
}

/// An object's attributes after `value` is written to its byte `k` (0 to 3),
/// with `idx` the object's index.
pub open spec fn object_after(o: ObjectData, k: int, value: u8, idx: int) -> ObjectData {
    if k == 0 {
        ObjectData { y: (value as i16 - 16) as i16, ..o }
    } else if k == 1 {
        ObjectData { x: (value as i16 - 8) as i16, ..o }
    } else if k == 2 {
        ObjectData { tile: value, ..o }
    } else {
        ObjectData {
            palette: if value & 0x10 == 0x10 { 1 } else { 0 },
            xflip: value & 0x20 == 0x20,
            yflip: value & 0x40 == 0x40,
            bg_over: value & 0x80 == 0x80,
            index: idx as u8,
            ..o
        }
    }
}

/// The palette that register value `value` selects from the base colors:
/// entry `i` is base color `(value >> 2i) & 3`.
pub open spec fn palette_of(p: Palette, colors: Palette, value: u8) -> bool {
    forall|i: int, c: int|
        0 <= i < 4 && 0 <= c < 3 ==> #[trigger] p[i][c] == colors[((value >> (2 * i) as u8) & 3u8) as int][c]
}

/// The screen shows `color` everywhere and every color index is 0.
pub open spec fn screen_filled(color_buffer: Seq<u8>, frame_buffer: Seq<u8>, color: Pixel) -> bool {
    &&& color_buffer.len() == COLOR_BUFFER_SIZE
    &&& frame_buffer.len() == FRAME_BUFFER_SIZE
    &&& forall|i: int| 0 <= i < COLOR_BUFFER_SIZE ==> #[trigger] color_buffer[i] == 0
    &&& forall|i: int, c: int|
        0 <= i < COLOR_BUFFER_SIZE && 0 <= c < 3 ==> #[trigger] frame_buffer[3 * i + c] == color[c]
}

pub open spec fn bit(b: bool, mask: u8) -> u8 {
    if b {
        mask
    } else {
        0
    }
}

proof fn lemma_row_pixel_range(lo: u8, hi: u8, s: u8)
    ensures
        (((lo >> s) & 1u8) | (((hi >> s) & 1u8) << 1u8)) < 4,
{
    assert((((lo >> s) & 1u8) | (((hi >> s) & 1u8) << 1u8)) < 4) by (bit_vector);
}

impl LcdControl {
    /// The value of the LCD control register.
    pub open spec fn lcdc_value(&self) -> u8 {
        bit(self.switch_bg, 0x01) | bit(self.switch_obj, 0x02) | bit(self.obj_size, 0x04) | bit(self.bg_map, 0x08)
            | bit(self.bg_tile, 0x10) | bit(self.switch_window, 0x20) | bit(self.window_map, 0x40)
            | bit(self.switch_lcd, 0x80)
    }

    /// The LCD control bits of `value` set in `self`.
    pub open spec fn with_lcdc(self, value: u8) -> LcdControl {
        LcdControl {
            switch_bg: value & 0x01 == 0x01,
            switch_obj: value & 0x02 == 0x02,
            obj_size: value & 0x04 == 0x04,
            bg_map: value & 0x08 == 0x08,
            bg_tile: value & 0x10 == 0x10,
            switch_window: value & 0x20 == 0x20,
            window_map: value & 0x40 == 0x40,
            switch_lcd: value & 0x80 == 0x80,
            ..self
        }
    }

    /// The STAT interrupt selection bits of `value` set in `self`.
    pub open spec fn with_stat(self, value: u8) -> LcdControl {
        LcdControl {
            stat_hblank: value & 0x08 == 0x08,
            stat_vblank: value & 0x10 == 0x10,
            stat_oam: value & 0x20 == 0x20,
            stat_lyc: value & 0x40 == 0x40,
            ..self
        }
    }

    fn lcdc(&self) -> (r: u8)
        ensures
            r == self.lcdc_value(),
    {
        (if self.switch_bg { 0x01u8 } else { 0x00u8 }) | (if self.switch_obj { 0x02u8 } else { 0x00u8 })
            | (if self.obj_size { 0x04u8 } else { 0x00u8 }) | (if self.bg_map { 0x08u8 } else { 0x00u8 })
            | (if self.bg_tile { 0x10u8 } else { 0x00u8 }) | (if self.switch_window { 0x20u8 } else { 0x00u8 })
            | (if self.window_map { 0x40u8 } else { 0x00u8 }) | (if self.switch_lcd { 0x80u8 } else { 0x00u8 })
    }

    fn set_lcdc(&mut self, value: u8)
        ensures
            *final(self) == old(self).with_lcdc(value),
    {
        self.switch_bg = value & 0x01 == 0x01;
        self.switch_obj = value & 0x02 == 0x02;
        self.obj_size = value & 0x04 == 0x04;
        self.bg_map = value & 0x08 == 0x08;
        self.bg_tile = value & 0x10 == 0x10;
        self.switch_window = value & 0x20 == 0x20;
        self.window_map = value & 0x40 == 0x40;
        self.switch_lcd = value & 0x80 == 0x80;
    }

    /// Sets the LCD control bits with none of the side effects of a
    /// normal write.
    pub fn set_lcdc_raw(&mut self, value: u8)
        ensures
            *final(self) == old(self).with_lcdc(value),
    {
        self.set_lcdc(value);
    }

    fn set_stat(&mut self, value: u8)
        ensures
            *final(self) == old(self).with_stat(value),
    {
        self.stat_hblank = value & 0x08 == 0x08;
        self.stat_vblank = value & 0x10 == 0x10;
        self.stat_oam = value & 0x20 == 0x20;
        self.stat_lyc = value & 0x40 == 0x40;
    }
}

impl Ppu {
    /// The value of the LCD status register.
    pub open spec fn stat_value(&self) -> u8 {
        bit(self.lcd.stat_hblank, 0x08) | bit(self.lcd.stat_vblank, 0x10) | bit(self.lcd.stat_oam, 0x20) | bit(
            self.lcd.stat_lyc,
            0x40,
        ) | bit(self.lcd.lyc == self.line.ly, 0x04) | mode_code(self.line.mode)
    }

    /// The byte that a read of `addr` gives.
    pub open spec fn read_spec(&self, addr: u16) -> u8 {
        if 0x8000 <= addr <= 0x9fff {
            self.mem.vram@[(addr & 0x1fff) as int]
        } else if 0xfe00 <= addr <= 0xfe9f {
            self.mem.oam@[(addr & 0x00ff) as int]
        } else if 0xff80 <= addr <= 0xfffe {
            self.mem.hram@[(addr & 0x007f) as int]
        } else if addr == 0xff40 {
            self.lcd.lcdc_value()
        } else if addr == 0xff41 {
            self.stat_value()
        } else if addr == 0xff42 {
            self.lcd.scy
        } else if addr == 0xff43 {
            self.lcd.scx
        } else if addr == 0xff44 {
            self.line.ly
        } else if addr == 0xff45 {
            self.lcd.lyc
        } else if addr == 0xff47 {
            self.colors.palettes@[0]
        } else if addr == 0xff48 {
            self.colors.palettes@[1]
        } else if addr == 0xff49 {
            self.colors.palettes@[2]
        } else if addr == 0xff4a {
            self.lcd.wy
        } else if addr == 0xff4b {
            self.lcd.wx
        } else {
            0xff
        }
    }

    /// What a write of `value` to `addr` does: `new` is the unit after it.
    pub open spec fn write_post(old: Ppu, new: Ppu, addr: u16, value: u8) -> bool {
        if 0x8000 <= addr <= 0x9fff {
            &&& new.mem.vram@ == old.mem.vram@.update((addr & 0x1fff) as int, value)
            &&& (addr < 0x9800 ==> tile_updated(old.mem.tiles@, new.mem.tiles@, new.mem.vram@, addr))
            &&& (addr >= 0x9800 ==> new.mem.tiles == old.mem.tiles)
            &&& new.mem == VideoMemory { vram: new.mem.vram, tiles: new.mem.tiles, ..old.mem }
            &&& new == Ppu { mem: new.mem, ..old }
        } else if 0xfe00 <= addr <= 0xfe9f {
            let a = (addr & 0x01ff) as int;
            &&& new.mem.oam@ == old.mem.oam@.update((addr & 0x00ff) as int, value)
            &&& new.mem.obj_data@ == old.mem.obj_data@.update(
                a / 4,
                object_after(old.mem.obj_data@[a / 4], a % 4, value, a / 4),
            )
            &&& new.mem == VideoMemory { oam: new.mem.oam, obj_data: new.mem.obj_data, ..old.mem }
            &&& new == Ppu { mem: new.mem, ..old }
        } else if 0xff80 <= addr <= 0xfffe {
            &&& new.mem.hram@ == old.mem.hram@.update((addr & 0x007f) as int, value)
            &&& new.mem == VideoMemory { hram: new.mem.hram, ..old.mem }
            &&& new == Ppu { mem: new.mem, ..old }
        } else if addr == 0xff40 {
            &&& new.lcd == old.lcd.with_lcdc(value)
            &&& if value & 0x80 == 0x80 {
                new == Ppu { lcd: new.lcd, ..old }
            } else {
                &&& screen_filled(new.screen.color_buffer@, new.screen.frame_buffer@, old.colors.palette_colors[0])
                &&& new.line == LineState {
                    mode: PpuMode::HBlank,
                    mode_clock: 0,
                    ly: 0,
                    int_vblank: false,
                    int_stat: false,
                    first_frame: true,
                    ..old.line
                }
                &&& new == Ppu { lcd: new.lcd, screen: new.screen, line: new.line, ..old }
            }
        } else if addr == 0xff41 {
            new == Ppu { lcd: old.lcd.with_stat(value), ..old }
        } else if addr == 0xff42 {
            new == Ppu { lcd: LcdControl { scy: value, ..old.lcd }, ..old }
        } else if addr == 0xff43 {
            new == Ppu { lcd: LcdControl { scx: value, ..old.lcd }, ..old }
        } else if addr == 0xff45 {
            new == Ppu { lcd: LcdControl { lyc: value, ..old.lcd }, ..old }
        } else if addr == 0xff47 || addr == 0xff48 || addr == 0xff49 {
            let k = addr - 0xff47;
            &&& k == 0 ==> palette_of(new.colors.palette, old.colors.palette_colors, value)
            &&& k == 1 ==> palette_of(new.colors.palette_obj_0, old.colors.palette_colors, value)
            &&& k == 2 ==> palette_of(new.colors.palette_obj_1, old.colors.palette_colors, value)
            &&& new.colors.palettes@ == old.colors.palettes@.update(k, value)
            &&& new.colors.palette_colors == old.colors.palette_colors
            &&& (k != 0 ==> new.colors.palette == old.colors.palette)
            &&& (k != 1 ==> new.colors.palette_obj_0 == old.colors.palette_obj_0)
            &&& (k != 2 ==> new.colors.palette_obj_1 == old.colors.palette_obj_1)
            &&& new == Ppu { colors: new.colors, ..old }
        } else if addr == 0xff4a {
            new == Ppu { lcd: LcdControl { wy: value, ..old.lcd }, ..old }
        } else if addr == 0xff4b {
            new == Ppu { lcd: LcdControl { wx: value, ..old.lcd }, ..old }
        } else {
            new == old
        }
    }

    pub fn read(&self, addr: u16) -> (r: u8)
        ensures
            r == self.read_spec(addr),
    {
        if 0x8000 <= addr && addr <= 0x9fff {
            assert((addr & 0x1fff) < 8192) by (bit_vector);
            self.mem.vram[(addr & 0x1fff) as usize]
        } else if 0xfe00 <= addr && addr <= 0xfe9f {
            assert((addr & 0x00ff) <= 0xff) by (bit_vector);
            self.mem.oam[(addr & 0x00ff) as usize]
        } else if 0xff80 <= addr && addr <= 0xfffe {
            assert((addr & 0x007f) < 128) by (bit_vector);
            self.mem.hram[(addr & 0x007f) as usize]
        } else if addr == 0xff40 {
            self.lcd.lcdc()
        } else if addr == 0xff41 {
            self.stat()
        } else if addr == 0xff42 {
            self.lcd.scy
        } else if addr == 0xff43 {
            self.lcd.scx
        } else if addr == 0xff44 {
            self.line.ly
        } else if addr == 0xff45 {
            self.lcd.lyc
        } else if addr == 0xff47 {
            self.colors.palettes[0]
        } else if addr == 0xff48 {
            self.colors.palettes[1]
        } else if addr == 0xff49 {
            self.colors.palettes[2]
        } else if addr == 0xff4a {
            self.lcd.wy
        } else if addr == 0xff4b {
            self.lcd.wx
        } else {
            0xff
        }
    }

    fn stat(&self) -> (r: u8)
        ensures
            r == self.stat_value(),
    {
        (if self.lcd.stat_hblank { 0x08u8 } else { 0x00u8 }) | (if self.lcd.stat_vblank { 0x10u8 } else { 0x00u8 })
            | (if self.lcd.stat_oam { 0x20u8 } else { 0x00u8 }) | (if self.lcd.stat_lyc { 0x40u8 } else { 0x00u8 })
            | (if self.lcd.lyc == self.line.ly { 0x04u8 } else { 0x00u8 }) | mode_bits(self.line.mode)
    }

    pub fn write(&mut self, addr: u16, value: u8)
        requires
            old(self).wf(),
        ensures
            final(self).wf(),
            Ppu::write_post(*old(self), *final(self), addr, value),
    {
        if 0x8000 <= addr && addr <= 0x9fff {
            self.write_vram(addr, value);
        } else if 0xfe00 <= addr && addr <= 0xfe9f {
            self.write_oam(addr, value);
        } else if 0xff80 <= addr && addr <= 0xfffe {
            self.write_hram(addr, value);
        } else if addr == 0xff40 {
            self.write_lcdc(value);
        } else {
            self.write_register(addr, value);
        }
    }

    fn write_vram(&mut self, addr: u16, value: u8)
        requires
            old(self).wf(),
            0x8000 <= addr <= 0x9fff,
        ensures
            final(self).wf(),
            Ppu::write_post(*old(self), *final(self), addr, value),
    {
        assert((addr & 0x1fff) < 8192) by (bit_vector);
        self.mem.vram[(addr & 0x1fff) as usize] = value;
        if addr < 0x9800 {
            self.mem.update_tile(addr);
        }
    }

    fn write_oam(&mut self, addr: u16, value: u8)
        requires
            old(self).wf(),
            0xfe00 <= addr <= 0xfe9f,
        ensures
            final(self).wf(),
            Ppu::write_post(*old(self), *final(self), addr, value),
    {
        assert((addr & 0x00ff) <= 0xff) by (bit_vector);
        self.mem.oam[(addr & 0x00ff) as usize] = value;
        self.mem.update_object(addr, value);
    }

    fn write_hram(&mut self, addr: u16, value: u8)
        requires
            old(self).wf(),
            0xff80 <= addr <= 0xfffe,
        ensures
            final(self).wf(),
            Ppu::write_post(*old(self), *final(self), addr, value),
    {
        assert((addr & 0x007f) < 128) by (bit_vector);
        self.mem.hram[(addr & 0x007f) as usize] = value;
    }

    fn write_lcdc(&mut self, value: u8)
        requires
            old(self).wf(),
        ensures
            final(self).wf(),
            Ppu::write_post(*old(self), *final(self), 0xff40, value),
    {
        self.lcd.set_lcdc(value);
        // switching the LCD off resets the line state and blanks the
        // screen; the first frame after it is switched back on shows
        // nothing
        if value & 0x80 != 0x80 {
            self.switch_off();
        }
    }

    fn switch_off(&mut self)
        requires
            old(self).wf(),
        ensures
            final(self).wf(),
            screen_filled(
                final(self).screen.color_buffer@,
                final(self).screen.frame_buffer@,
                old(self).colors.palette_colors[0],
            ),
            final(self).line == (LineState {
                mode: PpuMode::HBlank,
                mode_clock: 0,
                ly: 0,
                int_vblank: false,
                int_stat: false,
                first_frame: true,
                ..old(self).line
            }),
            *final(self) == (Ppu { screen: final(self).screen, line: final(self).line, ..*old(self) }),
    {
        self.line.mode = PpuMode::HBlank;
        self.line.mode_clock = 0;
        self.line.ly = 0;
        self.line.int_vblank = false;
        self.line.int_stat = false;
        self.line.first_frame = true;
        self.clear_frame_buffer();
    }

    /// A write to one of the single registers other than LCDC.
    fn write_register(&mut self, addr: u16, value: u8)
        requires
            old(self).wf(),
            !(0x8000 <= addr <= 0x9fff),
            !(0xfe00 <= addr <= 0xfe9f),
            !(0xff80 <= addr <= 0xfffe),
            addr != 0xff40,
        ensures
            final(self).wf(),
            Ppu::write_post(*old(self), *final(self), addr, value),
    {
        if addr == 0xff41 {
            self.lcd.set_stat(value);
        } else if addr == 0xff42 {
            self.lcd.scy = value;
        } else if addr == 0xff43 {
            self.lcd.scx = value;
        } else if addr == 0xff45 {
            self.lcd.lyc = value;
        } else if addr == 0xff47 || addr == 0xff48 || addr == 0xff49 {
            self.colors.write_palette(addr, value);
        } else if addr == 0xff4a {
            self.lcd.wy = value;
        } else if addr == 0xff4b {
            self.lcd.wx = value;
        }
    }

    /// Fills the screen with `color`, setting every color index to 0.
    pub fn fill_frame_buffer(&mut self, color: Pixel)
        requires
            old(self).wf(),
        ensures
            final(self).wf(),
            screen_filled(final(self).screen.color_buffer@, final(self).screen.frame_buffer@, color),
            *final(self) == (Ppu { screen: final(self).screen, ..*old(self) }),
    {
        self.screen.fill(color);
    }

    /// Fills the screen with base color 0.
    pub fn clear_frame_buffer(&mut self)
        requires
            old(self).wf(),
        ensures
            final(self).wf(),
            screen_filled(
                final(self).screen.color_buffer@,
                final(self).screen.frame_buffer@,
                old(self).colors.palette_colors[0],
            ),
            *final(self) == (Ppu { screen: final(self).screen, ..*old(self) }),
    {
        let color = self.colors.palette_colors[0];
        self.screen.fill(color);
    }
}

impl Colors {
    fn write_palette(&mut self, addr: u16, value: u8)
        requires
            addr == 0xff47 || addr == 0xff48 || addr == 0xff49,
        ensures
            ({
                let k = addr - 0xff47;
                let old = *old(self);
                let new = *final(self);
                &&& k == 0 ==> palette_of(new.palette, old.palette_colors, value)
                &&& k == 1 ==> palette_of(new.palette_obj_0, old.palette_colors, value)
                &&& k == 2 ==> palette_of(new.palette_obj_1, old.palette_colors, value)
                &&& new.palettes@ == old.palettes@.update(k, value)
                &&& new.palette_colors == old.palette_colors
                &&& (k != 0 ==> new.palette == old.palette)
                &&& (k != 1 ==> new.palette_obj_0 == old.palette_obj_0)
                &&& (k != 2 ==> new.palette_obj_1 == old.palette_obj_1)
            }),
    {
        let palette = compute_palette(&self.palette_colors, value);
        if addr == 0xff47 {
            self.palette = palette;
            self.palettes[0] = value;
        } else if addr == 0xff48 {
            self.palette_obj_0 = palette;
            self.palettes[1] = value;
        } else {
            self.palette_obj_1 = palette;
            self.palettes[2] = value;
        }
    }
}

impl Screen {
    fn fill(&mut self, color: Pixel)
        requires
            old(self).wf(),
        ensures
            final(self).wf(),
            screen_filled(final(self).color_buffer@, final(self).frame_buffer@, color),
    {
        let mut i: usize = 0;
        while i < COLOR_BUFFER_SIZE
            invariant
                i <= COLOR_BUFFER_SIZE,
                self.wf(),
                forall|j: int| 0 <= j < i ==> #[trigger] self.color_buffer@[j] == 0,
                forall|j: int, c: int| 0 <= j < i && 0 <= c < 3 ==> #[trigger] self.frame_buffer@[3 * j + c] == color[c],
            decreases COLOR_BUFFER_SIZE - i,
        {
            self.color_buffer[i] = 0;
            self.frame_buffer[3 * i] = color[0];
            self.frame_buffer[3 * i + 1] = color[1];
            self.frame_buffer[3 * i + 2] = color[2];
            proof {
                assert forall|j: int, c: int| 0 <= j < i + 1 && 0 <= c < 3 implies #[trigger] self.frame_buffer@[3 * j
                    + c] == color[c] by {
                    if j == i {
                        assert(c == 0 || c == 1 || c == 2);
                    }
                }
            }
            i += 1;
        }
    }
}

impl VideoMemory {
    /// Decodes again the tile row that the tile-data address `addr` falls in.
    fn update_tile(&mut self, addr: u16)
        requires
            0x8000 <= addr < 0x9800,
            tiles_wf(old(self).tiles@),
        ensures
            tiles_wf(final(self).tiles@),
            tile_updated(old(self).tiles@, final(self).tiles@, old(self).vram@, addr),
            *final(self) == (VideoMemory { tiles: final(self).tiles, ..*old(self) }),
    {
        let a = (addr & 0x1ffe) as usize;
        assert(0x8000 <= addr < 0x9800 ==> (addr & 0x1ffe) < 0x1800) by (bit_vector);
        let tile_index = (a >> 4) & 0x01ff;
        let y = (a >> 1) & 0x0007;
        assert(tile_index == a / 16 && y == (a / 2) % 8) by (bit_vector)
            requires
                a < 0x1800,
                tile_index == (a >> 4) & 0x01ff,
                y == (a >> 1) & 0x0007,
        ;
        let lo = self.vram[a];
        let hi = self.vram[a + 1];
        let mut tile = self.tiles[tile_index];
        let ghost start = tile;
        let mut x: usize = 0;
        while x < TILE_WIDTH
            invariant
                x <= 8,
                y < 8,
                forall|i: int|
                    0 <= i < 64 ==> #[trigger] tile.buffer@[i] == if i / 8 == y && i % 8 < x {
                        row_pixel(lo, hi, i % 8)
                    } else {
                        start.buffer@[i]
                    },
            decreases 8 - x,
        {
            let s = (7 - x) as u8;
            let pixel = ((lo >> s) & 1u8) | (((hi >> s) & 1u8) << 1u8);
            tile.set(x, y, pixel);
            x += 1;
        }
        proof {
            reveal(tiles_wf);
            assert forall|i: int| 0 <= i < 64 implies #[trigger] tile.buffer@[i] < 4 by {
                if i / 8 == y {
                    lemma_row_pixel_range(lo, hi, (7 - i % 8) as u8);
                } else {
                    assert(start == self.tiles@[tile_index as int]);
                }
            }
        }
        self.tiles[tile_index] = tile;
        proof {
            reveal(tiles_wf);
            assert forall|t: int, i: int| 0 <= t < TILE_COUNT && 0 <= i < 64 implies #[trigger] self.tiles@[t].buffer@[i]
                < 4 by {
                if t != tile_index {
                    assert(self.tiles@[t] == old(self).tiles@[t]);
                }
            }
        }
    }

    /// Decodes again the attribute of the object that the OAM address `addr`
    /// falls in.
    fn update_object(&mut self, addr: u16, value: u8)
        requires
            0xfe00 <= addr <= 0xfe9f,
        ensures
            ({
                let a = (addr & 0x01ff) as int;
                final(self).obj_data@ == old(self).obj_data@.update(
                    a / 4,
                    object_after(old(self).obj_data@[a / 4], a % 4, value, a / 4),
                )
            }),
            *final(self) == (VideoMemory { obj_data: final(self).obj_data, ..*old(self) }),
    {
        let a = (addr & 0x01ff) as usize;
        assert(0xfe00 <= addr <= 0xfe9f ==> (addr & 0x01ff) <= 0x9f) by (bit_vector);
        let obj_index = a >> 2;
        let k = a & 0x03;
        assert(obj_index == a / 4 && k == a % 4) by (bit_vector)
            requires
                obj_index == a >> 2,
                k == a & 0x03,
        ;
        let mut obj = self.obj_data[obj_index];
        if k == 0 {
            obj.y = value as i16 - 16;
        } else if k == 1 {
            obj.x = value as i16 - 8;
        } else if k == 2 {
            obj.tile = value;
        } else {
            obj.palette = if value & 0x10 == 0x10 { 1 } else { 0 };
            obj.xflip = value & 0x20 == 0x20;
            obj.yflip = value & 0x40 == 0x40;
            obj.bg_over = value & 0x80 == 0x80;
            obj.index = obj_index as u8;
        }
        self.obj_data[obj_index] = obj;
    }
}


impl Ppu {
    /// The RGB bytes of the screen, row by row.
    pub fn frame_buffer(&self) -> (r: &Vec<u8>)
        ensures
            *r == self.screen.frame_buffer,
    {
        &self.screen.frame_buffer
    }

    pub fn vram(&self) -> (r: &[u8; VRAM_SIZE])
        ensures
            *r == self.mem.vram,
    {
        &self.mem.vram
    }

    pub fn hram(&self) -> (r: &[u8; HRAM_SIZE])
        ensures
            *r == self.mem.hram,
    {
        &self.mem.hram
    }

    pub fn tiles(&self) -> (r: &[Tile; TILE_COUNT])
        ensures
            *r == self.mem.tiles,
    {
        &self.mem.tiles
    }

    pub fn palette(&self) -> (r: Palette)
        ensures
            r == self.colors.palette,
    {
        self.colors.palette
    }

    pub fn palette_obj_0(&self) -> (r: Palette)
        ensures
            r == self.colors.palette_obj_0,
    {
        self.colors.palette_obj_0
    }

    pub fn palette_obj_1(&self) -> (r: Palette)
        ensures
            r == self.colors.palette_obj_1,
    {
        self.colors.palette_obj_1
    }

    pub fn ly(&self) -> (r: u8)
        ensures
            r == self.line.ly,
    {
        self.line.ly
    }

    pub fn mode(&self) -> (r: PpuMode)
        ensures
            r == self.line.mode,
    {
        self.line.mode
    }

    pub fn frame_index(&self) -> (r: u16)
        ensures
            r == self.line.frame_index,
    {
        self.line.frame_index
    }

    pub fn int_vblank(&self) -> (r: bool)
        ensures
            r == self.line.int_vblank,
    {
        self.line.int_vblank
    }

    pub fn set_int_vblank(&mut self, value: bool)
        ensures
            *final(self) == (Ppu { line: LineState { int_vblank: value, ..old(self).line }, ..*old(self) }),
    {
        self.line.int_vblank = value;
    }

    pub fn ack_vblank(&mut self)
        ensures
            *final(self) == (Ppu { line: LineState { int_vblank: false, ..old(self).line }, ..*old(self) }),
    {
        self.line.int_vblank = false;
    }

    pub fn int_stat(&self) -> (r: bool)
        ensures
            r == self.line.int_stat,
    {
        self.line.int_stat
    }

    pub fn set_int_stat(&mut self, value: bool)
        ensures
            *final(self) == (Ppu { line: LineState { int_stat: value, ..old(self).line }, ..*old(self) }),
    {
        self.line.int_stat = value;
    }

    pub fn ack_stat(&mut self)
        ensures
            *final(self) == (Ppu { line: LineState { int_stat: false, ..old(self).line }, ..*old(self) }),
    {
        self.line.int_stat = false;
    }

    pub fn registers(&self) -> (r: PpuRegisters)
        ensures
            r == (PpuRegisters {
                scy: self.lcd.scy,
                scx: self.lcd.scx,
                wy: self.lcd.wy,
                wx: self.lcd.wx,
                ly: self.line.ly,
                lyc: self.lcd.lyc,
            }),
    {
        PpuRegisters {
            scy: self.lcd.scy,
            scx: self.lcd.scx,
            wy: self.lcd.wy,
            wx: self.lcd.wx,
            ly: self.line.ly,
            lyc: self.lcd.lyc,
        }
    }

    /// Replaces the base colors, derives the three palettes again from their
    /// registers and clears the screen to the new color 0.
    pub fn set_palette_colors(&mut self, value: &Palette)
        requires
            old(self).wf(),
        ensures
            final(self).wf(),
            final(self).colors.palette_colors == *value,
            palette_of(final(self).colors.palette, *value, old(self).colors.palettes@[0]),
            palette_of(final(self).colors.palette_obj_0, *value, old(self).colors.palettes@[1]),
            palette_of(final(self).colors.palette_obj_1, *value, old(self).colors.palettes@[2]),
            final(self).colors.palettes == old(self).colors.palettes,
            screen_filled(final(self).screen.color_buffer@, final(self).screen.frame_buffer@, value[0]),
            *final(self) == (Ppu { colors: final(self).colors, screen: final(self).screen, ..*old(self) }),
    {
        self.colors.palette_colors = *value;
        self.colors.palette = compute_palette(value, self.colors.palettes[0]);
        self.colors.palette_obj_0 = compute_palette(value, self.colors.palettes[1]);
        self.colors.palette_obj_1 = compute_palette(value, self.colors.palettes[2]);
        self.clear_frame_buffer();
    }
}

/// Writing the two bit-planes of a tile row decodes that row from them:
/// pixel `x` gets bit 7 - `x` of the low plane as bit 0 and of the high
/// plane as bit 1. Two 0xff planes give color 3 everywhere, two 0x00 planes
/// color 0.
pub proof fn lemma_tile_row_written(s0: Ppu, s1: Ppu, s2: Ppu, addr: u16, lo: u8, hi: u8)
    requires
        0x8000 <= addr < 0x9800,
        addr % 2 == 0,
        Ppu::write_post(s0, s1, addr, lo),
        Ppu::write_post(s1, s2, (addr + 1) as u16, hi),
    ensures
        forall|x: int|
            0 <= x < 8 ==> #[trigger] s2.mem.tiles@[tile_of(addr)].buffer@[row_of(addr) * 8 + x] == row_pixel(lo, hi, x),
        lo == 0xff && hi == 0xff ==> forall|x: int|
            0 <= x < 8 ==> #[trigger] s2.mem.tiles@[tile_of(addr)].buffer@[row_of(addr) * 8 + x] == 3,
        lo == 0 && hi == 0 ==> forall|x: int|
            0 <= x < 8 ==> #[trigger] s2.mem.tiles@[tile_of(addr)].buffer@[row_of(addr) * 8 + x] == 0,
{
    let b = (addr + 1) as u16;
    assert((addr & 0x1ffe) == (b & 0x1ffe) && (addr & 0x1fff) == (addr & 0x1ffe) && (b & 0x1fff) == (addr & 0x1ffe) + 1
        && (addr & 0x1ffe) < 0x1800) by (bit_vector)
        requires
            0x8000 <= addr < 0x9800,
            addr % 2 == 0,
            b == addr + 1,
    ;
    assert forall|x: int| 0 <= x < 8 implies #[trigger] s2.mem.tiles@[tile_of(addr)].buffer@[row_of(addr) * 8 + x]
        == row_pixel(lo, hi, x) by {
        let i = row_of(addr) * 8 + x;
        assert(i / 8 == row_of(addr));
        assert(i % 8 == x);
    }
    assert forall|x: int| 0 <= x < 8 implies row_pixel(0xff, 0xff, x) == 3 && row_pixel(0, 0, x) == 0 by {
        let s = (7 - x) as u8;
        assert((((0xffu8 >> s) & 1u8) | (((0xffu8 >> s) & 1u8) << 1u8)) == 3 && (((0u8 >> s) & 1u8) | (((0u8 >> s)
            & 1u8) << 1u8)) == 0) by (bit_vector)
            requires
                s < 8,
        ;
    }
}

/// The palette that register value `value` selects from `colors`.
fn compute_palette(colors: &Palette, value: u8) -> (r: Palette)
    ensures
        palette_of(r, *colors, value),
{
    let mut palette: Palette = [[0u8; RGB_SIZE]; PALETTE_SIZE];
    let mut index: usize = 0;
    while index < PALETTE_SIZE
        invariant
            index <= 4,
            forall|i: int, c: int|
                0 <= i < index && 0 <= c < 3 ==> #[trigger] palette[i][c] == colors[((value >> (2 * i) as u8) & 3u8) as int][c],
        decreases 4 - index,
    {
        let shift = (2 * index) as u8;
        let color_index = (value >> shift) & 3u8;
        assert(((value >> shift) & 3u8) < 4) by (bit_vector);
        palette[index] = colors[color_index as usize];
        index += 1;
    }
    palette
}

} // verus!
