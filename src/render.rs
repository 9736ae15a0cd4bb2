//! The scanline state machine of the pixel processing unit and the line
//! compositor that it runs at the end of each drawing period.

use vstd::prelude::*;
use crate::ppu::{Ppu, PpuMode, LcdControl, LineState, Screen, ObjectData, Tile, Palette, tiles_wf, DISPLAY_WIDTH, DISPLAY_HEIGHT, COLOR_BUFFER_SIZE, FRAME_BUFFER_SIZE, OBJ_COUNT, OBJ_LINE_LIMIT, TILE_WIDTH, TILE_HEIGHT, TILE_DOUBLE_HEIGHT};

verus! {

/// Cycles spent scanning OAM at the start of a line.
pub const OAM_CYCLES: u16 = 80;

/// Cycles spent drawing a line.
pub const DRAW_CYCLES: u16 = 172;

/// Cycles of horizontal blank at the end of a line.
pub const HBLANK_CYCLES: u16 = 204;

/// Cycles of one line of vertical blank.
pub const LINE_CYCLES: u16 = 456;

/// The number of the first line after the last line of the vertical blank.
pub const LINE_COUNT: u8 = 154;

/// The level of the STAT interrupt line: the OR of the four enabled
/// conditions.
pub open spec fn stat_level(lcd: LcdControl, line: LineState) -> bool {
    ||| lcd.stat_lyc && lcd.lyc == line.ly
    ||| lcd.stat_oam && line.mode == PpuMode::OamRead
    ||| lcd.stat_vblank && line.mode == PpuMode::VBlank
    ||| lcd.stat_hblank && line.mode == PpuMode::HBlank
}

/// Whether the window was drawn on the line that has just ended.
pub open spec fn window_line_counts(lcd: LcdControl, line: LineState) -> bool {
    lcd.switch_window && (lcd.wx as int) - 7 < DISPLAY_WIDTH && (lcd.wy as int) < DISPLAY_HEIGHT && line.ly >= lcd.wy
}

/// `line` with the STAT request raised when the level is now high; a
/// pending request stays until the processor acknowledges it.
pub open spec fn with_stat(lcd: LcdControl, line: LineState) -> LineState {
    LineState { int_stat: line.int_stat || stat_level(lcd, line), ..line }
}

/// The state machine's next state, with the mode clock at `mc` after the
/// cycles of this step were added.
pub open spec fn next_line_state(lcd: LcdControl, line: LineState, mc: u16) -> LineState {
    if line.mode == PpuMode::OamRead {
        if mc >= OAM_CYCLES {
            LineState { mode: PpuMode::VramRead, mode_clock: (mc - OAM_CYCLES) as u16, ..line }
        } else {
            LineState { mode_clock: mc, ..line }
        }
    } else if line.mode == PpuMode::VramRead {
        if mc >= DRAW_CYCLES {
            with_stat(lcd, LineState { mode: PpuMode::HBlank, mode_clock: (mc - DRAW_CYCLES) as u16, ..line })
        } else {
            LineState { mode_clock: mc, ..line }
        }
    } else if line.mode == PpuMode::HBlank {
        if mc >= HBLANK_CYCLES {
            let ly = (line.ly + 1) as u8;
            let wc = if window_line_counts(lcd, line) {
                line.window_counter.wrapping_add(1)
            } else {
                line.window_counter
            };
            let moved = LineState { ly, window_counter: wc, mode_clock: (mc - HBLANK_CYCLES) as u16, ..line };
            if ly == DISPLAY_HEIGHT {
                with_stat(lcd, LineState { int_vblank: true, mode: PpuMode::VBlank, ..moved })
            } else {
                with_stat(lcd, LineState { mode: PpuMode::OamRead, ..moved })
            }
        } else {
            LineState { mode_clock: mc, ..line }
        }
    } else {
        if mc >= LINE_CYCLES {
            let ly = (line.ly + 1) as u8;
            if ly == LINE_COUNT {
                with_stat(
                    lcd,
                    LineState {
                        ly: 0,
                        mode: PpuMode::OamRead,
                        window_counter: 0,
                        first_frame: false,
                        frame_index: line.frame_index.wrapping_add(1),
                        mode_clock: (mc - LINE_CYCLES) as u16,
                        ..line
                    },
                )
            } else {
                LineState { ly, mode_clock: (mc - LINE_CYCLES) as u16, ..line }
            }
        } else {
            LineState { mode_clock: mc, ..line }
        }
    }
}

/// The buffers of `new` equal those of `old` outside line `ly`.
pub open spec fn other_lines_kept(old: Screen, new: Screen, ly: int) -> bool {
    &&& new.color_buffer@.len() == old.color_buffer@.len()
    &&& new.frame_buffer@.len() == old.frame_buffer@.len()
    &&& forall|i: int|
        0 <= i < COLOR_BUFFER_SIZE && i / 160 != ly ==> #[trigger] new.color_buffer@[i] == old.color_buffer@[i]
    &&& forall|i: int|
        0 <= i < FRAME_BUFFER_SIZE && i / 480 != ly ==> #[trigger] new.frame_buffer@[i] == old.frame_buffer@[i]
}

impl Ppu {
    /// Whether a step that leaves the mode clock at `mc` ends a drawing
    /// period, and so renders the current line.
    pub open spec fn renders(&self, mc: u16) -> bool {
        self.lcd.switch_lcd && self.line.mode == PpuMode::VramRead && mc >= DRAW_CYCLES
    }

    /// What rendering the current line does to the screen buffers.
    pub open spec fn line_rendered(old: Ppu, new: Screen) -> bool {
        &&& new.wf()
        &&& other_lines_kept(old.screen, new, old.line.ly as int)
        &&& (old.line.first_frame ==> new == old.screen)
        &&& (!old.line.first_frame ==> exists|s1: Screen, s2: Screen| #[trigger] Ppu::layers_drawn(old, s1, s2, new))
    }

    /// `new` is `old`'s screen after the background (giving `s1`), the
    /// window (giving `s2`) and the objects were drawn, each when its
    /// switch is on.
    pub open spec fn layers_drawn(old: Ppu, s1: Screen, s2: Screen, new: Screen) -> bool {
        &&& if old.lcd.switch_bg {
            map_drawn(old, s1, old.lcd.bg_map, old.lcd.scx, old.lcd.scy, 0, 0, old.line.ly)
        } else {
            s1 == old.screen
        }
        &&& if old.lcd.switch_window {
            map_drawn(
                Ppu { screen: s1, ..old },
                s2,
                old.lcd.window_map,
                0,
                0,
                old.lcd.wx,
                old.lcd.wy,
                old.line.window_counter,
            )
        } else {
            s2 == s1
        }
        &&& if old.lcd.switch_obj {
            objects_drawn(Ppu { screen: s2, ..old }, new)
        } else {
            new == s2
        }
    }

    /// What `clock(cycles)` does: `new` is the unit after it.
    pub open spec fn clock_post(old: Ppu, new: Ppu, cycles: u8) -> bool {
        let mc = old.line.mode_clock.wrapping_add(cycles as u16);
        if !old.lcd.switch_lcd {
            new == old
        } else {
            &&& new.line == next_line_state(old.lcd, old.line, mc)
            &&& (old.renders(mc) ==> Ppu::line_rendered(old, new.screen))
            &&& (!old.renders(mc) ==> new.screen == old.screen)
            &&& new == Ppu { line: new.line, screen: new.screen, ..old }
        }
    }

    /// Advances the mode state machine by `cycles` cycles; the end of a
    /// drawing period renders the current line.
    pub fn clock(&mut self, cycles: u8)
        requires
            old(self).wf(),
        ensures
            final(self).wf(),
            Ppu::clock_post(*old(self), *final(self), cycles),
    {
        if !self.lcd.switch_lcd {
            return;
        }
        let mc = self.line.mode_clock.wrapping_add(cycles as u16);
        if self.line.mode == PpuMode::VramRead && mc >= DRAW_CYCLES {
            self.render_line();
        }
        self.line = advance(&self.lcd, self.line, mc);
    }

    /// Renders the current line: background, then window, then objects, each
    /// when its switch is on; nothing during the first frame after the LCD
    /// is switched on.
    fn render_line(&mut self)
        requires
            old(self).wf(),
            old(self).line.ly < 144,
        ensures
            final(self).wf(),
            Ppu::line_rendered(*old(self), final(self).screen),
            *final(self) == (Ppu { screen: final(self).screen, ..*old(self) }),
    {
        if self.line.first_frame {
            return;
        }
        if self.lcd.switch_bg {
            self.render_map(self.lcd.bg_map, self.lcd.scx, self.lcd.scy, 0, 0, self.line.ly);
        }
        let ghost s1 = self.screen;
        if self.lcd.switch_window {
            self.render_map(self.lcd.window_map, 0, 0, self.lcd.wx, self.lcd.wy, self.line.window_counter);
        }
        let ghost s2 = self.screen;
        if self.lcd.switch_obj {
            self.render_objects();
        }
        proof {
            assert(Ppu::layers_drawn(*old(self), s1, s2, self.screen));
        }
    }

    /// Draws one line of a 32x32 tile map: the background (scrolled by
    /// `scx`, `scy`) or the window (placed at `wx` - 7, `wy`); `ld` is the
    /// line of the map drawn. Columns left of `wx` - 7 keep their pixels.
    fn render_map(&mut self, map: bool, scx: u8, scy: u8, wx: u8, wy: u8, ld: u8)
        requires
            old(self).wf(),
            old(self).line.ly < 144,
        ensures
            final(self).wf(),
            other_lines_kept(old(self).screen, final(self).screen, old(self).line.ly as int),
            *final(self) == (Ppu { screen: final(self).screen, ..*old(self) }),
            map_drawn(*old(self), final(self).screen, map, scx, scy, wx, wy, ld),
    {
        let ly = self.line.ly;
        if ly < wy {
            return;
        }
        let row_offset = (((ld as usize + scy as usize) % 256) / 8) % 32;
        let map_offset: usize = (if map { 0x1c00 } else { 0x1800 }) + row_offset * 32;
        let mut line_offset: usize = (scx / 8) as usize;
        let mut tile_index = self.map_tile(map_offset + line_offset);
        let y = (ld as usize + scy as usize) % 8;
        let mut x = (scx % 8) as usize;
        let base = ly as usize * DISPLAY_WIDTH;
        let ghost s = (scx % 8) as int;
        let ghost mut k: int = 0;
        let mut index: usize = 0;
        while index < DISPLAY_WIDTH
            invariant
                self.wf(),
                ly < 144,
                ly >= wy,
                ly == old(self).line.ly,
                base == ly * 160,
                y == (ld + scy) % 8,
                map_offset == (if map { 0x1c00int } else { 0x1800int }) + ((((ld + scy) % 256) / 8) % 32) * 32,
                0 <= k,
                k == if index >= wx - 7 { index - start_column(wx) } else { 0 },
                x == (s + k) % 8,
                s == scx % 8,
                line_offset == ((scx / 8) + (s + k) / 8) % 32,
                tile_index == map_tile_spec(*old(self), map_offset + line_offset),
                tile_index < 384,
                other_lines_kept(old(self).screen, self.screen, ly as int),
                *self == (Ppu { screen: self.screen, ..*old(self) }),
                forall|j: int|
                    0 <= j < 160 ==> #[trigger] self.screen.color_buffer@[base + j] == if j < index && j >= wx - 7 {
                        map_pixel(*old(self), map, scx, scy, wx, ld, j)
                    } else {
                        old(self).screen.color_buffer@[base + j]
                    },
                forall|j: int, c: int|
                    0 <= j < 160 && 0 <= c < 3 ==> #[trigger] self.screen.frame_buffer@[3 * (base + j) + c] == if j
                        < index && j >= wx - 7 {
                        old(self).colors.palette[map_pixel(*old(self), map, scx, scy, wx, ld, j) as int][c]
                    } else {
                        old(self).screen.frame_buffer@[3 * (base + j) + c]
                    },
            decreases DISPLAY_WIDTH - index,
        {
            if index as i16 >= wx as i16 - 7 {
                let pixel = self.mem.tiles[tile_index].get(x, y);
                proof {
                    reveal(tiles_wf);
                    assert(self.mem.tiles@[tile_index as int].buffer@[(y * 8 + x) as int] < 4);
                    assert(pixel == map_pixel(*old(self), map, scx, scy, wx, ld, index as int));
                }
                let color = self.colors.palette[pixel as usize];
                let ghost before = self.screen;
                self.screen.put(base + index, pixel, color);
                proof {
                    assert forall|j: int, c: int| 0 <= j < 160 && 0 <= c < 3 implies #[trigger] self.screen.frame_buffer@[3
                        * (base + j) + c] == if j < index + 1 && j >= wx - 7 {
                        old(self).colors.palette[map_pixel(*old(self), map, scx, scy, wx, ld, j) as int][c]
                    } else {
                        old(self).screen.frame_buffer@[3 * (base + j) + c]
                    } by {
                        assert((3 * (base + j) + c) / 3 == base + j);
                        assert((3 * (base + j) + c) % 3 == c);
                    }
                    lemma_next_column(s, k, scx as int);
                    k = k + 1;
                }
                x += 1;
                if x == TILE_WIDTH {
                    x = 0;
                    line_offset = (line_offset + 1) % 32;
                    tile_index = self.map_tile(map_offset + line_offset);
                }
            }
            index += 1;
        }
    }

    /// The tile that map entry `offset` of VRAM selects, with indices below
    /// 128 taken from the upper bank when the signed tile data is in use.
    fn map_tile(&self, offset: usize) -> (r: usize)
        requires
            offset < 0x2000,
        ensures
            r < 384,
            r == map_tile_spec(*self, offset as int),
    {
        let raw = self.mem.vram[offset] as usize;
        if !self.lcd.bg_tile && raw < 128 {
            raw + 256
        } else {
            raw
        }
    }

    /// Draws the objects on the current line: the first ten that cover it,
    /// in OAM order. Where objects overlap, the one with the smaller X wins
    /// (the earlier one on a tie); an object behind the background shows
    /// only where the pixel still has color 0; color 0 of an object is
    /// transparent. Returns the number drawn.
    pub fn render_objects(&mut self) -> (drawn: u8)
        requires
            old(self).wf(),
            old(self).line.ly < 144,
        ensures
            final(self).wf(),
            drawn == min_limit(contained_count(old(self).mem.obj_data@, old(self).line.ly as int, obj_height(old(self).lcd.obj_size), OBJ_COUNT as int)),
            other_lines_kept(old(self).screen, final(self).screen, old(self).line.ly as int),
            *final(self) == (Ppu { screen: final(self).screen, ..*old(self) }),
            objects_drawn(*old(self), final(self).screen),
    {
        let ly = self.line.ly;
        let height: i16 = if self.lcd.obj_size { TILE_DOUBLE_HEIGHT as i16 } else { TILE_HEIGHT as i16 };
        let ghost objs = self.mem.obj_data@;
        let ghost start = *self;
        let mut draw_count: u8 = 0;
        let mut owner: [i16; DISPLAY_WIDTH] = [-256i16; DISPLAY_WIDTH];
        let mut index: usize = 0;
        while index < OBJ_COUNT
            invariant
                self.wf(),
                ly < 144,
                ly == old(self).line.ly,
                start == *old(self),
                height == obj_height(self.lcd.obj_size),
                objs == self.mem.obj_data@,
                index <= OBJ_COUNT,
                draw_count == min_limit(contained_count(objs, ly as int, height as int, index as int)),
                other_lines_kept(old(self).screen, self.screen, ly as int),
                *self == (Ppu { screen: self.screen, ..*old(self) }),
                forall|x: int|
                    0 <= x < 160 ==> #[trigger] self.screen.color_buffer@[ly * 160 + x] == pixel_after(start, x, index as int).0
                        && owner@[x] as int == pixel_after(start, x, index as int).1,
                forall|x: int, c: int|
                    0 <= x < 160 && 0 <= c < 3 ==> #[trigger] self.screen.frame_buffer@[3 * (ly * 160 + x) + c]
                        == frame_after(start, x, index as int, c),
            decreases OBJ_COUNT - index,
        {
            if draw_count == OBJ_LINE_LIMIT {
                proof {
                    lemma_contained_monotone(objs, ly as int, height as int, index as int, OBJ_COUNT as int);
                    assert forall|x: int| 0 <= x < 160 implies pixel_after(start, x, OBJ_COUNT as int) == pixel_after(
                        start,
                        x,
                        index as int,
                    ) by {
                        lemma_after_limit(start, x, index as int, OBJ_COUNT as int);
                    }
                }
                return draw_count;
            }
            let obj = self.mem.obj_data[index];
            let contained = (obj.y as i32) <= (ly as i32) && (obj.y as i32) + (height as i32) > (ly as i32);
            if contained {
                let ghost before = *self;
                let ghost owner_before = owner;
                self.draw_object(obj, height, &mut owner);
                proof {
                    assert(obj_drawn(objs, ly as int, height as int, index as int));
                    assert(obj == objs[index as int]);
                    assert forall|x: int| 0 <= x < 160 implies #[trigger] self.screen.color_buffer@[ly * 160 + x]
                        == pixel_after(start, x, index + 1).0 && owner@[x] as int == pixel_after(start, x, index + 1).1 by {
                        assert(column_drawn(before, owner_before@, self.screen, owner@, obj, x, obj.x + 8));
                        assert(obj_pixel(before, obj, x) == obj_pixel(start, obj, x));
                        assert(before.screen.color_buffer@[ly * 160 + x] == pixel_after(start, x, index as int).0);
                        assert(owner_before@[x] as int == pixel_after(start, x, index as int).1);
                    }
                    assert forall|x: int, c: int| 0 <= x < 160 && 0 <= c < 3 implies #[trigger] self.screen.frame_buffer@[3
                        * (ly * 160 + x) + c] == frame_after(start, x, index + 1, c) by {
                        assert(column_drawn(before, owner_before@, self.screen, owner@, obj, x, obj.x + 8));
                        assert(obj_pixel(before, obj, x) == obj_pixel(start, obj, x));
                        assert(obj_palette(before, obj) == obj_palette(start, obj));
                        assert(before.screen.color_buffer@[ly * 160 + x] == pixel_after(start, x, index as int).0);
                        assert(owner_before@[x] as int == pixel_after(start, x, index as int).1);
                        assert(before.screen.frame_buffer@[3 * (ly * 160 + x) + c] == frame_after(start, x, index as int, c));
                    }
                }
                draw_count = draw_count + 1;
            } else {
                proof {
                    assert forall|x: int| 0 <= x < 160 implies pixel_after(start, x, index + 1) == pixel_after(
                        start,
                        x,
                        index as int,
                    ) by {}
                    assert forall|x: int, c: int| 0 <= x < 160 && 0 <= c < 3 implies frame_after(start, x, index + 1, c)
                        == frame_after(start, x, index as int, c) by {}
                }
            }
            index += 1;
        }
        draw_count
    }

    /// Draws the row of `obj` on the current line, pixel by pixel where
    /// `obj_draws` holds; `owner` holds, per column, the X of the object
    /// that drew there (-256 for none).
    fn draw_object(&mut self, obj: ObjectData, height: i16, owner: &mut [i16; DISPLAY_WIDTH])
        requires
            old(self).wf(),
            old(self).line.ly < 144,
            height == 8 || height == 16,
            height == obj_height(old(self).lcd.obj_size),
            (obj.y as int) <= old(self).line.ly < (obj.y as int) + height,
        ensures
            final(self).wf(),
            other_lines_kept(old(self).screen, final(self).screen, old(self).line.ly as int),
            *final(self) == (Ppu { screen: final(self).screen, ..*old(self) }),
            forall|x: int|
                0 <= x < 160 ==> #[trigger] column_drawn(*old(self), old(owner)@, final(self).screen, final(owner)@, obj, x, obj.x + 8),
    {
        let ly = self.line.ly;
        let palette = if obj.palette == 0 { self.colors.palette_obj_0 } else { self.colors.palette_obj_1 };
        let mut tile_offset = (ly as i32 - obj.y as i32) as usize;
        if obj.yflip {
            tile_offset = height as usize - tile_offset - 1;
        }
        let tile_index: usize;
        if height == 16 {
            if tile_offset < 8 {
                tile_index = obj.tile as usize / 2 * 2;
            } else {
                tile_index = obj.tile as usize / 2 * 2 + 1;
                tile_offset = tile_offset - 8;
            }
        } else {
            tile_index = obj.tile as usize;
        }
        let tile = self.mem.tiles[tile_index];
        let base = ly as usize * DISPLAY_WIDTH;
        let mut tile_x: usize = 0;
        while tile_x < TILE_WIDTH
            invariant
                self.wf(),
                ly < 144,
                ly == old(self).line.ly,
                base == ly * 160,
                tile_offset < 8,
                tile_index < 384,
                tile == self.mem.tiles@[tile_index as int],
                palette == obj_palette(*old(self), obj),
                forall|x: int| #![trigger obj_pixel(*old(self), obj, x)]
                    obj.x <= x < obj.x + 8 ==> obj_pixel(*old(self), obj, x) == tile.buffer@[tile_offset * 8 + (if obj.xflip { 7 - (x - obj.x) } else { x - obj.x })],
                other_lines_kept(old(self).screen, self.screen, ly as int),
                *self == (Ppu { screen: self.screen, ..*old(self) }),
                forall|x: int|
                    0 <= x < 160 ==> #[trigger] column_drawn(*old(self), old(owner)@, self.screen, owner@, obj, x, obj.x
                        + tile_x),
            decreases TILE_WIDTH - tile_x,
        {
            let ghost pre = self.screen;
            let ghost pre_owner = *owner;
            let ghost lim = obj.x + tile_x;
            let x = obj.x as i32 + tile_x as i32;
            if x >= 0 && x < DISPLAY_WIDTH as i32 {
                let xu = x as usize;
                let visible = !obj.bg_over || self.screen.color_buffer[base + xu] == 0;
                let has_priority = owner[xu] == -256 || obj.x < owner[xu];
                let px = if obj.xflip { 7 - tile_x } else { tile_x };
                let pixel = tile.get(px, tile_offset);
                proof {
                    reveal(tiles_wf);
                    assert(self.mem.tiles@[tile_index as int].buffer@[(tile_offset * 8 + px) as int] < 4);
                    assert(pixel == obj_pixel(*old(self), obj, x as int));
                }
                proof {
                    assert(column_drawn(*old(self), old(owner)@, pre, pre_owner@, obj, xu as int, xu as int));
                }
                if visible && has_priority && pixel != 0 {
                    owner[xu] = obj.x;
                    self.screen.put(base + xu, pixel, palette[pixel as usize]);
                }
                proof {
                    assert forall|y: int, c: int| 0 <= y < 160 && 0 <= c < 3 implies #[trigger] ((3 * (ly * 160 + y) + c)
                        / 3) == ly * 160 + y && (3 * (ly * 160 + y) + c) % 3 == c by {}
                }
            }
            tile_x += 1;
            proof {
                assert(obj.x + tile_x == lim + 1);
                assert forall|y: int| 0 <= y < 160 implies #[trigger] column_drawn(
                    *old(self),
                    old(owner)@,
                    self.screen,
                    owner@,
                    obj,
                    y,
                    obj.x + tile_x,
                ) by {
                    assert(column_drawn(*old(self), old(owner)@, pre, pre_owner@, obj, y, lim));
                }
            }
        }
        proof {
            assert forall|y: int| 0 <= y < 160 implies #[trigger] column_drawn(
                *old(self),
                old(owner)@,
                self.screen,
                owner@,
                obj,
                y,
                obj.x + 8,
            ) by {
                assert(column_drawn(*old(self), old(owner)@, self.screen, owner@, obj, y, obj.x + tile_x));
            }
        }
    }
}

/// The first screen column that a map drawn at `wx` - 7 covers.
pub open spec fn start_column(wx: u8) -> int {
    if wx - 7 > 0 {
        wx - 7
    } else {
        0
    }
}

/// The tile that map entry `offset` of VRAM selects.
pub open spec fn map_tile_spec(p: Ppu, offset: int) -> int {
    let raw = p.mem.vram@[offset] as int;
    if !p.lcd.bg_tile && raw < 128 {
        raw + 256
    } else {
        raw
    }
}

/// The color index that drawing map line `ld` (of the map chosen by `map`,
/// scrolled by `scx`, `scy`, placed at `wx` - 7) puts at screen column
/// `i`.
pub open spec fn map_pixel(p: Ppu, map: bool, scx: u8, scy: u8, wx: u8, ld: u8, i: int) -> u8 {
    let pos = (scx % 8) + (i - start_column(wx));
    let col = ((scx / 8) + pos / 8) % 32;
    let row = (((ld + scy) % 256) / 8) % 32;
    let base: int = if map { 0x1c00 } else { 0x1800 };
    p.mem.tiles@[map_tile_spec(p, base + row * 32 + col)].buffer@[((ld + scy) % 8) * 8 + pos % 8]
}

proof fn lemma_next_column(s: int, k: int, scx: int)
    requires
        0 <= s < 8,
        0 <= k,
        0 <= scx,
    ensures
        (s + k + 1) % 8 == if (s + k) % 8 == 7 { 0 } else { (s + k) % 8 + 1 },
        ((scx / 8) + (s + k + 1) / 8) % 32 == if (s + k) % 8 == 7 {
            (((scx / 8) + (s + k) / 8) % 32 + 1) % 32
        } else {
            ((scx / 8) + (s + k) / 8) % 32
        },
{
    let n = s + k;
    assert(n == 8 * (n / 8) + n % 8) by (nonlinear_arith)
        requires n >= 0;
    assert((n + 1) / 8 == if n % 8 == 7 { n / 8 + 1 } else { n / 8 }) by (nonlinear_arith)
        requires n >= 0, n == 8 * (n / 8) + n % 8, 0 <= n % 8 < 8;
    let q = scx / 8 + n / 8;
    assert((q + 1) % 32 == (q % 32 + 1) % 32) by (nonlinear_arith)
        requires q >= 0;
}

/// `new` is `old`'s screen with one line of a tile map drawn on line `ly`
/// (see `render_map`); the other columns and lines keep their pixels.
pub open spec fn map_drawn(old: Ppu, new: Screen, map: bool, scx: u8, scy: u8, wx: u8, wy: u8, ld: u8) -> bool {
    let ly = old.line.ly as int;
    &&& new.wf()
    &&& other_lines_kept(old.screen, new, ly)
    &&& forall|i: int|
        0 <= i < 160 ==> #[trigger] new.color_buffer@[ly * 160 + i] == if ly >= wy && i >= wx - 7 {
            map_pixel(old, map, scx, scy, wx, ld, i)
        } else {
            old.screen.color_buffer@[ly * 160 + i]
        }
    &&& forall|i: int, c: int|
        0 <= i < 160 && 0 <= c < 3 ==> #[trigger] new.frame_buffer@[3 * (ly * 160 + i) + c] == if ly >= wy && i >= wx
            - 7 {
            old.colors.palette[map_pixel(old, map, scx, scy, wx, ld, i) as int][c]
        } else {
            old.screen.frame_buffer@[3 * (ly * 160 + i) + c]
        }
}

/// `new` is `old`'s screen with the objects drawn on line `ly` (see
/// `render_objects`).
pub open spec fn objects_drawn(old: Ppu, new: Screen) -> bool {
    let ly = old.line.ly as int;
    &&& new.wf()
    &&& other_lines_kept(old.screen, new, ly)
    &&& forall|x: int| 0 <= x < 160 ==> #[trigger] new.color_buffer@[ly * 160 + x] == pixel_after(old, x, OBJ_COUNT as int).0
    &&& forall|x: int, c: int|
        0 <= x < 160 && 0 <= c < 3 ==> #[trigger] new.frame_buffer@[3 * (ly * 160 + x) + c] == frame_after(
            old,
            x,
            OBJ_COUNT as int,
            c,
        )
}

/// Column `x` of the current line after object `o` was drawn over `p`'s
/// screen (for columns left of `limit`; the others are untouched): `owner0`/`owner` hold, per
/// column, the X of the object that drew there before and after.
pub open spec fn column_drawn(
    p: Ppu,
    owner0: Seq<i16>,
    s: Screen,
    owner: Seq<i16>,
    o: ObjectData,
    x: int,
    limit: int,
) -> bool {
    let i = p.line.ly * 160 + x;
    if x < limit && obj_draws(p, o, x, p.screen.color_buffer@[i], owner0[x] as int) {
        &&& s.color_buffer@[i] == obj_pixel(p, o, x)
        &&& owner[x] == o.x
        &&& forall|c: int|
            0 <= c < 3 ==> #[trigger] s.frame_buffer@[3 * i + c] == obj_palette(p, o)[obj_pixel(p, o, x) as int][c]
    } else {
        &&& s.color_buffer@[i] == p.screen.color_buffer@[i]
        &&& owner[x] == owner0[x]
        &&& forall|c: int| 0 <= c < 3 ==> #[trigger] s.frame_buffer@[3 * i + c] == p.screen.frame_buffer@[3 * i + c]
    }
}

/// Whether object `k` is drawn on line `ly`: it covers the line and fewer
/// than ten objects before it in OAM order do.
pub open spec fn obj_drawn(objs: Seq<ObjectData>, ly: int, height: int, k: int) -> bool {
    covers(objs[k], ly, height) && contained_count(objs, ly, height, k) < OBJ_LINE_LIMIT
}

/// The color index of object `o` at screen column `x` of the current line.
pub open spec fn obj_pixel(p: Ppu, o: ObjectData, x: int) -> u8 {
    let h = obj_height(p.lcd.obj_size);
    let off0 = p.line.ly - o.y;
    let off = if o.yflip { h - off0 - 1 } else { off0 };
    let tile = if h == 16 { if off < 8 { o.tile / 2 * 2 } else { o.tile / 2 * 2 + 1 } } else { o.tile as int };
    let row = if h == 16 && off >= 8 { off - 8 } else { off };
    let tx = x - o.x;
    let col = if o.xflip { 7 - tx } else { tx };
    p.mem.tiles@[tile].buffer@[row * 8 + col]
}

/// The palette that object `o` uses.
pub open spec fn obj_palette(p: Ppu, o: ObjectData) -> Palette {
    if o.palette == 0 {
        p.colors.palette_obj_0
    } else {
        p.colors.palette_obj_1
    }
}

/// Whether object `o` draws column `x` over a pixel of color `color` whose
/// current owner has X `owner` (-256 for none).
pub open spec fn obj_draws(p: Ppu, o: ObjectData, x: int, color: u8, owner: int) -> bool {
    &&& o.x <= x < o.x + 8
    &&& (!o.bg_over || color == 0)
    &&& (owner == -256 || o.x < owner)
    &&& obj_pixel(p, o, x) != 0
}

/// Column `x` of the current line after the first `k` objects were
/// considered: its color index, the X of the object that owns it (-256 for
/// none) and the index of that object (-1 for none).
pub open spec fn pixel_after(p: Ppu, x: int, k: int) -> (u8, int, int)
    decreases k,
{
    if k <= 0 {
        (p.screen.color_buffer@[p.line.ly * 160 + x], -256, -1)
    } else {
        let prev = pixel_after(p, x, k - 1);
        let o = p.mem.obj_data@[k - 1];
        if obj_drawn(p.mem.obj_data@, p.line.ly as int, obj_height(p.lcd.obj_size), k - 1) && obj_draws(
            p,
            o,
            x,
            prev.0,
            prev.1,
        ) {
            (obj_pixel(p, o, x), o.x as int, k - 1)
        } else {
            prev
        }
    }
}

/// Byte `c` of the RGB value of column `x` after the first `k` objects:
/// the owning object's palette color, else what was there.
pub open spec fn frame_after(p: Ppu, x: int, k: int, c: int) -> u8 {
    let s = pixel_after(p, x, k);
    if s.2 >= 0 {
        obj_palette(p, p.mem.obj_data@[s.2])[s.0 as int][c]
    } else {
        p.screen.frame_buffer@[3 * (p.line.ly * 160 + x) + c]
    }
}

/// Every pixel of the line comes from the background or from one of the
/// first ten objects covering the line: an object with ten covering ones
/// before it in OAM order never shows.
pub proof fn lemma_only_first_ten_show(p: Ppu, x: int, k: int)
    requires
        0 <= k <= OBJ_COUNT,
    ensures
        pixel_after(p, x, k).2 == -1 || (0 <= pixel_after(p, x, k).2 < k && obj_drawn(
            p.mem.obj_data@,
            p.line.ly as int,
            obj_height(p.lcd.obj_size),
            pixel_after(p, x, k).2,
        )),
    decreases k,
{
    if k > 0 {
        lemma_only_first_ten_show(p, x, k - 1);
    }
}

proof fn lemma_after_limit(p: Ppu, x: int, a: int, b: int)
    requires
        0 <= a <= b,
        contained_count(p.mem.obj_data@, p.line.ly as int, obj_height(p.lcd.obj_size), a) >= OBJ_LINE_LIMIT,
    ensures
        pixel_after(p, x, b) == pixel_after(p, x, a),
    decreases b - a,
{
    if a < b {
        lemma_after_limit(p, x, a, b - 1);
        lemma_contained_monotone(p.mem.obj_data@, p.line.ly as int, obj_height(p.lcd.obj_size), a, b - 1);
    }
}

/// The height in pixels of every object: 16 in the tall mode, else 8.
pub open spec fn obj_height(obj_size: bool) -> int {
    if obj_size {
        16
    } else {
        8
    }
}

/// Whether object `o` covers line `ly`.
pub open spec fn covers(o: ObjectData, ly: int, height: int) -> bool {
    o.y <= ly < o.y + height
}

/// The number of the first `n` objects that cover line `ly`.
pub open spec fn contained_count(objs: Seq<ObjectData>, ly: int, height: int, n: int) -> int
    decreases n,
{
    if n <= 0 {
        0
    } else {
        contained_count(objs, ly, height, n - 1) + if covers(objs[n - 1], ly, height) { 1int } else { 0int }
    }
}

/// The number drawn of `n` objects on a line: at most ten.
pub open spec fn min_limit(n: int) -> int {
    if n < OBJ_LINE_LIMIT {
        n
    } else {
        OBJ_LINE_LIMIT as int
    }
}

/// However many objects cover a line, at most ten are drawn on it: with
/// eleven or more, exactly ten are, and the later ones in OAM order are
/// skipped.
pub proof fn lemma_draw_limit(objs: Seq<ObjectData>, ly: int, height: int)
    requires
        contained_count(objs, ly, height, OBJ_COUNT as int) >= 11,
    ensures
        min_limit(contained_count(objs, ly, height, OBJ_COUNT as int)) == 10,
{
}

proof fn lemma_contained_monotone(objs: Seq<ObjectData>, ly: int, height: int, a: int, b: int)
    requires
        a <= b,
    ensures
        contained_count(objs, ly, height, a) <= contained_count(objs, ly, height, b),
    decreases b - a,
{
    if a < b {
        lemma_contained_monotone(objs, ly, height, a, b - 1);
    }
}

impl Screen {
    /// Sets pixel `i` to color index `pixel` shown as `color`.
    fn put(&mut self, i: usize, pixel: u8, color: [u8; 3])
        requires
            old(self).wf(),
            i < COLOR_BUFFER_SIZE,
        ensures
            final(self).wf(),
            final(self).color_buffer@ == old(self).color_buffer@.update(i as int, pixel),
            forall|j: int|
                0 <= j < FRAME_BUFFER_SIZE ==> #[trigger] final(self).frame_buffer@[j] == if j / 3 == i {
                    color[j % 3]
                } else {
                    old(self).frame_buffer@[j]
                },
    {
        self.color_buffer[i] = pixel;
        self.frame_buffer[3 * i] = color[0];
        self.frame_buffer[3 * i + 1] = color[1];
        self.frame_buffer[3 * i + 2] = color[2];
    }
}


/// With the LCD on, one line starting in OAM scan with an empty mode clock
/// moves to drawing after 80 cycles, to the horizontal blank after 172
/// more and, after 204 more, to the next line's OAM scan or, at the end of
/// the last visible line, to the vertical blank with its interrupt
/// requested.
pub proof fn lemma_mode_thresholds(s0: Ppu, s1: Ppu, s2: Ppu, s3: Ppu)
    requires
        s0.wf(),
        s0.lcd.switch_lcd,
        s0.line.mode == PpuMode::OamRead,
        s0.line.mode_clock == 0,
        Ppu::clock_post(s0, s1, 80),
        Ppu::clock_post(s1, s2, 172),
        Ppu::clock_post(s2, s3, 204),
    ensures
        s1.line.mode == PpuMode::VramRead && s1.line.mode_clock == 0,
        s2.line.mode == PpuMode::HBlank && s2.line.mode_clock == 0,
        s3.line.mode_clock == 0,
        s3.line.ly == s0.line.ly + 1,
        s0.line.ly < 143 ==> s3.line.mode == PpuMode::OamRead,
        s0.line.ly == 143 ==> s3.line.mode == PpuMode::VBlank && s3.line.int_vblank,
{
}

/// With the LCD on, fewer than 80 cycles from an empty mode clock leave the
/// unit in OAM scan.
pub proof fn lemma_oam_scan_holds(s0: Ppu, s1: Ppu, cycles: u8)
    requires
        s0.lcd.switch_lcd,
        s0.line.mode == PpuMode::OamRead,
        s0.line.mode_clock == 0,
        cycles < 80,
        Ppu::clock_post(s0, s1, cycles),
    ensures
        s1.line.mode == PpuMode::OamRead,
        s1.line.mode_clock == cycles,
{
}

/// The line state after `k` vertical-blank lines of 456 cycles each.
pub open spec fn after_lines(lcd: LcdControl, line: LineState, k: nat) -> LineState
    decreases k,
{
    if k == 0 {
        line
    } else {
        let prev = after_lines(lcd, line, (k - 1) as nat);
        next_line_state(lcd, prev, prev.mode_clock.wrapping_add(LINE_CYCLES))
    }
}

/// Ten lines of 456 cycles from the start of the vertical blank bring the
/// line counter back to 0, count one more frame (wrapping at 65536) and
/// return to OAM scan.
pub proof fn lemma_vblank_wraps(lcd: LcdControl, line: LineState)
    requires
        line.mode == PpuMode::VBlank,
        line.ly == 144,
        line.mode_clock == 0,
    ensures
        after_lines(lcd, line, 10).ly == 0,
        after_lines(lcd, line, 10).mode == PpuMode::OamRead,
        after_lines(lcd, line, 10).frame_index == line.frame_index.wrapping_add(1),
        after_lines(lcd, line, 10).mode_clock == 0,
{
    lemma_vblank_lines(lcd, line, 9);
    reveal_with_fuel(after_lines, 2);
}

proof fn lemma_vblank_lines(lcd: LcdControl, line: LineState, k: nat)
    requires
        line.mode == PpuMode::VBlank,
        line.ly == 144,
        line.mode_clock == 0,
        k <= 9,
    ensures
        after_lines(lcd, line, k).ly == 144 + k,
        after_lines(lcd, line, k).mode == PpuMode::VBlank,
        after_lines(lcd, line, k).mode_clock == 0,
        after_lines(lcd, line, k).frame_index == line.frame_index,
    decreases k,
{
    if k > 0 {
        lemma_vblank_lines(lcd, line, (k - 1) as nat);
    }
}

fn stat_level_of(lcd: &LcdControl, line: &LineState) -> (r: bool)
    ensures
        r == stat_level(*lcd, *line),
{
    lcd.stat_lyc && lcd.lyc == line.ly || lcd.stat_oam && line.mode == PpuMode::OamRead || lcd.stat_vblank
        && line.mode == PpuMode::VBlank || lcd.stat_hblank && line.mode == PpuMode::HBlank
}

fn update_stat(lcd: &LcdControl, line: LineState) -> (r: LineState)
    ensures
        r == with_stat(*lcd, line),
{
    let mut r = line;
    r.int_stat = line.int_stat || stat_level_of(lcd, &line);
    r
}

/// The state machine's next state; `mc` is the mode clock with this step's
/// cycles added.
fn advance(lcd: &LcdControl, line: LineState, mc: u16) -> (r: LineState)
    requires
        line.wf(),
    ensures
        r.wf(),
        r == next_line_state(*lcd, line, mc),
{
    let mut r = line;
    match line.mode {
        PpuMode::OamRead => {
            if mc >= OAM_CYCLES {
                r.mode = PpuMode::VramRead;
                r.mode_clock = mc - OAM_CYCLES;
            } else {
                r.mode_clock = mc;
            }
        },
        PpuMode::VramRead => {
            if mc >= DRAW_CYCLES {
                r.mode = PpuMode::HBlank;
                r.mode_clock = mc - DRAW_CYCLES;
                r = update_stat(lcd, r);
            } else {
                r.mode_clock = mc;
            }
        },
        PpuMode::HBlank => {
            if mc >= HBLANK_CYCLES {
                // the window line counter only moves on lines where the
                // window was visible
                if lcd.switch_window && (lcd.wx as i16) - 7 < DISPLAY_WIDTH as i16 && (lcd.wy as usize)
                    < DISPLAY_HEIGHT && line.ly >= lcd.wy {
                    r.window_counter = line.window_counter.wrapping_add(1);
                }
                r.ly = line.ly + 1;
                r.mode_clock = mc - HBLANK_CYCLES;
                if r.ly as usize == DISPLAY_HEIGHT {
                    r.int_vblank = true;
                    r.mode = PpuMode::VBlank;
                } else {
                    r.mode = PpuMode::OamRead;
                }
                r = update_stat(lcd, r);
            } else {
                r.mode_clock = mc;
            }
        },
        PpuMode::VBlank => {
            if mc >= LINE_CYCLES {
                r.ly = line.ly + 1;
                r.mode_clock = mc - LINE_CYCLES;
                if r.ly == LINE_COUNT {
                    r.mode = PpuMode::OamRead;
                    r.ly = 0;
                    r.window_counter = 0;
                    r.first_frame = false;
                    r.frame_index = line.frame_index.wrapping_add(1);
                    r = update_stat(lcd, r);
                }
            } else {
                r.mode_clock = mc;
            }
        },
    }
    r
}

} // verus!
