//! The pixel engine: video memory, the scanline state machine and the
//! background renderer.

use vstd::prelude::*;
use vstd::arithmetic::div_mod::{lemma_add_mod_noop, lemma_mod_self_0, lemma_small_mod};
use crate::bits::{bit_set, bit_value, get_bit};

verus! {

pub const VRAM_SIZE: usize = 0x2000;
pub const OAM_SIZE: usize = 0xA0;
pub const FRAMEBUFFER_WIDTH: usize = 160;
pub const FRAMEBUFFER_HEIGTH: usize = 144;
/// Four bytes (red, green, blue, alpha) for each pixel.
pub const FRAMEBUFFER_SIZE: usize = 92160;
/// Bytes of the framebuffer in one row.
pub const ROW_BYTES: usize = 640;

pub const DOTS_PER_LINE: u32 = 456;
pub const LINES_PER_FRAME: u8 = 154;
pub const DOTS_PER_FRAME: u32 = 70224;
/// The most dots that are accounted for in one step, so that no mode is
/// skipped over.
pub const STEP_DOTS: u8 = 80;

pub const LYC_INTERRUPT_ENABLED: u8 = 0b0100_0000;
pub const OAM_INTERRUPT_ENABLED: u8 = 0b0010_0000;
pub const VBLANK_INTERRUPT_ENABLED: u8 = 0b0001_0000;
pub const HBLANK_INTERRUPT_ENABLED: u8 = 0b0000_1000;
/// The bits of the status register that can be written.
pub const STAT_WRITABLE: u8 = 0b0111_1000;
pub const COINCIDENCE_FLAG: u8 = 0b0000_0100;

#[derive(Clone, Copy, Debug, PartialEq, Eq, Structural)]
pub struct Color {
    pub r: u8,
    pub g: u8,
    pub b: u8,
    pub a: u8,
}

#[derive(Clone, Copy, Debug, PartialEq, Eq, Structural)]
pub enum GpuMode {
    OAMSearch,
    PixelTransfer,
    HBlank,
    VBlank,
}

impl GpuMode {
    /// The mode as the low two bits of the status register.
    pub open spec fn spec_bits(self) -> u8 {
        match self {
            GpuMode::HBlank => 0,
            GpuMode::VBlank => 1,
            GpuMode::OAMSearch => 2,
            GpuMode::PixelTransfer => 3,
        }
    }

    #[verifier::when_used_as_spec(spec_bits)]
    pub fn bits(self) -> (r: u8)
        ensures
            r == self.spec_bits(),
    {
        match self {
            GpuMode::HBlank => 0,
            GpuMode::VBlank => 1,
            GpuMode::OAMSearch => 2,
            GpuMode::PixelTransfer => 3,
        }
    }
}

pub struct GPU {
    pub vram: [u8; VRAM_SIZE],
    pub oam: [u8; OAM_SIZE],
    pub framebuffer: [u8; FRAMEBUFFER_SIZE],
    pub(crate) mode_counter: u32,
    pub(crate) line: u8,
    pub(crate) mode: GpuMode,
    pub vblank_interrupt_req: bool,
    pub stat_interrupt_req: bool,
    pub(crate) scy: u8,
    pub(crate) scx: u8,
    pub(crate) stat: u8,
    pub(crate) lcdc: u8,
    pub(crate) lyc: u8,
    pub(crate) bgp: u8,
    pub(crate) obp0: u8,
    pub(crate) obp1: u8,
    pub(crate) wy: u8,
    pub(crate) wx: u8,
}

/// The pixel engine as a value.
pub struct GpuView {
    pub vram: Seq<u8>,
    pub oam: Seq<u8>,
    pub framebuffer: Seq<u8>,
    /// Dots elapsed in the current scanline.
    pub mode_counter: u32,
    /// The current scanline.
    pub line: u8,
    pub mode: GpuMode,
    pub vblank_interrupt_req: bool,
    pub stat_interrupt_req: bool,
    pub scy: u8,
    pub scx: u8,
    /// The interrupt-enable bits of the status register.
    pub stat: u8,
    pub lcdc: u8,
    pub lyc: u8,
    pub bgp: u8,
    pub obp0: u8,
    pub obp1: u8,
    pub wy: u8,
    pub wx: u8,
}

/// The mode that the engine is in at `counter` dots into scanline `line`:
/// 144 visible lines of 80 dots of OAM search, 172 of pixel transfer and
/// the rest of horizontal blanking, then ten lines of vertical blanking.
pub open spec fn mode_at(line: u8, counter: u32) -> GpuMode {
    if line >= FRAMEBUFFER_HEIGTH {
        GpuMode::VBlank
    } else if counter < 80 {
        GpuMode::OAMSearch
    } else if counter < 252 {
        GpuMode::PixelTransfer
    } else {
        GpuMode::HBlank
    }
}

/// The display colour of each of the four shades.
pub open spec fn spec_shade_color(shade: u8) -> Color {
    if shade == 0 {
        Color { r: 224, g: 248, b: 208, a: 255 }
    } else if shade == 1 {
        Color { r: 136, g: 192, b: 112, a: 255 }
    } else if shade == 2 {
        Color { r: 39, g: 80, b: 70, a: 255 }
    } else {
        Color { r: 8, g: 24, b: 32, a: 255 }
    }
}

/// The shade that `palette` gives to colour index `color_id`: the two
/// bits of the palette at positions `2 * color_id + 1` and `2 * color_id`.
pub open spec fn palette_shade(palette: u8, color_id: u8) -> u8 {
    (2 * bit_value(palette, (2 * color_id + 1) as usize) + bit_value(palette, (2 * color_id) as usize)) as u8
}

/// One channel of a colour: 0 red, 1 green, 2 blue, 3 alpha.
pub open spec fn channel(color: Color, k: int) -> u8 {
    if k == 0 {
        color.r
    } else if k == 1 {
        color.g
    } else if k == 2 {
        color.b
    } else {
        color.a
    }
}

impl GpuView {
    /// The engine at power-on: memories and registers zero, the display
    /// off, at the start of scanline 0.
    pub open spec fn power_on() -> GpuView {
        GpuView {
            vram: Seq::new(VRAM_SIZE as nat, |i: int| 0u8),
            oam: Seq::new(OAM_SIZE as nat, |i: int| 0u8),
            framebuffer: Seq::new(FRAMEBUFFER_SIZE as nat, |i: int| 0u8),
            mode_counter: 0,
            line: 0,
            mode: GpuMode::OAMSearch,
            vblank_interrupt_req: false,
            stat_interrupt_req: false,
            scy: 0,
            scx: 0,
            stat: 0,
            lcdc: 0,
            lyc: 0,
            bgp: 0,
            obp0: 0,
            obp1: 0,
            wy: 0,
            wx: 0,
        }
    }

    pub open spec fn wf(self) -> bool {
        &&& self.vram.len() == VRAM_SIZE
        &&& self.oam.len() == OAM_SIZE
        &&& self.framebuffer.len() == FRAMEBUFFER_SIZE
    }

    /// The scanline counters are in range and the mode is the one that
    /// belongs to them.
    pub open spec fn in_step(self) -> bool {
        &&& self.line < LINES_PER_FRAME
        &&& self.mode_counter < DOTS_PER_LINE
        &&& self.mode == mode_at(self.line, self.mode_counter)
    }

    /// Dots elapsed since the start of the frame.
    pub open spec fn position(self) -> int {
        self.line * DOTS_PER_LINE + self.mode_counter
    }

    pub open spec fn lcd_on(self) -> bool {
        self.lcdc & 0x80 == 0x80
    }

    pub open spec fn sprites_on(self) -> bool {
        bit_set(self.lcdc, 1)
    }

    /// Whether entering `mode` raises the status interrupt.
    pub open spec fn mode_interrupt_enabled(self, mode: GpuMode) -> bool {
        match mode {
            GpuMode::HBlank => self.stat & HBLANK_INTERRUPT_ENABLED == HBLANK_INTERRUPT_ENABLED,
            GpuMode::VBlank => self.stat & VBLANK_INTERRUPT_ENABLED == VBLANK_INTERRUPT_ENABLED,
            GpuMode::OAMSearch => self.stat & OAM_INTERRUPT_ENABLED == OAM_INTERRUPT_ENABLED,
            GpuMode::PixelTransfer => false,
        }
    }

    pub open spec fn lyc_interrupt_enabled(self) -> bool {
        self.stat & LYC_INTERRUPT_ENABLED == LYC_INTERRUPT_ENABLED
    }

    /// The status register as it is read: the enable bits, the
    /// coincidence flag and the current mode.
    pub open spec fn read_stat(self) -> u8 {
        self.stat | (if self.line == self.lyc { COINCIDENCE_FLAG } else { 0 }) | self.mode.spec_bits()
    }

    /// The byte of the tile map that covers background point (`x`, `y`).
    pub open spec fn tile_index(self, x: u8, y: u8) -> u8 {
        self.vram[(if bit_set(self.lcdc, 3) { 0x1C00int } else { 0x1800 }) + (y / 8) * 32 + x / 8]
    }

    /// Where in video RAM the data of tile `index` starts: an unsigned
    /// index into the first block, or a signed one around the middle of
    /// the second.
    pub open spec fn tile_data(self, index: u8) -> int {
        if bit_set(self.lcdc, 4) {
            index * 16
        } else {
            0x0800 + ((index + 128) % 256) * 16
        }
    }

    /// The colour index (0 to 3) of background point (`x`, `y`): one bit
    /// from each of the two bytes of the tile's row, bit 7 leftmost.
    pub open spec fn color_id(self, x: u8, y: u8) -> u8 {
        let row = self.tile_data(self.tile_index(x, y)) + (y % 8) * 2;
        let bit = (7 - x % 8) as usize;
        (2 * bit_value(self.vram[row + 1], bit) + bit_value(self.vram[row], bit)) as u8
    }

    /// The colour shown at column `column` of scanline `line`: the
    /// background scrolled by SCX and SCY, wrapping at 256, through the
    /// background palette.
    pub open spec fn pixel(self, column: int, line: u8) -> Color {
        let x = ((column + self.scx) % 256) as u8;
        let y = ((line + self.scy) % 256) as u8;
        spec_shade_color(palette_shade(self.bgp, self.color_id(x, y)))
    }

    /// The framebuffer with the row of scanline `line` filled up to, and
    /// not including, column `columns`.
    pub open spec fn framebuffer_with_row(self, line: u8, columns: int) -> Seq<u8> {
        Seq::new(
            FRAMEBUFFER_SIZE as nat,
            |i: int|
                if line * ROW_BYTES <= i < line * ROW_BYTES + columns * 4 {
                    channel(self.pixel((i - line * ROW_BYTES) / 4, line), i % 4)
                } else {
                    self.framebuffer[i]
                },
        )
    }

    /// The engine after the current scanline was rendered: its row of
    /// the framebuffer is redrawn if the display is on and the line is
    /// visible, and nothing else changes.
    pub open spec fn draw_scanline(self) -> GpuView {
        if self.lcd_on() && self.line < FRAMEBUFFER_HEIGTH {
            GpuView { framebuffer: self.framebuffer_with_row(self.line, FRAMEBUFFER_WIDTH as int), ..self }
        } else {
            self
        }
    }

    /// A scanline that equals the line-compare register requests the
    /// status interrupt if that is enabled.
    pub open spec fn check_lyc_interrupt(self) -> GpuView {
        if self.lyc == self.line && self.lyc_interrupt_enabled() {
            GpuView { stat_interrupt_req: true, ..self }
        } else {
            self
        }
    }

    /// The engine after it entered `mode`: vertical blanking requests
    /// its interrupt, and any mode whose enable bit is set requests the
    /// status interrupt.
    pub open spec fn change_mode(self, mode: GpuMode) -> GpuView {
        GpuView {
            mode,
            vblank_interrupt_req: self.vblank_interrupt_req || mode == GpuMode::VBlank,
            stat_interrupt_req: self.stat_interrupt_req || self.mode_interrupt_enabled(mode),
            ..self
        }
    }

    /// The engine after `dots` more dots, at most 80: a scanline that
    /// reaches 456 dots is rendered if visible and the next one begins
    /// (line 153 is followed by line 0); then the mode follows the
    /// counters.
    pub open spec fn tick(self, dots: u8) -> GpuView {
        let counter = self.mode_counter + dots;
        let moved = if counter >= DOTS_PER_LINE {
            let drawn = self.draw_scanline();
            GpuView {
                mode_counter: (counter - DOTS_PER_LINE) as u32,
                line: if self.line >= LINES_PER_FRAME - 1 { 0 } else { (self.line + 1) as u8 },
                ..drawn
            }.check_lyc_interrupt()
        } else {
            GpuView { mode_counter: counter as u32, ..self }
        };
        let target = mode_at(moved.line, moved.mode_counter);
        if target != moved.mode {
            moved.change_mode(target)
        } else {
            moved
        }
    }

    /// The engine after `dots` dots, taken in steps of at most 80. With
    /// the display off nothing moves.
    pub open spec fn update_scanlines(self, dots: u8) -> GpuView
        decreases dots,
    {
        if !self.lcd_on() || dots == 0 {
            self
        } else if dots >= STEP_DOTS {
            self.tick(STEP_DOTS).update_scanlines((dots - STEP_DOTS) as u8)
        } else {
            self.tick(dots)
        }
    }
}

/// Storing the next pixel of a row extends the part of the row that is
/// drawn by one column, and the pixel is that of the engine as it was
/// before the row was begun.
proof fn lemma_row_grows(before: GpuView, now: GpuView, line: u8, column: int)
    requires
        before.wf(),
        line < FRAMEBUFFER_HEIGTH,
        0 <= column < FRAMEBUFFER_WIDTH,
        now == (GpuView { framebuffer: before.framebuffer_with_row(line, column), ..before }),
    ensures
        now.pixel(column, line) == before.pixel(column, line),
        ({
            let color = before.pixel(column, line);
            let index = line * ROW_BYTES + column * 4;
            now.framebuffer.update(index, color.r).update(index + 1, color.g).update(index + 2, color.b).update(
                index + 3,
                color.a,
            ) == before.framebuffer_with_row(line, column + 1)
        }),
{
    let color = before.pixel(column, line);
    let index = line * ROW_BYTES + column * 4;
    let stored = now.framebuffer.update(index, color.r).update(index + 1, color.g).update(index + 2, color.b).update(
        index + 3,
        color.a,
    );
    let next = before.framebuffer_with_row(line, column + 1);
    assert forall|i: int| 0 <= i < FRAMEBUFFER_SIZE implies #[trigger] stored[i] == next[i] by {
        if index <= i < index + 4 {
            assert((i - line * ROW_BYTES) / 4 == column);
            assert(i % 4 == i - index);
        }
    }
    assert(stored =~= next);
}

impl View for GPU {
    type V = GpuView;

    open(crate) spec fn view(&self) -> GpuView {
        GpuView {
            vram: self.vram@,
            oam: self.oam@,
            framebuffer: self.framebuffer@,
            mode_counter: self.mode_counter,
            line: self.line,
            mode: self.mode,
            vblank_interrupt_req: self.vblank_interrupt_req,
            stat_interrupt_req: self.stat_interrupt_req,
            scy: self.scy,
            scx: self.scx,
            stat: self.stat,
            lcdc: self.lcdc,
            lyc: self.lyc,
            bgp: self.bgp,
            obp0: self.obp0,
            obp1: self.obp1,
            wy: self.wy,
            wx: self.wx,
        }
    }
}

impl GPU {
    /// The memories of an engine have their fixed sizes.
    pub proof fn lemma_wf(&self)
        ensures
            self@.wf(),
    {
    }

    pub fn new() -> (r: GPU)
        ensures
            r@ == GpuView::power_on(),
    {
        let gpu =
        GPU {
            vram: [0; VRAM_SIZE],
            oam: [0; OAM_SIZE],
            framebuffer: [0; FRAMEBUFFER_SIZE],
            mode_counter: 0,
            line: 0,
            mode: GpuMode::OAMSearch,
            vblank_interrupt_req: false,
            stat_interrupt_req: false,
            lcdc: 0,
            stat: 0,
            scy: 0,
            scx: 0,
            lyc: 0,
            bgp: 0,
            obp0: 0,
            obp1: 0,
            wx: 0,
            wy: 0,
        };
        assert(gpu@.vram =~= GpuView::power_on().vram);
        assert(gpu@.oam =~= GpuView::power_on().oam);
        assert(gpu@.framebuffer =~= GpuView::power_on().framebuffer);
        gpu
    }

    pub fn write_byte_vram(&mut self, address: usize, value: u8)
        requires
            address < VRAM_SIZE,
        ensures
            final(self)@ == (GpuView { vram: old(self)@.vram.update(address as int, value), ..old(self)@ }),
    {
        self.vram[address] = value;
    }

    pub fn write_byte_oam(&mut self, address: usize, value: u8)
        requires
            address < OAM_SIZE,
        ensures
            final(self)@ == (GpuView { oam: old(self)@.oam.update(address as int, value), ..old(self)@ }),
    {
        self.oam[address] = value;
    }

    pub fn read_byte_vram(&self, address: usize) -> (r: u8)
        requires
            address < VRAM_SIZE,
        ensures
            r == self@.vram[address as int],
    {
        self.vram[address]
    }

    pub fn read_byte_oam(&self, address: usize) -> (r: u8)
        requires
            address < OAM_SIZE,
        ensures
            r == self@.oam[address as int],
    {
        self.oam[address]
    }

    /// The display colour of colour index `color_id` under the palette
    /// `palette_num`.
    pub fn get_color(&self, color_id: u8, palette_num: u8) -> (r: Color)
        requires
            color_id < 4,
        ensures
            r == spec_shade_color(palette_shade(palette_num, color_id)),
    {
        let lo: usize = 2 * color_id as usize;
        let hi: usize = lo + 1;
        let high: u8 = if get_bit(palette_num, hi) { 2 } else { 0 };
        let low: u8 = if get_bit(palette_num, lo) { 1 } else { 0 };
        let shade: u8 = high + low;
        if shade == 0 {
            Color { r: 224, g: 248, b: 208, a: 255 }
        } else if shade == 1 {
            Color { r: 136, g: 192, b: 112, a: 255 }
        } else if shade == 2 {
            Color { r: 39, g: 80, b: 70, a: 255 }
        } else {
            Color { r: 8, g: 24, b: 32, a: 255 }
        }
    }

    /// The byte of the tile map that covers background point (`x`, `y`).
    pub fn tile_index(&self, x: u8, y: u8) -> (r: u8)
        ensures
            r == self@.tile_index(x, y),
    {
        let tilemap_vram_offset: usize = if get_bit(self.lcdc, 3) { 0x1C00 } else { 0x1800 };
        let tile_row: usize = (y as usize / 8) * 32;
        let tile_column: usize = x as usize / 8;
        self.vram[tilemap_vram_offset + tile_row + tile_column]
    }

    /// Where in video RAM the data of tile `index` starts.
    pub fn tile_data(&self, index: u8) -> (r: usize)
        ensures
            r == self@.tile_data(index),
            r + 16 <= VRAM_SIZE,
    {
        if get_bit(self.lcdc, 4) {
            index as usize * 16
        } else {
            let around: u8 = index.wrapping_add(128);
            0x0800 + around as usize * 16
        }
    }

    /// The colour index of background point (`x`, `y`).
    pub fn color_id(&self, x: u8, y: u8) -> (r: u8)
        ensures
            r == self@.color_id(x, y),
            r < 4,
    {
        let tile_num: u8 = self.tile_index(x, y);
        let row: usize = self.tile_data(tile_num) + (y % 8) as usize * 2;
        let data1: u8 = self.vram[row];
        let data2: u8 = self.vram[row + 1];
        let color_bit: usize = 7 - (x % 8) as usize;
        let high: u8 = if get_bit(data2, color_bit) { 2 } else { 0 };
        let low: u8 = if get_bit(data1, color_bit) { 1 } else { 0 };
        high + low
    }

    /// The colour of the background at column `column` of scanline
    /// `line`.
    pub fn background_pixel(&self, column: usize, line: u8) -> (r: Color)
        requires
            column < FRAMEBUFFER_WIDTH,
        ensures
            r == self@.pixel(column as int, line),
    {
        let line_y: u8 = line.wrapping_add(self.scy);
        let line_x: u8 = (column as u8).wrapping_add(self.scx);
        let id: u8 = self.color_id(line_x, line_y);
        self.get_color(id, self.bgp)
    }

    /// Stores `color` as the four bytes of the framebuffer from `index`.
    fn put_pixel(&mut self, index: usize, color: Color)
        requires
            index + 3 < FRAMEBUFFER_SIZE,
        ensures
            final(self)@ == (GpuView {
                framebuffer: old(self)@.framebuffer.update(index as int, color.r).update(index + 1, color.g).update(
                    index + 2,
                    color.b,
                ).update(index + 3, color.a),
                ..old(self)@
            }),
    {
        self.framebuffer[index] = color.r;
        self.framebuffer[index + 1] = color.g;
        self.framebuffer[index + 2] = color.b;
        self.framebuffer[index + 3] = color.a;
    }

    /// Renders the background of the current scanline into its row of
    /// the framebuffer.
    pub fn draw_scanline(&mut self)
        ensures
            final(self)@ == old(self)@.draw_scanline(),
    {
        if self.lcd_on() && (self.line as usize) < FRAMEBUFFER_HEIGTH {
            let ghost before = self@;
            let line: u8 = self.line;
            let line_offset: usize = line as usize * ROW_BYTES;
            let mut pixel: usize = 0;
            assert(self@.framebuffer == before.framebuffer_with_row(line, 0));
            while pixel < FRAMEBUFFER_WIDTH
                invariant
                    pixel <= FRAMEBUFFER_WIDTH,
                    line < FRAMEBUFFER_HEIGTH,
                    line_offset == line * ROW_BYTES,
                    before.wf(),
                    self@ == (GpuView { framebuffer: before.framebuffer_with_row(line, pixel as int), ..before }),
                decreases FRAMEBUFFER_WIDTH - pixel,
            {
                let color: Color = self.background_pixel(pixel, line);
                proof {
                    lemma_row_grows(before, self@, line, pixel as int);
                }
                self.put_pixel(line_offset + pixel * 4, color);
                pixel = pixel + 1;
            }
        }
    }

    /// Accounts for `cycles` dots of elapsed time.
    pub fn update_scanlines(&mut self, cycles: u8)
        ensures
            final(self)@ == old(self)@.update_scanlines(cycles),
    {
        if !self.lcd_on() {
            return ;
        }
        let mut dots_left: u8 = cycles;
        while dots_left > 0
            invariant
                self@.lcd_on(),
                self@.update_scanlines(dots_left) == old(self)@.update_scanlines(cycles),
            decreases dots_left,
        {
            let iteration_dots: u8 = if dots_left >= STEP_DOTS { STEP_DOTS } else { dots_left };
            let ghost here = self@;
            self.tick(iteration_dots);
            dots_left = dots_left - iteration_dots;
            assert(here.update_scanlines((dots_left + iteration_dots) as u8) == self@.update_scanlines(dots_left));
        }
    }

    /// Accounts for at most 80 dots.
    pub(crate) fn tick(&mut self, dots: u8)
        requires
            dots <= STEP_DOTS,
        ensures
            final(self)@ == old(self)@.tick(dots),
            final(self)@.lcdc == old(self)@.lcdc,
    {
        let counter: u64 = self.mode_counter as u64 + dots as u64;
        if counter >= DOTS_PER_LINE as u64 {
            self.draw_scanline();
            self.mode_counter = (counter - DOTS_PER_LINE as u64) as u32;
            self.line = if self.line >= LINES_PER_FRAME - 1 { 0 } else { self.line + 1 };
            self.check_lyc_interrupt();
        } else {
            self.mode_counter = counter as u32;
        }
        let target: GpuMode = GPU::mode_for(self.line, self.mode_counter);
        if target != self.mode {
            self.change_mode(target);
        }
    }

    /// The mode that belongs to `counter` dots into scanline `line`.
    pub fn mode_for(line: u8, counter: u32) -> (r: GpuMode)
        ensures
            r == mode_at(line, counter),
    {
        if line as usize >= FRAMEBUFFER_HEIGTH {
            GpuMode::VBlank
        } else if counter < 80 {
            GpuMode::OAMSearch
        } else if counter < 252 {
            GpuMode::PixelTransfer
        } else {
            GpuMode::HBlank
        }
    }

    pub fn lcd_on(&self) -> (r: bool)
        ensures
            r == self@.lcd_on(),
    {
        self.lcdc & 0x80 == 0x80
    }

    pub fn sprites_on(&self) -> (r: bool)
        ensures
            r == self@.sprites_on(),
    {
        get_bit(self.lcdc, 1)
    }

    pub fn mode_interrupt_enabled(&self, mode: GpuMode) -> (r: bool)
        ensures
            r == self@.mode_interrupt_enabled(mode),
    {
        match mode {
            GpuMode::HBlank => self.stat & HBLANK_INTERRUPT_ENABLED == HBLANK_INTERRUPT_ENABLED,
            GpuMode::VBlank => self.stat & VBLANK_INTERRUPT_ENABLED == VBLANK_INTERRUPT_ENABLED,
            GpuMode::OAMSearch => self.stat & OAM_INTERRUPT_ENABLED == OAM_INTERRUPT_ENABLED,
            GpuMode::PixelTransfer => false,
        }
    }

    pub fn lyc_interrupt_enabled(&self) -> (r: bool)
        ensures
            r == self@.lyc_interrupt_enabled(),
    {
        self.stat & LYC_INTERRUPT_ENABLED == LYC_INTERRUPT_ENABLED
    }

    pub fn check_lyc_interrupt(&mut self)
        ensures
            final(self)@ == old(self)@.check_lyc_interrupt(),
    {
        if self.lyc == self.line && self.lyc_interrupt_enabled() {
            self.stat_interrupt_req = true;
        }
    }

    pub(crate) fn change_mode(&mut self, new_mode: GpuMode)
        ensures
            final(self)@ == old(self)@.change_mode(new_mode),
    {
        self.mode = new_mode;
        if new_mode == GpuMode::VBlank {
            self.vblank_interrupt_req = true;
        }
        if self.mode_interrupt_enabled(new_mode) {
            self.stat_interrupt_req = true;
        }
    }

    pub fn lcdc(&self) -> (r: u8)
        ensures
            r == self@.lcdc,
    {
        self.lcdc
    }

    pub fn set_lcdc(&mut self, value: u8)
        ensures
            final(self)@ == (GpuView { lcdc: value, ..old(self)@ }),
    {
        self.lcdc = value;
    }

    /// Writes the status register: only its four enable bits are kept.
    pub fn set_stat(&mut self, value: u8)
        ensures
            final(self)@ == (GpuView { stat: value & STAT_WRITABLE, ..old(self)@ }),
    {
        self.stat = value & STAT_WRITABLE;
    }

    /// Reads the status register.
    pub fn stat(&self) -> (r: u8)
        ensures
            r == self@.read_stat(),
    {
        let coincidence: u8 = if self.line == self.lyc { COINCIDENCE_FLAG } else { 0 };
        self.stat | coincidence | self.mode.bits()
    }

    pub fn set_scy(&mut self, value: u8)
        ensures
            final(self)@ == (GpuView { scy: value, ..old(self)@ }),
    {
        self.scy = value;
    }

    pub fn set_scx(&mut self, value: u8)
        ensures
            final(self)@ == (GpuView { scx: value, ..old(self)@ }),
    {
        self.scx = value;
    }

    pub fn ly(&self) -> (r: u8)
        ensures
            r == self@.line,
    {
        self.line
    }

    pub fn set_lyc(&mut self, value: u8)
        ensures
            final(self)@ == (GpuView { lyc: value, ..old(self)@ }),
    {
        self.lyc = value;
    }

    pub fn bgp(&self) -> (r: u8)
        ensures
            r == self@.bgp,
    {
        self.bgp
    }

    pub fn set_bgp(&mut self, value: u8)
        ensures
            final(self)@ == (GpuView { bgp: value, ..old(self)@ }),
    {
        self.bgp = value;
    }

    pub fn obp0(&self) -> (r: u8)
        ensures
            r == self@.obp0,
    {
        self.obp0
    }

    pub fn set_obp0(&mut self, value: u8)
        ensures
            final(self)@ == (GpuView { obp0: value, ..old(self)@ }),
    {
        self.obp0 = value;
    }

    pub fn obp1(&self) -> (r: u8)
        ensures
            r == self@.obp1,
    {
        self.obp1
    }

    pub fn set_obp1(&mut self, value: u8)
        ensures
            final(self)@ == (GpuView { obp1: value, ..old(self)@ }),
    {
        self.obp1 = value;
    }

    pub fn wy(&self) -> (r: u8)
        ensures
            r == self@.wy,
    {
        self.wy
    }

    pub fn set_wy(&mut self, value: u8)
        ensures
            final(self)@ == (GpuView { wy: value, ..old(self)@ }),
    {
        self.wy = value;
    }

    pub fn wx(&self) -> (r: u8)
        ensures
            r == self@.wx,
    {
        self.wx
    }

    pub fn set_wx(&mut self, value: u8)
        ensures
            final(self)@ == (GpuView { wx: value, ..old(self)@ }),
    {
        self.wx = value;
    }
}

/// The sum of the dot counts in `groups`.
pub open spec fn total_dots(groups: Seq<u8>) -> nat
    decreases groups.len(),
{
    if groups.len() == 0 {
        0
    } else {
        total_dots(groups.drop_last()) + groups.last() as nat
    }
}

impl GpuView {
    /// The engine after the dot counts in `groups` were accounted for,
    /// one after the other.
    pub open spec fn feed(self, groups: Seq<u8>) -> GpuView
        decreases groups.len(),
    {
        if groups.len() == 0 {
            self
        } else {
            self.feed(groups.drop_last()).update_scanlines(groups.last())
        }
    }
}

/// One step moves the engine on by its dots, modulo the 70224 dots of a
/// frame, keeps the mode in step with the counters, and leaves the
/// registers, video RAM and OAM alone.
pub proof fn lemma_tick_position(g: GpuView, dots: u8)
    requires
        g.in_step(),
        dots <= STEP_DOTS,
    ensures
        g.tick(dots).in_step(),
        g.tick(dots).position() == (g.position() + dots) % (DOTS_PER_FRAME as int),
        g.tick(dots).lcdc == g.lcdc,
        g.tick(dots).vram == g.vram && g.tick(dots).oam == g.oam,
        g.wf() ==> g.tick(dots).wf(),
{
}

/// Any number of dots moves the engine on by that number, modulo the
/// dots of a frame, while the display is on.
pub proof fn lemma_update_position(g: GpuView, dots: u8)
    requires
        g.in_step(),
        g.lcd_on(),
    ensures
        g.update_scanlines(dots).in_step(),
        g.update_scanlines(dots).lcd_on(),
        g.update_scanlines(dots).position() == (g.position() + dots) % (DOTS_PER_FRAME as int),
        g.wf() ==> g.update_scanlines(dots).wf(),
    decreases dots,
{
    let frame = DOTS_PER_FRAME as int;
    if dots == 0 {
        lemma_small_mod(g.position() as nat, frame as nat);
    } else if dots >= STEP_DOTS {
        let rest = (dots - STEP_DOTS) as u8;
        lemma_tick_position(g, STEP_DOTS);
        lemma_update_position(g.tick(STEP_DOTS), rest);
        lemma_add_mod_noop(g.position() + STEP_DOTS, rest as int, frame);
        lemma_small_mod(rest as nat, frame as nat);
    } else {
        lemma_tick_position(g, dots);
    }
}

/// With the display off nothing moves.
pub proof fn lemma_display_off(g: GpuView, dots: u8)
    requires
        !g.lcd_on(),
    ensures
        g.update_scanlines(dots) == g,
{
}

/// Dots fed in any grouping move the engine on by their sum, modulo the
/// dots of a frame.
pub proof fn lemma_feed_position(g: GpuView, groups: Seq<u8>)
    requires
        g.in_step(),
        g.lcd_on(),
    ensures
        g.feed(groups).in_step(),
        g.feed(groups).lcd_on(),
        g.feed(groups).position() == (g.position() + total_dots(groups)) % (DOTS_PER_FRAME as int),
    decreases groups.len(),
{
    let frame = DOTS_PER_FRAME as int;
    if groups.len() == 0 {
        lemma_small_mod(g.position() as nat, frame as nat);
    } else {
        let earlier = groups.drop_last();
        lemma_feed_position(g, earlier);
        lemma_update_position(g.feed(earlier), groups.last());
        lemma_add_mod_noop(g.position() + total_dots(earlier), groups.last() as int, frame);
        lemma_small_mod(groups.last() as nat, frame as nat);
    }
}

/// With the display off, dots fed in any grouping move nothing.
pub proof fn lemma_feed_display_off(g: GpuView, groups: Seq<u8>)
    requires
        !g.lcd_on(),
    ensures
        g.feed(groups) == g,
    decreases groups.len(),
{
    if groups.len() > 0 {
        lemma_feed_display_off(g, groups.drop_last());
    }
}

/// After exactly the 456 x 154 dots of a frame, fed in any grouping, the
/// engine is at the scanline, the dot and the mode at which it started:
/// from the start of scanline 0 it is back at scanline 0 in OAM search.
pub proof fn lemma_frame_period(g: GpuView, groups: Seq<u8>)
    requires
        g.in_step(),
        total_dots(groups) == DOTS_PER_FRAME,
    ensures
        g.feed(groups).line == g.line,
        g.feed(groups).mode_counter == g.mode_counter,
        g.feed(groups).mode == g.mode,
        g.line == 0 && g.mode_counter == 0 ==> g.feed(groups).line == 0 && g.feed(groups).mode == GpuMode::OAMSearch,
{
    if !g.lcd_on() {
        lemma_feed_display_off(g, groups);
    } else {
        let frame = DOTS_PER_FRAME as int;
        lemma_feed_position(g, groups);
        lemma_add_mod_noop(g.position(), frame, frame);
        lemma_mod_self_0(frame);
        lemma_small_mod(g.position() as nat, frame as nat);
        let after = g.feed(groups);
        assert(after.position() == g.position());
        assert(after.line == g.line) by (nonlinear_arith)
            requires
                after.line * 456 + after.mode_counter == g.line * 456 + g.mode_counter,
                after.mode_counter < 456,
                g.mode_counter < 456,
        ;
    }
}

/// A row of the framebuffer changes only when its own scanline is
/// completed: a step that does not complete the scanline leaves the
/// framebuffer alone, and one that does leaves every other row alone.
pub proof fn lemma_row_drawn_once(g: GpuView, dots: u8, i: int)
    requires
        g.wf(),
        dots <= STEP_DOTS,
        0 <= i < FRAMEBUFFER_SIZE,
    ensures
        g.mode_counter + dots < DOTS_PER_LINE ==> g.tick(dots).framebuffer == g.framebuffer,
        !(g.line * ROW_BYTES <= i < (g.line + 1) * ROW_BYTES) ==> g.tick(dots).framebuffer[i] == g.framebuffer[i],
        g.line >= FRAMEBUFFER_HEIGTH || !g.lcd_on() ==> g.tick(dots).framebuffer == g.framebuffer,
{
}

/// What a read of the status register is made of: the mode in bits 0
/// and 1, the coincidence flag in bit 2, the enable bits that were
/// written in bits 3 to 6, and bit 7 clear.
pub proof fn lemma_stat_composition(written: u8, coincidence: bool, mode: u8)
    by (bit_vector)
    requires
        mode < 4,
    ensures
        ({
            let read = (written & 0b0111_1000u8) | (if coincidence { 0b0000_0100u8 } else { 0u8 }) | mode;
            &&& read & 0b0000_0011 == mode
            &&& (read & 0b0000_0100 == 0b0000_0100) == coincidence
            &&& read & 0b0111_1000 == written & 0b0111_1000
            &&& read & 0b1000_0000 == 0
        }),
{
}

} // verus!
