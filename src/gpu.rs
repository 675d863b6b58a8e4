use vstd::prelude::*;
use crate::memory::{Memory, MemoryView};

verus! {

pub const SCREEN_WIDTH: usize = 160;
pub const SCREEN_HEIGHT: usize = 144;
pub const SCREEN_PIXELS: usize = 23040;
/// Dots in one frame (154 lines of 456 dots).
pub const FRAME_DOTS: u32 = 70224;

/// The four DMG shades.
#[derive(Clone, Copy, Debug, PartialEq, Eq, Structural)]
pub enum Color {
    White,
    LightGray,
    DarkGray,
    Black,
}

/// The 32-bit colour of a two-bit shade index.
pub open spec fn shade(id: u8) -> u32 {
    if id == 1 {
        0xAAAAAA
    } else if id == 2 {
        0x555555
    } else if id == 3 {
        0x000000
    } else {
        0xFFFFFF
    }
}

impl Color {
    pub open spec fn spec_to_u32(self) -> u32 {
        match self {
            Color::White => 0xFFFFFF,
            Color::LightGray => 0xAAAAAA,
            Color::DarkGray => 0x555555,
            Color::Black => 0x000000,
        }
    }

    /// Shade index 0..=3 to colour; other values are white.
    pub fn from_id(id: u8) -> (r: Self)
        ensures
            r.spec_to_u32() == shade(id),
    {
        match id {
            0 => Color::White,
            1 => Color::LightGray,
            2 => Color::DarkGray,
            3 => Color::Black,
            _ => Color::White,
        }
    }

    pub fn to_u32(self) -> (r: u32)
        ensures
            r == self.spec_to_u32(),
    {
        match self {
            Color::White => 0xFFFFFF,
            Color::LightGray => 0xAAAAAA,
            Color::DarkGray => 0x555555,
            Color::Black => 0x000000,
        }
    }
}

/// Two-bit colour index of pixel `bit` (7 = leftmost) of a tile row held in
/// the bytes `low` and `high`.
pub open spec fn color_id(low: u8, high: u8, bit: u8) -> u8
    recommends
        bit < 8,
{
    (((high >> bit) & 1) << 1u8) | ((low >> bit) & 1)
}

/// Background colour index at screen pixel (`x`, `y`).
pub open spec fn bg_color_id(m: MemoryView, lcdc: u8, x: int, y: int) -> u8 {
    let scy = m.read(0xFF42);
    let scx = m.read(0xFF43);
    let map_y = (y + scy) % 256;
    let map_x = (x + scx) % 256;
    let map_base = if lcdc & 0x08 != 0 { 0x9C00int } else { 0x9800int };
    let tile = m.read((map_base + (map_y / 8) * 32 + map_x / 8) as u16);
    let tile_addr = if lcdc & 0x10 != 0 {
        0x8000 + tile * 16
    } else {
        0x9000 + (if tile >= 128 { tile - 256 } else { tile as int }) * 16
    };
    let row = tile_addr + (map_y % 8) * 2;
    color_id(m.read(row as u16), m.read((row + 1) as u16), (7 - map_x % 8) as u8)
}

/// Colour index that OAM entry `i` gives screen pixel (`x`, `y`); 0 where the
/// sprite does not cover it.
pub open spec fn sprite_color_id(m: MemoryView, lcdc: u8, i: int, x: int, y: int) -> u8 {
    let entry = 0xFE00 + i * 4;
    let y_pos = (m.read(entry as u16) + 240) % 256;
    let x_pos = (m.read((entry + 1) as u16) + 248) % 256;
    let tile = m.read((entry + 2) as u16);
    let attr = m.read((entry + 3) as u16);
    let height = if lcdc & 0x04 != 0 { 16int } else { 8int };
    let ty = (y - y_pos) % 256;
    let tx = (x - x_pos) % 256;
    if (144 <= y_pos && y_pos < 240) || ty >= height || tx >= 8 {
        0
    } else {
        let line = if attr & 0x40 != 0 { height - 1 - ty } else { ty };
        let addr = 0x8000 + tile * 16 + line * 2;
        let bit = if attr & 0x20 != 0 { tx } else { 7 - tx };
        color_id(m.read(addr as u16), m.read((addr + 1) as u16), bit as u8)
    }
}

/// Pixel colour after drawing OAM entries 0..n over `base`; later entries win,
/// colour index 0 is transparent.
pub open spec fn sprite_layer(m: MemoryView, lcdc: u8, n: nat, x: int, y: int, base: u32) -> u32
    decreases n,
{
    if n == 0 {
        base
    } else {
        let id = sprite_color_id(m, lcdc, n - 1, x, y);
        if id != 0 {
            shade(id)
        } else {
            sprite_layer(m, lcdc, (n - 1) as nat, x, y, base)
        }
    }
}

/// Pixel (`x`, `y`) of a row-major 160-pixel-wide framebuffer.
pub open spec fn pixel_at(fb: Seq<u32>, x: int, y: int) -> u32 {
    fb[y * 160 + x]
}

/// Colour of screen pixel (`x`, `y`) in a frame drawn from `m` with the LCD on
/// and the background enabled.
pub open spec fn frame_pixel(m: MemoryView, lcdc: u8, x: int, y: int) -> u32 {
    let bg = shade(bg_color_id(m, lcdc, x, y));
    if lcdc & 0x02 != 0 {
        sprite_layer(m, lcdc, 40, x, y, bg)
    } else {
        bg
    }
}

/// The framebuffer after rendering a frame from `m` over `old`: unchanged with
/// the LCD off, white with the background off, else background then sprites.
pub open spec fn rendered(m: MemoryView, old: Seq<u32>, x: int, y: int) -> u32 {
    let lcdc = m.read(0xFF40);
    if lcdc & 0x80 == 0 {
        pixel_at(old, x, y)
    } else if lcdc & 0x01 == 0 {
        0xFFFFFF
    } else {
        frame_pixel(m, lcdc, x, y)
    }
}

proof fn lemma_pixel_index(x1: int, y1: int, x2: int, y2: int)
    requires
        0 <= x1 < 160,
        0 <= y1 < 144,
        0 <= x2 < 160,
        0 <= y2 < 144,
    ensures
        0 <= y1 * 160 + x1 < 23040,
        (y1 * 160 + x1 == y2 * 160 + x2) ==> (x1 == x2 && y1 == y2),
        y1 < y2 ==> y1 * 160 + x1 < y2 * 160 + x2,
{
    assert(0 <= y1 * 160 + x1 < 23040) by (nonlinear_arith)
        requires
            0 <= x1 < 160,
            0 <= y1 < 144,
    ;
    assert(y1 < y2 ==> y1 * 160 + x1 < y2 * 160 + x2) by (nonlinear_arith)
        requires
            0 <= x1 < 160,
            0 <= x2 < 160,
    ;
    assert(y2 < y1 ==> y2 * 160 + x2 < y1 * 160 + x1) by (nonlinear_arith)
        requires
            0 <= x1 < 160,
            0 <= x2 < 160,
    ;
}

/// A minimal picture unit: renders a whole frame at each frame boundary.
pub struct GPU {
    pub framebuffer: Vec<u32>,
    pub cycles: u32,
}

impl GPU {
    pub open spec fn wf(&self) -> bool {
        self.framebuffer@.len() == SCREEN_PIXELS && self.cycles < FRAME_DOTS
    }

    pub fn new() -> (r: Self)
        ensures
            r.wf(),
            r.cycles == 0,
            r.framebuffer@ == Seq::new(SCREEN_PIXELS as nat, |i: int| 0xFFFFFFu32),
    {
        let r = Self { framebuffer: vec![Color::White.to_u32(); SCREEN_PIXELS], cycles: 0 };
        assert(r.framebuffer@ =~= Seq::new(SCREEN_PIXELS as nat, |i: int| 0xFFFFFFu32));
        r
    }

    /// Advances the dot counter; on reaching a frame's worth of dots it renders
    /// the frame, restarts the counter and requests VBlank (IF bit 0).
    pub fn step(&mut self, cycles: u8, memory: &mut Memory)
        requires
            old(self).wf(),
            old(memory)@.wf(),
        ensures
            final(self).wf(),
            final(memory)@.wf(),
            old(self).cycles + cycles < FRAME_DOTS ==> final(self).cycles == old(self).cycles
                + cycles && final(self).framebuffer@ == old(self).framebuffer@ && final(memory)@
                == old(memory)@,
            old(self).cycles + cycles >= FRAME_DOTS ==> {
                &&& final(self).cycles == 0
                &&& forall|x: int, y: int|
                    0 <= x < 160 && 0 <= y < 144 ==> pixel_at(final(self).framebuffer@, x, y)
                        == rendered(old(memory)@, old(self).framebuffer@, x, y)
                &&& final(memory)@ == old(memory)@.write(0xFF0F, old(memory)@.read(0xFF0F) | 0x01)
            },
    {
        self.cycles = self.cycles + cycles as u32;
        if self.cycles >= FRAME_DOTS {
            self.cycles = 0;
            self.render_screen(memory);
            let if_reg = memory.read(0xFF0F);
            memory.write(0xFF0F, if_reg | 0x01);
        }
    }

    fn bg_color_at(memory: &Memory, lcdc: u8, x: usize, y: usize) -> (r: u8)
        requires
            memory@.wf(),
            x < 160,
            y < 144,
        ensures
            r == bg_color_id(memory@, lcdc, x as int, y as int),
    {
        let scy = memory.read(0xFF42);
        let scx = memory.read(0xFF43);
        let map_y = ((y + scy as usize) % 256) as u16;
        let map_x = ((x + scx as usize) % 256) as u16;
        let map_base: u16 = if lcdc & 0x08 != 0 { 0x9C00 } else { 0x9800 };
        let tile = memory.read(map_base + (map_y / 8) * 32 + map_x / 8) as u16;
        let tile_addr: u16 = if lcdc & 0x10 != 0 {
            0x8000 + tile * 16
        } else if tile >= 128 {
            0x9000 - (256 - tile) * 16
        } else {
            0x9000 + tile * 16
        };
        let row = tile_addr + (map_y % 8) * 2;
        let low = memory.read(row);
        let high = memory.read(row + 1);
        let bit = (7 - map_x % 8) as u8;
        (((high >> bit) & 1) << 1u8) | ((low >> bit) & 1)
    }

    fn render_background(&mut self, memory: &Memory, lcdc: u8)
        requires
            old(self).wf(),
            memory@.wf(),
        ensures
            final(self).wf(),
            final(self).cycles == old(self).cycles,
            forall|x: int, y: int|
                0 <= x < 160 && 0 <= y < 144 ==> pixel_at(final(self).framebuffer@, x, y) == shade(
                    bg_color_id(memory@, lcdc, x, y),
                ),
    {
        let mut y: usize = 0;
        while y < SCREEN_HEIGHT
            invariant
                self.wf(),
                self.cycles == old(self).cycles,
                memory@.wf(),
                y <= SCREEN_HEIGHT,
                forall|xx: int, yy: int|
                    0 <= xx < 160 && 0 <= yy < y ==> pixel_at(self.framebuffer@, xx, yy) == shade(
                        bg_color_id(memory@, lcdc, xx, yy),
                    ),
            decreases SCREEN_HEIGHT - y,
        {
            let mut x: usize = 0;
            while x < SCREEN_WIDTH
                invariant
                    self.wf(),
                    self.cycles == old(self).cycles,
                    memory@.wf(),
                    y < SCREEN_HEIGHT,
                    x <= SCREEN_WIDTH,
                    forall|xx: int, yy: int|
                        0 <= xx < 160 && 0 <= yy < y ==> pixel_at(self.framebuffer@, xx, yy)
                            == shade(bg_color_id(memory@, lcdc, xx, yy)),
                    forall|xx: int|
                        0 <= xx < x ==> pixel_at(self.framebuffer@, xx, y as int) == shade(
                            bg_color_id(memory@, lcdc, xx, y as int),
                        ),
                decreases SCREEN_WIDTH - x,
            {
                let id = Self::bg_color_at(memory, lcdc, x, y);
                let color = Color::from_id(id).to_u32();
                proof {
                    lemma_pixel_index(x as int, y as int, 0, 0);
                }
                let ghost prev = self.framebuffer@;
                self.framebuffer.set(y * SCREEN_WIDTH + x, color);
                assert forall|xx: int, yy: int|
                    0 <= xx < 160 && 0 <= yy < 144 && (xx != x || yy != y) implies #[trigger] pixel_at(
                    self.framebuffer@,
                    xx,
                    yy,
                ) == pixel_at(prev, xx, yy) by {
                    lemma_pixel_index(xx, yy, x as int, y as int);
                }
                x = x + 1;
            }
            y = y + 1;
        }
    }

    fn render_screen(&mut self, memory: &Memory)
        requires
            old(self).wf(),
            memory@.wf(),
        ensures
            final(self).wf(),
            final(self).cycles == old(self).cycles,
            forall|x: int, y: int|
                0 <= x < 160 && 0 <= y < 144 ==> pixel_at(final(self).framebuffer@, x, y) == rendered(
                    memory@,
                    old(self).framebuffer@,
                    x,
                    y,
                ),
    {
        let lcdc = memory.read(0xFF40);
        if lcdc & 0x80 == 0 {
            // LCD off: the last frame stays on screen.
            return;
        }
        if lcdc & 0x01 == 0 {
            // Background off: a blank frame.
            let mut i: usize = 0;
            while i < SCREEN_PIXELS
                invariant
                    self.wf(),
                    self.cycles == old(self).cycles,
                    i <= SCREEN_PIXELS,
                    forall|k: int| 0 <= k < i ==> self.framebuffer@[k] == 0xFFFFFFu32,
                decreases SCREEN_PIXELS - i,
            {
                self.framebuffer.set(i, Color::White.to_u32());
                i = i + 1;
            }
            assert forall|x: int, y: int| 0 <= x < 160 && 0 <= y < 144 implies pixel_at(self.framebuffer@, x, y) == rendered(memory@, old(self).framebuffer@, x, y) by {
                lemma_pixel_index(x, y, 0, 0);
            }
            return;
        }
        self.render_background(memory, lcdc);
        if lcdc & 0x02 != 0 {
            self.render_sprites(memory, lcdc);
        }
    }

    /// Colour index that OAM entry `i` gives pixel (`x`, `y`), from a copy of OAM.
    #[verifier::rlimit(40)]
    fn sprite_color_at(memory: &Memory, oam: &Vec<u8>, lcdc: u8, i: usize, x: usize, y: usize) -> (r: u8)
        requires
            memory@.wf(),
            oam@.len() == 160,
            forall|k: int| 0 <= k < 160 ==> #[trigger] oam@[k] == memory@.read((0xFE00 + k) as u16),
            i < 40,
            x < 160,
            y < 144,
        ensures
            r == sprite_color_id(memory@, lcdc, i as int, x as int, y as int),
    {
        let entry = i * 4;
        assert(oam@[entry as int] == memory@.read((0xFE00 + entry) as u16));
        assert(oam@[entry + 1] == memory@.read((0xFE00 + entry + 1) as u16));
        assert(oam@[entry + 2] == memory@.read((0xFE00 + entry + 2) as u16));
        assert(oam@[entry + 3] == memory@.read((0xFE00 + entry + 3) as u16));
        let y_pos = (oam[entry] as u16 + 240) % 256;
        let x_pos = (oam[entry + 1] as u16 + 248) % 256;
        let tile = oam[entry + 2] as u16;
        let attr = oam[entry + 3];
        let height: u16 = if lcdc & 0x04 != 0 { 16 } else { 8 };
        let ty = (y as u16 + 256 - y_pos) % 256;
        let tx = (x as u16 + 256 - x_pos) % 256;
        if (144 <= y_pos && y_pos < 240) || ty >= height || tx >= 8 {
            return 0;
        }
        let line = if attr & 0x40 != 0 { height - 1 - ty } else { ty };
        let addr: u16 = 0x8000 + tile * 16 + line * 2;
        let bit = (if attr & 0x20 != 0 { tx } else { 7 - tx }) as u8;
        let low = memory.read(addr);
        let high = memory.read(addr + 1);
        (((high >> bit) & 1) << 1u8) | ((low >> bit) & 1)
    }

    /// Draws the 40 OAM entries in order over `base` at pixel (`x`, `y`).
    fn sprite_pixel(memory: &Memory, oam: &Vec<u8>, lcdc: u8, x: usize, y: usize, base: u32) -> (r: u32)
        requires
            memory@.wf(),
            oam@.len() == 160,
            forall|k: int| 0 <= k < 160 ==> #[trigger] oam@[k] == memory@.read((0xFE00 + k) as u16),
            x < 160,
            y < 144,
        ensures
            r == sprite_layer(memory@, lcdc, 40, x as int, y as int, base),
    {
        let mut acc = base;
        let mut i: usize = 0;
        while i < 40
            invariant
                memory@.wf(),
                oam@.len() == 160,
                forall|k: int| 0 <= k < 160 ==> #[trigger] oam@[k] == memory@.read((0xFE00 + k) as u16),
                x < 160,
                y < 144,
                i <= 40,
                acc == sprite_layer(memory@, lcdc, i as nat, x as int, y as int, base),
            decreases 40 - i,
        {
            let id = Self::sprite_color_at(memory, oam, lcdc, i, x, y);
            if id != 0 {
                acc = Color::from_id(id).to_u32();
            }
            i = i + 1;
        }
        acc
    }

    fn render_sprites(&mut self, memory: &Memory, lcdc: u8)
        requires
            old(self).wf(),
            memory@.wf(),
        ensures
            final(self).wf(),
            final(self).cycles == old(self).cycles,
            forall|x: int, y: int|
                0 <= x < 160 && 0 <= y < 144 ==> pixel_at(final(self).framebuffer@, x, y)
                    == sprite_layer(memory@, lcdc, 40, x, y, pixel_at(old(self).framebuffer@, x, y)),
    {
        // Copy OAM once; the tile data is read only where a sprite covers a pixel.
        let mut oam: Vec<u8> = Vec::new();
        let mut k: usize = 0;
        while k < 160
            invariant
                memory@.wf(),
                k <= 160,
                oam@.len() == k,
                forall|j: int| 0 <= j < k ==> #[trigger] oam@[j] == memory@.read((0xFE00 + j) as u16),
            decreases 160 - k,
        {
            oam.push(memory.read(0xFE00 + k as u16));
            k = k + 1;
        }
        let ghost before = self.framebuffer@;
        let mut y: usize = 0;
        while y < SCREEN_HEIGHT
            invariant
                self.wf(),
                self.cycles == old(self).cycles,
                before == old(self).framebuffer@,
                memory@.wf(),
                oam@.len() == 160,
                forall|j: int| 0 <= j < 160 ==> #[trigger] oam@[j] == memory@.read((0xFE00 + j) as u16),
                y <= SCREEN_HEIGHT,
                forall|xx: int, yy: int|
                    0 <= xx < 160 && 0 <= yy < y ==> pixel_at(self.framebuffer@, xx, yy)
                        == sprite_layer(memory@, lcdc, 40, xx, yy, pixel_at(before, xx, yy)),
                forall|xx: int, yy: int|
                    0 <= xx < 160 && y <= yy < 144 ==> pixel_at(self.framebuffer@, xx, yy)
                        == pixel_at(before, xx, yy),
            decreases SCREEN_HEIGHT - y,
        {
            let mut x: usize = 0;
            while x < SCREEN_WIDTH
                invariant
                    self.wf(),
                    self.cycles == old(self).cycles,
                    memory@.wf(),
                    oam@.len() == 160,
                    forall|j: int|
                        0 <= j < 160 ==> #[trigger] oam@[j] == memory@.read((0xFE00 + j) as u16),
                    y < SCREEN_HEIGHT,
                    x <= SCREEN_WIDTH,
                    forall|xx: int, yy: int|
                        0 <= xx < 160 && 0 <= yy < y ==> pixel_at(self.framebuffer@, xx, yy)
                            == sprite_layer(memory@, lcdc, 40, xx, yy, pixel_at(before, xx, yy)),
                    forall|xx: int|
                        0 <= xx < x ==> pixel_at(self.framebuffer@, xx, y as int) == sprite_layer(
                            memory@,
                            lcdc,
                            40,
                            xx,
                            y as int,
                            pixel_at(before, xx, y as int),
                        ),
                    forall|xx: int, yy: int|
                        0 <= xx < 160 && y < yy < 144 ==> pixel_at(self.framebuffer@, xx, yy)
                            == pixel_at(before, xx, yy),
                    forall|xx: int| x <= xx < 160 ==> pixel_at(self.framebuffer@, xx, y as int) == pixel_at(before, xx, y as int),
                decreases SCREEN_WIDTH - x,
            {
                proof {
                    lemma_pixel_index(x as int, y as int, 0, 0);
                }
                let p = y * SCREEN_WIDTH + x;
                let base = self.framebuffer[p];
                let color = Self::sprite_pixel(memory, &oam, lcdc, x, y, base);
                let ghost prev = self.framebuffer@;
                self.framebuffer.set(p, color);
                assert forall|xx: int, yy: int|
                    0 <= xx < 160 && 0 <= yy < 144 && (xx != x || yy != y) implies #[trigger] pixel_at(self.framebuffer@, xx, yy)
                    == pixel_at(prev, xx, yy) by {
                    lemma_pixel_index(xx, yy, x as int, y as int);
                }
                x = x + 1;
            }
            y = y + 1;
        }
    }
}

} // verus!
