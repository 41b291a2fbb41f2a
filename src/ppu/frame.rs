use rand::Rng;
use vstd::prelude::*;

use crate::cartridge::MirroringType;
use crate::ppu::{chr_byte, PpuState, PPU};

verus! {

pub const WIDTH: usize = 256;

pub const HEIGHT: usize = 240;

pub const FRAME_BYTES: usize = 184320;

/// Entries in the RGB palette table.
pub const PALETTE_ENTRIES: usize = 64;

/// An RGB picture of 256 by 240 pixels, three bytes per pixel, row by row.
pub struct Frame {
    pub frame_data: Vec<u8>,
}

/// A rectangle of nametable pixels, `x_1..x_2` by `y_1..y_2`.
#[derive(Clone, Copy, Debug, PartialEq, Eq, Structural)]
pub struct Rectangle {
    pub x_1: usize,
    pub y_1: usize,
    pub x_2: usize,
    pub y_2: usize,
}

impl Rectangle {
    pub fn new(x1: usize, y1: usize, x2: usize, y2: usize) -> (r: Self)
        ensures
            r == (Rectangle { x_1: x1, y_1: y1, x_2: x2, y_2: y2 }),
    {
        Rectangle { x_1: x1, y_1: y1, x_2: x2, y_2: y2 }
    }
}

/// The RGB colour of a palette entry; entries repeat every 64, as on the
/// console, which ignores the top two bits.
pub open spec fn rgb_of(palette: Seq<(u8, u8, u8)>, entry: u8) -> (u8, u8, u8) {
    palette[(entry & 0x3F) as int]
}

/// The 2-bit colour of pixel (`x`, `y`) of the tile at `tile_address` in CHR:
/// bit 0 from the low plane, bit 1 from the high plane 8 bytes on, leftmost
/// pixel in bit 7.
pub open spec fn tile_pixel(chr: Seq<u8>, tile_address: int, x: int, y: int) -> u8 {
    let lo = chr_byte(chr, tile_address + y);
    let hi = chr_byte(chr, tile_address + y + 8);
    let bit = (7 - x) as u8;
    (((hi >> bit) & 1) << 1u8) | ((lo >> bit) & 1)
}

/// The palette RAM entries of the background subpalette that the attribute
/// table gives the tile at (`col`, `row`).
pub open spec fn background_palette_spec(ppu: PpuState, attribute_table: Seq<u8>, row: int, col: int)
    -> Seq<u8> {
    let attribute_byte = attribute_table[row / 4 * 8 + col / 4];
    let shift: u8 = if col % 4 / 2 == 0 {
        if row % 4 / 2 == 0 {
            0
        } else {
            4
        }
    } else {
        if row % 4 / 2 == 0 {
            2
        } else {
            6
        }
    };
    let start = 1 + ((attribute_byte >> shift) & 0b11) as int * 4;
    seq![ppu.palette[0], ppu.palette[start], ppu.palette[start + 1], ppu.palette[start + 2]]
}

pub open spec fn sprite_palette_spec(ppu: PpuState, palette_index: u8) -> Seq<u8> {
    let start = 0x11 + palette_index as int * 4;
    seq![0, ppu.palette[start], ppu.palette[start + 1], ppu.palette[start + 2]]
}

/// The colour at pixel (`x`, `y`) of the frame.
pub open spec fn pixel_at(data: Seq<u8>, x: int, y: int) -> (u8, u8, u8) {
    let base = (y * WIDTH + x) * 3;
    (data[base], data[base + 1], data[base + 2])
}

/// One byte of colour `c`: red, green or blue for `k` 0, 1, 2.
pub open spec fn component(c: (u8, u8, u8), k: int) -> u8 {
    if k == 0 {
        c.0
    } else if k == 1 {
        c.1
    } else {
        c.2
    }
}

/// The picture `data` with pixel (x, y) painted wherever `layer` gives it a
/// colour.
pub open spec fn paint(data: Seq<u8>, layer: spec_fn(int, int) -> Option<(u8, u8, u8)>) -> Seq<u8> {
    Seq::new(
        data.len(),
        |i: int|
            {
                let p = i / 3;
                match layer(p % (WIDTH as int), p / (WIDTH as int)) {
                    Some(c) => component(c, i % 3),
                    None => data[i],
                }
            },
    )
}

pub open spec fn in_view(viewport: Rectangle, px: int, py: int) -> bool {
    &&& viewport.x_1 <= px < viewport.x_2
    &&& viewport.y_1 <= py < viewport.y_2
    &&& 0 <= px < WIDTH
    &&& 0 <= py < HEIGHT
}

/// The colour of pixel (`px`, `py`) of the nametable at `nt_base` in VRAM.
pub open spec fn nametable_rgb(
    ppu: PpuState,
    nt_base: int,
    palette: Seq<(u8, u8, u8)>,
    px: int,
    py: int,
) -> (u8, u8, u8) {
    let col = px / 8;
    let row = py / 8;
    let tile = ppu.vram[nt_base + row * 32 + col];
    let value = tile_pixel(ppu.chr, ppu.ctrl.background_base() + tile * 16, px % 8, py % 8);
    let attribute_table = ppu.vram.subrange(nt_base + 0x3C0, nt_base + 0x400);
    if value == 0 {
        rgb_of(palette, ppu.palette[0])
    } else {
        rgb_of(palette, background_palette_spec(ppu, attribute_table, row, col)[value as int])
    }
}

/// The nametable drawn with its pixel (px, py) at (px + s_x, py + s_y),
/// where (px, py) lies in the viewport.
pub open spec fn nametable_layer(
    ppu: PpuState,
    nt_base: int,
    viewport: Rectangle,
    palette: Seq<(u8, u8, u8)>,
    s_x: int,
    s_y: int,
) -> spec_fn(int, int) -> Option<(u8, u8, u8)> {
    |tx: int, ty: int|
        if in_view(viewport, tx - s_x, ty - s_y) {
            Some(nametable_rgb(ppu, nt_base, palette, tx - s_x, ty - s_y))
        } else {
            None
        }
}

/// Sprite `j` of OAM (Y, tile, attributes, X): its pixel at (tx, ty) when it
/// covers it there with a colour other than 0, flipped as bits 6 and 7 of the
/// attributes say.
pub open spec fn sprite_layer(ppu: PpuState, palette: Seq<(u8, u8, u8)>, j: int) -> spec_fn(
    int,
    int,
) -> Option<(u8, u8, u8)> {
    let tile_y = ppu.oam[4 * j] as int;
    let tile = ppu.oam[4 * j + 1] as int;
    let attributes = ppu.oam[4 * j + 2];
    let tile_x = ppu.oam[4 * j + 3] as int;
    |tx: int, ty: int|
        {
            let dx = tx - tile_x;
            let dy = ty - tile_y;
            let x = if attributes & 0x40 != 0 {
                7 - dx
            } else {
                dx
            };
            let y = if attributes & 0x80 != 0 {
                7 - dy
            } else {
                dy
            };
            let value = tile_pixel(ppu.chr, ppu.ctrl.sprite_base() + tile * 16, x, y);
            if 0 <= dx < 8 && 0 <= dy < 8 && value != 0 {
                Some(rgb_of(palette, sprite_palette_spec(ppu, attributes & 0b11)[value as int]))
            } else {
                None
            }
        }
}

/// The picture after the sprites `j` and below are drawn, highest first, so
/// that sprite 0 ends on top.
pub open spec fn sprites_painted(data: Seq<u8>, ppu: PpuState, palette: Seq<(u8, u8, u8)>, n: nat) -> Seq<u8>
    decreases n,
{
    if n == 0 {
        data
    } else {
        paint(sprites_painted(data, ppu, palette, (n - 1) as nat), sprite_layer(ppu, palette, 64 - n))
    }
}

/// Which VRAM halves the base nametable and its scroll neighbour sit in.
pub open spec fn nametable_bases(mirroring: MirroringType, nametable_index: u8) -> (int, int) {
    let second = match mirroring {
        MirroringType::Horizontal => nametable_index >= 2,
        _ => nametable_index % 2 == 1,
    };
    if second {
        (0x400, 0)
    } else {
        (0, 0x400)
    }
}

/// The background: the base nametable scrolled by (scx, scy), and the
/// neighbour filling the strip that the scroll uncovers.
pub open spec fn background_painted(data: Seq<u8>, ppu: PpuState, palette: Seq<(u8, u8, u8)>) -> Seq<u8> {
    let scx = ppu.scroll.scx as int;
    let scy = ppu.scroll.scy as int;
    let (primary, secondary) = nametable_bases(ppu.mirroring, ppu.ctrl.nametable_index());
    let first = paint(
        data,
        nametable_layer(ppu, primary, Rectangle { x_1: scx as usize, y_1: scy as usize, x_2: 256, y_2: 240 }, palette, -scx, -scy),
    );
    if scx > 0 {
        paint(first, nametable_layer(ppu, secondary, Rectangle { x_1: 0, y_1: 0, x_2: scx as usize, y_2: 240 }, palette, 256 - scx, 0))
    } else if scy > 0 {
        paint(first, nametable_layer(ppu, secondary, Rectangle { x_1: 0, y_1: 0, x_2: 256, y_2: scy as usize }, palette, 0, 240 - scy))
    } else {
        first
    }
}

/// `layer` limited to the nametable pixels before `p` in row order.
pub open spec fn done_part(layer: spec_fn(int, int) -> Option<(u8, u8, u8)>, s_x: int, s_y: int, p: int)
    -> spec_fn(int, int) -> Option<(u8, u8, u8)> {
    |tx: int, ty: int|
        if (ty - s_y) * (WIDTH as int) + (tx - s_x) < p {
            layer(tx, ty)
        } else {
            None
        }
}

proof fn lemma_paint_step(
    old_data: Seq<u8>,
    ppu: PpuState,
    nt_base: int,
    viewport: Rectangle,
    palette: Seq<(u8, u8, u8)>,
    s_x: int,
    s_y: int,
    p: int,
    before: Seq<u8>,
    after: Seq<u8>,
)
    requires
        old_data.len() == FRAME_BYTES,
        0 <= p < WIDTH * HEIGHT,
        before == paint(old_data, done_part(nametable_layer(ppu, nt_base, viewport, palette, s_x, s_y), s_x, s_y, p)),
        after == if in_view(viewport, p % 256, p / 256) && 0 <= s_x + p % 256 < WIDTH && 0 <= s_y + p / 256 < HEIGHT {
            let c = nametable_rgb(ppu, nt_base, palette, p % 256, p / 256);
            let b = ((s_y + p / 256) * 256 + s_x + p % 256) * 3;
            before.update(b, c.0).update(b + 1, c.1).update(b + 2, c.2)
        } else {
            before
        },
    ensures
        after == paint(old_data, done_part(nametable_layer(ppu, nt_base, viewport, palette, s_x, s_y), s_x, s_y, p + 1)),
{
    let layer = nametable_layer(ppu, nt_base, viewport, palette, s_x, s_y);
    let px = p % 256;
    let py = p / 256;
    let tx = s_x + px;
    let ty = s_y + py;
    let target = paint(old_data, done_part(layer, s_x, s_y, p + 1));
    assert forall|i: int| 0 <= i < after.len() implies after[i] == target[i] by {
        let q = i / 3;
        let a = q % 256;
        let b = q / 256;
        assert(q == b * 256 + a);
        assert(i == q * 3 + i % 3);
        if in_view(viewport, a - s_x, b - s_y) && (b - s_y) * 256 + (a - s_x) == p {
            assert(a - s_x == px && b - s_y == py);
            assert(i / 3 == (ty * 256 + tx));
        } else if in_view(viewport, px, py) && 0 <= tx < WIDTH && 0 <= ty < HEIGHT {
            let base = (ty * 256 + tx) * 3;
            if base <= i < base + 3 {
                assert(q == ty * 256 + tx);
                assert(a == tx && b == ty);
            }
        }
    }
    assert(after =~= target);
}

/// `sprite_layer` limited to the tile pixels before `k`, in the tile's own
/// row order.
pub open spec fn sprite_done(ppu: PpuState, palette: Seq<(u8, u8, u8)>, j: int, k: int) -> spec_fn(
    int,
    int,
) -> Option<(u8, u8, u8)> {
    let tile_y = ppu.oam[4 * j] as int;
    let attributes = ppu.oam[4 * j + 2];
    let tile_x = ppu.oam[4 * j + 3] as int;
    |tx: int, ty: int|
        {
            let dx = tx - tile_x;
            let dy = ty - tile_y;
            let x = if attributes & 0x40 != 0 {
                7 - dx
            } else {
                dx
            };
            let y = if attributes & 0x80 != 0 {
                7 - dy
            } else {
                dy
            };
            if y * 8 + x < k {
                sprite_layer(ppu, palette, j)(tx, ty)
            } else {
                None
            }
        }
}

proof fn lemma_sprite_step(
    old_data: Seq<u8>,
    ppu: PpuState,
    palette: Seq<(u8, u8, u8)>,
    j: int,
    k: int,
    before: Seq<u8>,
    after: Seq<u8>,
)
    requires
        old_data.len() == FRAME_BYTES,
        0 <= j < 64,
        0 <= k < 64,
        ppu.oam.len() == 256,
        before == paint(old_data, sprite_done(ppu, palette, j, k)),
        ({
            let tile_y = ppu.oam[4 * j] as int;
            let attributes = ppu.oam[4 * j + 2];
            let tile_x = ppu.oam[4 * j + 3] as int;
            let x = k % 8;
            let y = k / 8;
            let dx = if attributes & 0x40 != 0 {
                7 - x
            } else {
                x
            };
            let dy = if attributes & 0x80 != 0 {
                7 - y
            } else {
                y
            };
            let tx = tile_x + dx;
            let ty = tile_y + dy;
            after == if sprite_layer(ppu, palette, j)(tx, ty) is Some && tx < WIDTH && ty < HEIGHT {
                let c = sprite_layer(ppu, palette, j)(tx, ty)->0;
                let b = (ty * 256 + tx) * 3;
                before.update(b, c.0).update(b + 1, c.1).update(b + 2, c.2)
            } else {
                before
            }
        }),
    ensures
        after == paint(old_data, sprite_done(ppu, palette, j, k + 1)),
{
    let tile_y = ppu.oam[4 * j] as int;
    let attributes = ppu.oam[4 * j + 2];
    let tile_x = ppu.oam[4 * j + 3] as int;
    let x = k % 8;
    let y = k / 8;
    let dx = if attributes & 0x40 != 0 {
        7 - x
    } else {
        x
    };
    let dy = if attributes & 0x80 != 0 {
        7 - y
    } else {
        y
    };
    let tx = tile_x + dx;
    let ty = tile_y + dy;
    let layer = sprite_layer(ppu, palette, j);
    let target = paint(old_data, sprite_done(ppu, palette, j, k + 1));
    assert forall|i: int| 0 <= i < after.len() implies after[i] == target[i] by {
        let q = i / 3;
        let a = q % 256;
        let b = q / 256;
        assert(q == b * 256 + a);
        assert(i == q * 3 + i % 3);
        let ddx = a - tile_x;
        let ddy = b - tile_y;
        let lx = if attributes & 0x40 != 0 {
            7 - ddx
        } else {
            ddx
        };
        let ly = if attributes & 0x80 != 0 {
            7 - ddy
        } else {
            ddy
        };
        if layer(a, b) is Some && ly * 8 + lx == k {
            assert(lx == x && ly == y);
            assert(a == tx && b == ty);
        } else if layer(tx, ty) is Some && tx < WIDTH && ty < HEIGHT {
            let base = (ty * 256 + tx) * 3;
            if base <= i < base + 3 {
                assert(q == ty * 256 + tx);
                assert(a == tx && b == ty);
            }
        }
    }
    assert(after =~= target);
}

/// `layer` limited to the pixels before pixel number `p` of the picture, in
/// row order.
pub open spec fn first_pixels(layer: spec_fn(int, int) -> Option<(u8, u8, u8)>, p: int) -> spec_fn(
    int,
    int,
) -> Option<(u8, u8, u8)> {
    |tx: int, ty: int|
        if 0 <= tx < WIDTH && ty * (WIDTH as int) + tx < p {
            layer(tx, ty)
        } else {
            None
        }
}

proof fn lemma_paint_pixel(
    old_data: Seq<u8>,
    layer: spec_fn(int, int) -> Option<(u8, u8, u8)>,
    p: int,
    before: Seq<u8>,
    after: Seq<u8>,
)
    requires
        old_data.len() == FRAME_BYTES,
        0 <= p < WIDTH * HEIGHT,
        before == paint(old_data, first_pixels(layer, p)),
        after == if layer(p % 256, p / 256) is Some {
            let c = layer(p % 256, p / 256)->0;
            before.update(p * 3, c.0).update(p * 3 + 1, c.1).update(p * 3 + 2, c.2)
        } else {
            before
        },
    ensures
        after == paint(old_data, first_pixels(layer, p + 1)),
{
    let target = paint(old_data, first_pixels(layer, p + 1));
    assert forall|i: int| 0 <= i < after.len() implies after[i] == target[i] by {
        let q = i / 3;
        let a = q % 256;
        let b = q / 256;
        assert(q == b * 256 + a);
        if q == p {
            assert(a == p % 256 && b == p / 256);
        }
    }
    assert(after =~= target);
}

/// The colour of a tile pixel as the tile viewer reads it: the first plane
/// gives bit 1, the second bit 0.
pub open spec fn viewer_value(chr: Seq<u8>, tile_address: int, x: int, y: int) -> u8 {
    let v = tile_pixel(chr, tile_address, x, y);
    ((v & 1) << 1u8) | (v >> 1u8)
}

/// The first 255 tiles of pattern table `bank`, 32 to a row, each pixel
/// coloured with `palette[indexes[value]]`.
pub open spec fn tile_bank_layer(
    chr: Seq<u8>,
    bank: int,
    palette: Seq<(u8, u8, u8)>,
    indexes: Seq<usize>,
) -> spec_fn(int, int) -> Option<(u8, u8, u8)> {
    |tx: int, ty: int|
        {
            let n = ty / 8 * 32 + tx / 8;
            if 0 <= tx < WIDTH && 0 <= ty && n < 255 {
                Some(palette[indexes[viewer_value(chr, bank * 0x1000 + n * 16, tx % 8, ty % 8) as int] as int])
            } else {
                None
            }
        }
}

/// Relies on rand's `thread_rng` and `Rng::gen_range`: a number drawn from
/// `0..55`.
#[verifier::external_body]
fn random_palette_index() -> (r: usize)
    ensures
        r < 55,
{
    rand::thread_rng().gen_range(0..55)
}

impl Frame {
    pub open spec fn wf(&self) -> bool {
        self.frame_data@.len() == FRAME_BYTES
    }

    pub fn new() -> (r: Self)
        ensures
            r.frame_data@ == Seq::new(FRAME_BYTES as nat, |i: int| 0u8),
    {
        let mut frame_data: Vec<u8> = Vec::new();
        let mut i: usize = 0;
        while i < FRAME_BYTES
            invariant
                i <= FRAME_BYTES,
                frame_data@ == Seq::new(i as nat, |j: int| 0u8),
            decreases FRAME_BYTES - i,
        {
            frame_data.push(0);
            i = i + 1;
            assert(frame_data@ =~= Seq::new(i as nat, |j: int| 0u8));
        }
        Frame { frame_data }
    }

    /// Colours pixel (`x_pos`, `y_pos`); a position off the picture is
    /// ignored.
    pub fn set_pixel(&mut self, x_pos: usize, y_pos: usize, colour: (u8, u8, u8))
        requires
            old(self).wf(),
        ensures
            final(self).wf(),
            final(self).frame_data@ == if x_pos < WIDTH && y_pos < HEIGHT {
                old(self).frame_data@.update((y_pos * WIDTH + x_pos) * 3, colour.0).update(
                    (y_pos * WIDTH + x_pos) * 3 + 1,
                    colour.1,
                ).update((y_pos * WIDTH + x_pos) * 3 + 2, colour.2)
            } else {
                old(self).frame_data@
            },
    {
        if x_pos < WIDTH && y_pos < HEIGHT {
            let base = (y_pos * WIDTH + x_pos) * 3;
            self.frame_data.set(base, colour.0);
            self.frame_data.set(base + 1, colour.1);
            self.frame_data.set(base + 2, colour.2);
        }
    }

    /// The four palette RAM entries of the background subpalette for the
    /// tile at (`col`, `row`): the backdrop, then the subpalette's three.
    pub fn get_background_palette(ppu: &PPU, attribute_table: &[u8], row: usize, col: usize) -> (r:
        Vec<u8>)
        requires
            ppu@.wf(),
            attribute_table@.len() == 64,
            row < 30,
            col < 32,
        ensures
            r@ == background_palette_spec(ppu@, attribute_table@, row as int, col as int),
    {
        let attribute_table_index = row / 4 * 8 + col / 4;
        let attribute_byte = attribute_table[attribute_table_index];
        let shift: u8 = if col % 4 / 2 == 0 {
            if row % 4 / 2 == 0 {
                0
            } else {
                4
            }
        } else {
            if row % 4 / 2 == 0 {
                2
            } else {
                6
            }
        };
        let index = (attribute_byte >> shift) & 0b11;
        assert(index <= 3) by (bit_vector)
            requires
                index == (attribute_byte >> shift) & 0b11,
        ;
        let start: usize = 1 + (index as usize) * 4;
        let r = vec![
            ppu.palette_table[0],
            ppu.palette_table[start],
            ppu.palette_table[start + 1],
            ppu.palette_table[start + 2],
        ];
        assert(r@ =~= background_palette_spec(ppu@, attribute_table@, row as int, col as int));
        r
    }

    /// The four palette RAM entries of sprite subpalette `palette_index`; the
    /// first is transparent and never drawn.
    pub fn get_sprite_palette(ppu: &PPU, palette_index: u8) -> (r: Vec<u8>)
        requires
            ppu@.wf(),
            palette_index < 4,
        ensures
            r@ == sprite_palette_spec(ppu@, palette_index),
    {
        let start: usize = 0x11 + (palette_index as usize) * 4;
        let r = vec![
            0,
            ppu.palette_table[start],
            ppu.palette_table[start + 1],
            ppu.palette_table[start + 2],
        ];
        assert(r@ =~= sprite_palette_spec(ppu@, palette_index));
        r
    }

    /// The 2-bit colour of pixel (`x`, `y`) of the tile at `tile_address`.
    fn tile_pixel_value(chr: &Vec<u8>, tile_address: usize, x: usize, y: usize) -> (r: u8)
        requires
            x < 8,
            y < 8,
            tile_address <= 0x2000,
        ensures
            r == tile_pixel(chr@, tile_address as int, x as int, y as int),
            r < 4,
    {
        let lo = if tile_address + y < chr.len() {
            chr[tile_address + y]
        } else {
            0
        };
        let hi = if tile_address + y + 8 < chr.len() {
            chr[tile_address + y + 8]
        } else {
            0
        };
        let bit = (7 - x) as u8;
        let r = (((hi >> bit) & 1) << 1) | ((lo >> bit) & 1);
        assert(r < 4) by (bit_vector)
            requires
                r == (((hi >> bit) & 1) << 1u8) | ((lo >> bit) & 1),
        ;
        r
    }

    /// The attribute table of the nametable at `nt_base`: its last 64 bytes.
    fn attribute_table(ppu: &PPU, nt_base: usize) -> (r: Vec<u8>)
        requires
            ppu@.wf(),
            nt_base == 0 || nt_base == 0x400,
        ensures
            r@ == ppu@.vram.subrange(nt_base + 0x3C0, nt_base + 0x400),
    {
        let mut attribute_table: Vec<u8> = Vec::new();
        let mut i: usize = 0;
        while i < 64
            invariant
                i <= 64,
                ppu@.wf(),
                nt_base == 0 || nt_base == 0x400,
                attribute_table@ == ppu@.vram.subrange(nt_base + 0x3C0, nt_base + 0x3C0 + i),
            decreases 64 - i,
        {
            attribute_table.push(ppu.vram[nt_base + 0x3C0 + i]);
            i = i + 1;
            assert(attribute_table@ =~= ppu@.vram.subrange(nt_base + 0x3C0, nt_base + 0x3C0 + i));
        }
        attribute_table
    }

    /// The colour of pixel (`px`, `py`) of the nametable at `nt_base`.
    fn nametable_pixel(
        ppu: &PPU,
        nt_base: usize,
        attribute_table: &Vec<u8>,
        palette: &Vec<(u8, u8, u8)>,
        px: usize,
        py: usize,
    ) -> (r: (u8, u8, u8))
        requires
            ppu@.wf(),
            nt_base == 0 || nt_base == 0x400,
            attribute_table@ == ppu@.vram.subrange(nt_base + 0x3C0, nt_base + 0x400),
            palette@.len() == PALETTE_ENTRIES,
            px < WIDTH,
            py < HEIGHT,
        ensures
            r == nametable_rgb(ppu@, nt_base as int, palette@, px as int, py as int),
    {
        let col = px / 8;
        let row = py / 8;
        let tile = ppu.vram[nt_base + row * 32 + col] as usize;
        let bank = ppu.reg_controller.background_pattern_table_address() as usize;
        let value = Frame::tile_pixel_value(&ppu.chr_rom, bank + tile * 16, px % 8, py % 8);
        let entry = if value == 0 {
            ppu.palette_table[0]
        } else {
            let bg_palette = Frame::get_background_palette(ppu, attribute_table.as_slice(), row, col);
            bg_palette[value as usize]
        };
        assert(entry & 0x3F < 64) by (bit_vector);
        palette[(entry & 0x3F) as usize]
    }

    /// Draws the nametable at `nt_base` in VRAM with its pixel (px, py) at
    /// (px + s_x, py + s_y), for the pixels in the viewport.
    fn render_nametable(
        ppu: &PPU,
        frame: &mut Frame,
        nt_base: usize,
        viewport: Rectangle,
        palette: &Vec<(u8, u8, u8)>,
        s_x: isize,
        s_y: isize,
    )
        requires
            ppu@.wf(),
            old(frame).wf(),
            nt_base == 0 || nt_base == 0x400,
            palette@.len() == PALETTE_ENTRIES,
            -512 <= s_x <= 512,
            -512 <= s_y <= 512,
        ensures
            final(frame).wf(),
            final(frame).frame_data@ == paint(
                old(frame).frame_data@,
                nametable_layer(ppu@, nt_base as int, viewport, palette@, s_x as int, s_y as int),
            ),
    {
        let ghost layer = nametable_layer(ppu@, nt_base as int, viewport, palette@, s_x as int, s_y as int);
        let ghost old_data = frame.frame_data@;
        let attribute_table = Frame::attribute_table(ppu, nt_base);
        let mut p: usize = 0;
        while p < WIDTH * HEIGHT
            invariant
                p <= WIDTH * HEIGHT,
                attribute_table@ == ppu@.vram.subrange(nt_base + 0x3C0, nt_base + 0x400),
                ppu@.wf(),
                frame.wf(),
                nt_base == 0 || nt_base == 0x400,
                palette@.len() == PALETTE_ENTRIES,
                -512 <= s_x <= 512,
                -512 <= s_y <= 512,
                layer == nametable_layer(ppu@, nt_base as int, viewport, palette@, s_x as int, s_y as int),
                old_data.len() == FRAME_BYTES,
                frame.frame_data@ == paint(old_data, done_part(layer, s_x as int, s_y as int, p as int)),
            decreases WIDTH * HEIGHT - p,
        {
            let px = p % WIDTH;
            let py = p / WIDTH;
            let ghost before = frame.frame_data@;
            if viewport.x_1 <= px && px < viewport.x_2 && viewport.y_1 <= py && py < viewport.y_2 {
                let colour = Frame::nametable_pixel(ppu, nt_base, &attribute_table, palette, px, py);
                let tx = s_x + px as isize;
                let ty = s_y + py as isize;
                if tx >= 0 && ty >= 0 {
                    frame.set_pixel(tx as usize, ty as usize, colour);
                }
            }
            proof {
                lemma_paint_step(
                    old_data,
                    ppu@,
                    nt_base as int,
                    viewport,
                    palette@,
                    s_x as int,
                    s_y as int,
                    p as int,
                    before,
                    frame.frame_data@,
                );
            }
            p = p + 1;
        }
        proof {
            assert(paint(old_data, done_part(layer, s_x as int, s_y as int, (WIDTH * HEIGHT) as int)) =~= paint(old_data, layer));
        }
    }

    /// Draws sprite `j` of OAM over the picture; colour 0 is transparent.
    fn draw_sprite(ppu: &PPU, frame: &mut Frame, palette: &Vec<(u8, u8, u8)>, j: usize)
        requires
            ppu@.wf(),
            old(frame).wf(),
            palette@.len() == PALETTE_ENTRIES,
            j < 64,
        ensures
            final(frame).wf(),
            final(frame).frame_data@ == paint(old(frame).frame_data@, sprite_layer(ppu@, palette@, j as int)),
    {
        let tile_y = ppu.oam_data[4 * j] as usize;
        let tile = ppu.oam_data[4 * j + 1] as usize;
        let attributes = ppu.oam_data[4 * j + 2];
        let tile_x = ppu.oam_data[4 * j + 3] as usize;
        let palette_index = attributes & 0b11;
        assert(palette_index < 4) by (bit_vector)
            requires
                palette_index == attributes & 0b11,
        ;
        let sprite_palette = Frame::get_sprite_palette(ppu, palette_index);
        let bank = ppu.reg_controller.sprite_pattern_table_address() as usize;
        let flip_horizontal = attributes & 0x40 != 0;
        let flip_vertical = attributes & 0x80 != 0;
        let ghost old_data = frame.frame_data@;
        let mut k: usize = 0;
        while k < 64
            invariant
                k <= 64,
                j < 64,
                ppu@.wf(),
                frame.wf(),
                palette@.len() == PALETTE_ENTRIES,
                old_data.len() == FRAME_BYTES,
                tile_y == ppu@.oam[4 * j] as int,
                tile == ppu@.oam[4 * j + 1] as int,
                attributes == ppu@.oam[4 * j + 2],
                tile_x == ppu@.oam[4 * j + 3] as int,
                bank == ppu@.ctrl.sprite_base(),
                sprite_palette@ == sprite_palette_spec(ppu@, attributes & 0b11),
                flip_horizontal == (attributes & 0x40 != 0),
                flip_vertical == (attributes & 0x80 != 0),
                frame.frame_data@ == paint(old_data, sprite_done(ppu@, palette@, j as int, k as int)),
            decreases 64 - k,
        {
            let x = k % 8;
            let y = k / 8;
            let ghost before = frame.frame_data@;
            let dx = if flip_horizontal {
                7 - x
            } else {
                x
            };
            let dy = if flip_vertical {
                7 - y
            } else {
                y
            };
            let value = Frame::tile_pixel_value(&ppu.chr_rom, bank + tile * 16, x, y);
            if value != 0 {
                let entry = sprite_palette[value as usize];
                assert(entry & 0x3F < 64) by (bit_vector);
                let colour = palette[(entry & 0x3F) as usize];
                frame.set_pixel(tile_x + dx, tile_y + dy, colour);
            }
            proof {
                lemma_sprite_step(old_data, ppu@, palette@, j as int, k as int, before, frame.frame_data@);
            }
            k = k + 1;
        }
        proof {
            assert(paint(old_data, sprite_done(ppu@, palette@, j as int, 64)) =~= paint(
                old_data,
                sprite_layer(ppu@, palette@, j as int),
            )) by {
                assert forall|i: int| 0 <= i < old_data.len() implies #[trigger] paint(
                    old_data,
                    sprite_done(ppu@, palette@, j as int, 64),
                )[i] == paint(old_data, sprite_layer(ppu@, palette@, j as int))[i] by {
                    let q = i / 3;
                    let a = q % 256;
                    let b = q / 256;
                    let ddx = a - tile_x;
                    let ddy = b - tile_y;
                    if 0 <= ddx < 8 && 0 <= ddy < 8 {
                        assert(0 <= ddy * 8 + ddx < 64);
                    }
                }
            }
        }
    }

    /// Draws the picture: the background, scrolled, then the sprites from
    /// entry 63 down to entry 0, which ends on top.
    pub fn render(ppu: &PPU, frame: &mut Frame, palette: Vec<(u8, u8, u8)>)
        requires
            ppu@.wf(),
            old(frame).wf(),
            palette@.len() == PALETTE_ENTRIES,
        ensures
            final(frame).wf(),
            final(frame).frame_data@ == sprites_painted(
                background_painted(old(frame).frame_data@, ppu@, palette@),
                ppu@,
                palette@,
                64,
            ),
    {
        let scx = ppu.reg_scroll.scx as usize;
        let scy = ppu.reg_scroll.scy as usize;
        let index = ppu.reg_controller.bits & 0b11;
        let second = match ppu.mirroring {
            MirroringType::Horizontal => index >= 2,
            _ => index % 2 == 1,
        };
        let (primary, secondary): (usize, usize) = if second {
            (0x400, 0)
        } else {
            (0, 0x400)
        };
        Frame::render_nametable(
            ppu,
            frame,
            primary,
            Rectangle::new(scx, scy, 256, 240),
            &palette,
            -(scx as isize),
            -(scy as isize),
        );
        if scx > 0 {
            Frame::render_nametable(
                ppu,
                frame,
                secondary,
                Rectangle::new(0, 0, scx, 240),
                &palette,
                256 - scx as isize,
                0,
            );
        } else if scy > 0 {
            Frame::render_nametable(
                ppu,
                frame,
                secondary,
                Rectangle::new(0, 0, 256, scy),
                &palette,
                0,
                240 - scy as isize,
            );
        }
        let ghost background = frame.frame_data@;
        let mut n: usize = 0;
        while n < 64
            invariant
                n <= 64,
                ppu@.wf(),
                frame.wf(),
                palette@.len() == PALETTE_ENTRIES,
                frame.frame_data@ == sprites_painted(background, ppu@, palette@, n as nat),
            decreases 64 - n,
        {
            Frame::draw_sprite(ppu, frame, &palette, 63 - n);
            n = n + 1;
        }
    }

    /// Draws the first 255 tiles of pattern table `bank` on a black picture,
    /// with the colours `palette[indexes[0..4]]`.
    pub fn draw_tile_bank(palette: &Vec<(u8, u8, u8)>, chr_rom: &Vec<u8>, bank: usize, indexes: &Vec<usize>) -> (r:
        Frame)
        requires
            bank <= 1,
            indexes@.len() == 4,
            forall|i: int| 0 <= i < 4 ==> indexes@[i] < palette@.len(),
        ensures
            r.wf(),
            r.frame_data@ == paint(
                Seq::new(FRAME_BYTES as nat, |i: int| 0u8),
                tile_bank_layer(chr_rom@, bank as int, palette@, indexes@),
            ),
    {
        let mut frame = Frame::new();
        let ghost layer = tile_bank_layer(chr_rom@, bank as int, palette@, indexes@);
        let ghost old_data = frame.frame_data@;
        let mut p: usize = 0;
        while p < 64 * WIDTH
            invariant
                p <= 64 * WIDTH,
                bank <= 1,
                indexes@.len() == 4,
                forall|i: int| 0 <= i < 4 ==> indexes@[i] < palette@.len(),
                frame.wf(),
                layer == tile_bank_layer(chr_rom@, bank as int, palette@, indexes@),
                old_data == Seq::new(FRAME_BYTES as nat, |i: int| 0u8),
                frame.frame_data@ == paint(old_data, first_pixels(layer, p as int)),
            decreases 64 * WIDTH - p,
        {
            let x = p % WIDTH;
            let y = p / WIDTH;
            let n = y / 8 * 32 + x / 8;
            let ghost before = frame.frame_data@;
            if n < 255 {
                let v = Frame::tile_pixel_value(chr_rom, bank * 0x1000 + n * 16, x % 8, y % 8);
                let value = ((v & 1) << 1) | (v >> 1);
                assert(value < 4) by (bit_vector)
                    requires
                        v < 4,
                        value == ((v & 1) << 1u8) | (v >> 1u8),
                ;
                let colour = palette[indexes[value as usize]];
                frame.set_pixel(x, y, colour);
            }
            proof {
                lemma_paint_pixel(old_data, layer, p as int, before, frame.frame_data@);
            }
            p = p + 1;
        }
        proof {
            assert(paint(old_data, first_pixels(layer, (64 * WIDTH) as int)) =~= paint(old_data, layer));
        }
        frame
    }

    /// Shows the first 255 tiles of pattern table `bank` in four colours
    /// picked at random among the first 55 of the palette.
    pub fn show_tile_bank(palette: &Vec<(u8, u8, u8)>, chr_rom: &Vec<u8>, bank: usize) -> (r: Frame)
        requires
            bank <= 1,
            palette@.len() >= 55,
        ensures
            r.wf(),
            exists|indexes: Seq<usize>|
                indexes.len() == 4 && (forall|i: int| 0 <= i < 4 ==> #[trigger] indexes[i] < 55)
                    && r.frame_data@ == paint(
                    Seq::new(FRAME_BYTES as nat, |i: int| 0u8),
                    tile_bank_layer(chr_rom@, bank as int, palette@, indexes),
                ),
    {
        let mut indexes: Vec<usize> = Vec::new();
        let mut k: usize = 0;
        while k < 4
            invariant
                k <= 4,
                indexes@.len() == k,
                forall|i: int| 0 <= i < k ==> #[trigger] indexes@[i] < 55,
            decreases 4 - k,
        {
            indexes.push(random_palette_index());
            k = k + 1;
        }
        let r = Frame::draw_tile_bank(palette, chr_rom, bank, &indexes);
        assert(indexes@.len() == 4 && (forall|i: int| 0 <= i < 4 ==> #[trigger] indexes@[i] < 55));
        r
    }
}

} // verus!
