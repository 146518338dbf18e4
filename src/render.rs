//! Rasterising one scanline: sprites and the background tile layer into a
//! line of palette colours, then into the frame buffer.
//!
//! Colours are the VDP's 6-bit palette entries, `--BBGGRR`, as held in
//! palette RAM; `vdp_color_to_simple_color` widens one to 8 bits a channel.

use vstd::prelude::*;
use crate::vdp::{Vdp, SPRITE_COLLISION_FLAG, SPRITE_OVERFLOW_FLAG, VRAM_SIZE};

verus! {

/// Width of a scanline in pixels.
pub const LINE_WIDTH: usize = 256;
/// Lines in the frame buffer: the tallest active display.
pub const FRAME_LINES: usize = 240;
/// Marks a line-buffer pixel that no sprite has covered.
pub const EMPTY: u8 = 0x80;

/// A colour with 8 bits a channel.
#[derive(Clone, Copy, Debug, PartialEq, Eq, Structural)]
pub struct SimpleColor {
    pub red: u8,
    pub green: u8,
    pub blue: u8,
}

/// Widens a palette entry `--BBGGRR`: each 2-bit channel becomes the top
/// two bits of an 8-bit one.
pub fn vdp_color_to_simple_color(color: u8) -> (r: SimpleColor)
    ensures
        r.red == (color % 4) * 64,
        r.green == ((color / 4) % 4) * 64,
        r.blue == ((color / 16) % 4) * 64,
{
    SimpleColor {
        red: (color % 4) * 64,
        green: ((color / 4) % 4) * 64,
        blue: ((color / 16) % 4) * 64,
    }
}

/// Palette index (0 to 15) of pixel `col` (0 is leftmost) of a pattern row
/// whose four bit planes are `b0` to `b3`.
pub open spec fn spec_plane_pixel(b0: u8, b1: u8, b2: u8, b3: u8, col: u8) -> u8 {
    let sh = (7 - col) as u8;
    (((b0 >> sh) & 1) + 2 * ((b1 >> sh) & 1) + 4 * ((b2 >> sh) & 1) + 8 * ((b3 >> sh) & 1)) as u8
}

pub fn plane_pixel(b0: u8, b1: u8, b2: u8, b3: u8, col: u8) -> (r: u8)
    requires
        col < 8,
    ensures
        r == spec_plane_pixel(b0, b1, b2, b3, col),
        r < 16,
{
    let sh = 7 - col;
    proof {
        assert((b0 >> sh) & 1 <= 1) by (bit_vector);
        assert((b1 >> sh) & 1 <= 1) by (bit_vector);
        assert((b2 >> sh) & 1 <= 1) by (bit_vector);
        assert((b3 >> sh) & 1 <= 1) by (bit_vector);
    }
    ((b0 >> sh) & 1) + 2 * ((b1 >> sh) & 1) + 4 * ((b2 >> sh) & 1) + 8 * ((b3 >> sh) & 1)
}

/// Palette index of pixel `col` of row `row` of the pattern at `addr`.
pub open spec fn pattern_pixel(vram: Seq<u8>, addr: int, row: int, col: u8) -> u8 {
    let a = addr + 4 * row;
    spec_plane_pixel(vram[a % 0x4000], vram[(a + 1) % 0x4000], vram[(a + 2) % 0x4000], vram[(a + 3) % 0x4000], col)
}

fn pattern_pixel_exec(vram: &Vec<u8>, addr: usize, row: usize, col: u8) -> (r: u8)
    requires
        vram@.len() == VRAM_SIZE,
        addr < 0x10000,
        row < 16,
        col < 8,
    ensures
        r == pattern_pixel(vram@, addr as int, row as int, col),
        r < 16,
{
    let a = addr + 4 * row;
    plane_pixel(vram[a % 0x4000], vram[(a + 1) % 0x4000], vram[(a + 2) % 0x4000], vram[(a + 3) % 0x4000], col)
}

/// The background's contribution to screen pixel `x` of line `v`: its
/// colour, and whether it is drawn over a sprite (a priority tile with a
/// non-zero palette index).
pub open spec fn tile_pixel(vdp: Vdp, v: int, x: int) -> (u8, bool) {
    let vram = vdp.vram@;
    let rows: int = if vdp.spec_active_lines() == 192 { 224 } else { 256 };
    let sv = (v + vdp.y_scroll) % rows;
    let ux = (x + 256 - vdp.registers[8]) % 256;
    let name_table = (vdp.registers[2] & 0x0E) as int * 1024;
    let entry = name_table + 2 * ((sv / 8) * 32 + ux / 8);
    let low = vram[entry % 0x4000];
    let high = vram[(entry + 1) % 0x4000];
    let pattern = low as int + 256 * (high & 1) as int;
    let row = if high & 4 != 0 { 7 - sv % 8 } else { sv % 8 };
    let col = (if high & 2 != 0 { 7 - ux % 8 } else { ux % 8 }) as u8;
    let index = pattern_pixel(vram, pattern * 32, row, col);
    let palette: int = if high & 8 != 0 { 16 } else { 0 };
    (vdp.cram[(index + palette) as int], high & 0x10 != 0 && index != 0)
}

/// Screen pixel `x` after the background is laid over the sprite line
/// `sprites`: the background shows where no sprite is and where it has
/// priority.
pub open spec fn combined_pixel(vdp: Vdp, v: int, x: int, sprites: Seq<u8>) -> u8 {
    let (color, over) = tile_pixel(vdp, v, x);
    if sprites[x] == EMPTY || over {
        color
    } else {
        sprites[x]
    }
}

/// Where the sprite attribute table starts in VRAM (register 5).
pub open spec fn sprite_table(vdp: Vdp) -> int {
    (vdp.registers[5] & 0x7E) as int * 128
}

/// Sprite height in lines: 16 when register 1 bit 1 is set, else 8.
pub open spec fn sprite_height(vdp: Vdp) -> int {
    if vdp.registers[1] & 0x02 != 0 { 16 } else { 8 }
}

/// Which row of sprite `i` falls on line `v`: a sprite covers the lines
/// below its Y coordinate, wrapping at 256.
pub open spec fn sprite_row(vdp: Vdp, v: int, i: int) -> int {
    (v + 256 - (vdp.vram@[sprite_table(vdp) + i] + 1)) % 256
}

/// The pattern of sprite `i`: its pattern byte, plus 256 when register 6
/// bit 2 is set, and even for tall sprites.
pub open spec fn sprite_pattern(vdp: Vdp, i: int) -> int {
    let n = vdp.vram@[sprite_table(vdp) + 0x81 + 2 * i] as int + if vdp.registers[6] & 0x04 != 0 {
        256int
    } else {
        0int
    };
    if vdp.registers[1] & 0x02 != 0 { n - n % 2 } else { n }
}

/// The line buffer and status flags after pixel `j` of sprite `i` is laid on
/// line `v`. Transparent pixels (index 0) and pixels off the line are
/// skipped; an opaque pixel over an earlier sprite's leaves it and sets the
/// collision flag.
pub open spec fn sprite_pixel(vdp: Vdp, v: int, i: int, j: int, st: (Seq<u8>, u8)) -> (Seq<u8>, u8) {
    let (line, flags) = st;
    let px = vdp.vram@[sprite_table(vdp) + 0x80 + 2 * i] as int + j;
    let shift = vdp.registers[0] & 0x08 != 0;
    let visible = if shift { 8 <= px < 264 } else { px < 256 };
    let p = if shift { px - 8 } else { px };
    if !visible {
        st
    } else {
        let index = pattern_pixel(vdp.vram@, sprite_pattern(vdp, i) * 32, sprite_row(vdp, v, i), j as u8);
        if index == 0 {
            st
        } else if line[p] != EMPTY {
            (line, flags | SPRITE_COLLISION_FLAG)
        } else {
            (line.update(p, vdp.cram[16 + index]), flags)
        }
    }
}

/// Pixels `0 .. j` of sprite `i` laid on line `v`.
#[verifier::opaque]
pub open spec fn sprite_pixels(vdp: Vdp, v: int, i: int, j: nat, st: (Seq<u8>, u8)) -> (Seq<u8>, u8)
    decreases j,
{
    if j == 0 {
        st
    } else {
        sprite_pixel(vdp, v, i, j - 1, sprite_pixels(vdp, v, i, (j - 1) as nat, st))
    }
}

/// The state of the sprite pass over one line.
pub struct SpriteScan {
    pub line: Seq<u8>,
    pub rendered: nat,
    pub flags: u8,
    /// The table ended, or a ninth sprite was found.
    pub done: bool,
}

/// The sprite pass after sprite `i` is considered. In 192-line mode a Y
/// coordinate of 0xD0 ends the table. A ninth sprite on the line is not
/// drawn: it sets the overflow flag and ends the pass.
pub open spec fn sprite_step(vdp: Vdp, v: int, i: int, s: SpriteScan) -> SpriteScan {
    let y = vdp.vram@[sprite_table(vdp) + i];
    if y == 0xD0 && vdp.spec_active_lines() == 192 {
        SpriteScan { done: true, ..s }
    } else if sprite_row(vdp, v, i) >= sprite_height(vdp) {
        s
    } else if s.rendered == 8 {
        SpriteScan { flags: s.flags | SPRITE_OVERFLOW_FLAG, done: true, ..s }
    } else {
        let (line, flags) = sprite_pixels(vdp, v, i, 8, (s.line, s.flags));
        SpriteScan { line, flags, rendered: s.rendered + 1, done: false }
    }
}

/// The sprite pass after sprites `0 .. i`, in table order.
pub open spec fn sprites_upto(vdp: Vdp, v: int, i: nat) -> SpriteScan
    decreases i,
{
    if i == 0 {
        SpriteScan {
            line: Seq::new(LINE_WIDTH as nat, |x: int| EMPTY),
            rendered: 0,
            flags: vdp.status_flags,
            done: false,
        }
    } else {
        let s = sprites_upto(vdp, v, (i - 1) as nat);
        if s.done { s } else { sprite_step(vdp, v, i - 1, s) }
    }
}

/// The sprite line and status flags for line `v`: all 64 table entries.
pub open spec fn sprite_pass(vdp: Vdp, v: int) -> SpriteScan {
    sprites_upto(vdp, v, 64)
}

proof fn lemma_sprite_pixels_len(vdp: Vdp, v: int, i: int, j: nat, st: (Seq<u8>, u8))
    requires
        st.0.len() == LINE_WIDTH,
        j <= 8,
    ensures
        sprite_pixels(vdp, v, i, j, st).0.len() == LINE_WIDTH,
    decreases j,
{
    reveal(sprite_pixels);
    if j > 0 {
        lemma_sprite_pixels_len(vdp, v, i, (j - 1) as nat, st);
    }
}

proof fn lemma_sprites_done_stable(vdp: Vdp, v: int, i: nat, k: nat)
    requires
        i <= k,
        sprites_upto(vdp, v, i).done,
    ensures
        sprites_upto(vdp, v, k) == sprites_upto(vdp, v, i),
    decreases k - i,
{
    if i < k {
        lemma_sprites_done_stable(vdp, v, i, (k - 1) as nat);
    }
}

/// Lays pixels of sprite `i`, whose row `sprite_line` falls on line `vi`,
/// over `line`.
fn draw_one_sprite(
    vdp: &mut Vdp,
    line: &mut Vec<u8>,
    i: usize,
    x0: usize,
    n: usize,
    sprite_line: u16,
    shift: bool,
    start: Ghost<Vdp>,
    vi: Ghost<int>,
)
    requires
        start@.wf(),
        *old(vdp) == (Vdp { status_flags: old(vdp).status_flags, ..start@ }),
        n < 512,
        n == sprite_pattern(start@, i as int),
        i < 64,
        sprite_table(start@) <= 0x3F00,
        x0 == start@.vram@[sprite_table(start@) + 0x80 + 2 * i],
        shift == (start@.registers[0] & 0x08 != 0),
        sprite_line == sprite_row(start@, vi@, i as int),
        sprite_line < 16,
        old(line)@.len() == LINE_WIDTH,
    ensures
        (final(line)@, final(vdp).status_flags) == sprite_pixels(
            start@,
            vi@,
            i as int,
            8,
            (old(line)@, old(vdp).status_flags),
        ),
        final(line)@.len() == LINE_WIDTH,
        *final(vdp) == (Vdp { status_flags: final(vdp).status_flags, ..start@ }),
{
    reveal(sprite_pixels);
    let ghost st0 = (line@, vdp.status_flags);
    let ghost start = start@;
    let ghost vi = vi@;
    let mut j: usize = 0;
    while j < 8
        invariant
            start.wf(),
            *vdp == (Vdp { status_flags: vdp.status_flags, ..start }),
            n < 512,
            n == sprite_pattern(start, i as int),
            x0 == start.vram@[sprite_table(start) + 0x80 + 2 * i],
            sprite_table(start) <= 0x3F00,
            i < 64,
            shift == (start.registers[0] & 0x08 != 0),
            sprite_line == sprite_row(start, vi, i as int),
            sprite_line < 16,
            j <= 8,
            line@.len() == LINE_WIDTH,
            (line@, vdp.status_flags) == sprite_pixels(start, vi, i as int, j as nat, st0),
        decreases 8 - j,
    {
        let ghost prev = (line@, vdp.status_flags);
        proof {
            reveal(sprite_pixels);
        }
        assert(sprite_pixels(start, vi, i as int, (j + 1) as nat, st0) == sprite_pixel(
            start,
            vi,
            i as int,
            j as int,
            prev,
        ));
        let px = x0 + j;
        let visible = if shift { px >= 8 && px < 264 } else { px < 256 };
        if visible {
            let px = if shift { px - 8 } else { px };
            let index = pattern_pixel_exec(&vdp.vram, n * 32, sprite_line as usize, j as u8);
            if index != 0 {
                if line[px] != EMPTY {
                    vdp.status_flags = vdp.status_flags | SPRITE_COLLISION_FLAG;
                } else {
                    let color = vdp.cram[16 + index as usize];
                    line.set(px, color);
                }
            }
        }
        assert((line@, vdp.status_flags) == sprite_pixel(start, vi, i as int, j as int, prev));
        j = j + 1;
    }
}

/// Lays the sprites of line `v` into a fresh line buffer, and records
/// sprite overflow and collision in the status flags, as `sprite_pass` says.
#[verifier::rlimit(40)]
fn draw_sprites(vdp: &mut Vdp, v: u16) -> (line: Vec<u8>)
    requires
        old(vdp).wf(),
        v < FRAME_LINES,
    ensures
        line@ == sprite_pass(*old(vdp), v as int).line,
        line@.len() == LINE_WIDTH,
        final(vdp).status_flags == sprite_pass(*old(vdp), v as int).flags,
        final(vdp).wf(),
        *final(vdp) == (Vdp { status_flags: final(vdp).status_flags, ..*old(vdp) }),
{
    let mut line: Vec<u8> = vec![EMPTY; LINE_WIDTH];
    let r5 = vdp.registers[5];
    proof {
        assert(r5 & 0x7E <= 0x7E) by (bit_vector);
    }
    let sat = (r5 & 0x7E) as usize * 128;
    let tall = vdp.registers[1] & 0x02 != 0;
    let height: u16 = if tall { 16 } else { 8 };
    let shift = vdp.registers[0] & 0x08 != 0;
    let high_patterns = vdp.registers[6] & 0x04 != 0;
    let short_table = vdp.active_lines() == 192;
    let ghost start = *vdp;
    let ghost vi = v as int;
    proof {
        assert(line@ =~= sprites_upto(start, vi, 0).line);
    }
    let mut rendered: u8 = 0;
    let mut i: usize = 0;
    while i < 64
        invariant_except_break
            sprites_upto(start, vi, i as nat) == (SpriteScan {
                line: line@,
                rendered: rendered as nat,
                flags: vdp.status_flags,
                done: false,
            }),
        invariant
            start.wf(),
            *vdp == (Vdp { status_flags: vdp.status_flags, ..start }),
            sat == sprite_table(start),
            sat <= 0x3F00,
            height == sprite_height(start),
            tall == (start.registers[1] & 0x02 != 0),
            shift == (start.registers[0] & 0x08 != 0),
            high_patterns == (start.registers[6] & 0x04 != 0),
            short_table == (start.spec_active_lines() == 192),
            vi == v,
            v < FRAME_LINES,
            i <= 64,
            rendered <= 8,
            line@.len() == LINE_WIDTH,
        ensures
            line@ == sprite_pass(start, vi).line,
            vdp.status_flags == sprite_pass(start, vi).flags,
            *vdp == (Vdp { status_flags: vdp.status_flags, ..start }),
        decreases 64 - i,
    {
        let ghost before = sprites_upto(start, vi, i as nat);
        let y = vdp.vram[sat + i];
        if y == 0xD0 && short_table {
            proof {
                lemma_sprites_done_stable(start, vi, (i + 1) as nat, 64);
            }
            break;
        }
        let sprite_line = (v + 256 - (y as u16 + 1)) % 256;
        assert(sprite_line == sprite_row(start, vi, i as int));
        if sprite_line < height {
            if rendered == 8 {
                vdp.status_flags = vdp.status_flags | SPRITE_OVERFLOW_FLAG;
                proof {
                    lemma_sprites_done_stable(start, vi, (i + 1) as nat, 64);
                }
                break;
            }
            rendered = rendered + 1;
            let x0 = vdp.vram[sat + 0x80 + 2 * i] as usize;
            let mut n = vdp.vram[sat + 0x81 + 2 * i] as usize + if high_patterns { 256 } else { 0 };
            if tall {
                n = n - n % 2;
            }
            assert(n == sprite_pattern(start, i as int));
            draw_one_sprite(vdp, &mut line, i, x0, n, sprite_line, shift, Ghost(start), Ghost(vi));
            proof {
                lemma_sprite_pixels_len(start, vi, i as int, 8, (before.line, before.flags));
            }
            assert(sprites_upto(start, vi, (i + 1) as nat) == sprite_step(start, vi, i as int, before));
        }
        i = i + 1;
    }
    line
}

/// Pixel `x` of line `v` as drawn: black with the display disabled, the
/// backdrop colour in a blanked left column, and otherwise the background
/// laid over the sprites of `sprite_pass`.
pub open spec fn line_pixel(vdp: Vdp, v: int, x: int) -> u8 {
    if vdp.registers[1] & 0x40 == 0 {
        0
    } else if vdp.registers[0] & 0x20 != 0 && x < 8 {
        vdp.cram[16 + (vdp.registers[7] % 16)]
    } else {
        combined_pixel(vdp, v, x, sprite_pass(vdp, v).line)
    }
}

/// The VDP after line `v` is drawn: with the display enabled the sprite
/// pass sets its overflow and collision flags; nothing else changes.
pub open spec fn drawn(vdp: Vdp, v: int) -> Vdp {
    if vdp.registers[1] & 0x40 == 0 {
        vdp
    } else {
        Vdp { status_flags: sprite_pass(vdp, v).flags, ..vdp }
    }
}

/// Draws line `v` of the active display into `frame`, 256 palette colours a
/// line.
///
/// With the display disabled (register 1, bit 6) the line is black.
/// Otherwise the sprites are drawn, the background laid over them as
/// `combined_pixel` says, and, when register 0 bit 5 asks for it, the
/// leftmost eight pixels are painted with the backdrop colour of register 7.
pub fn draw_line(vdp: &mut Vdp, frame: &mut Vec<u8>, v: u16)
    requires
        old(vdp).wf(),
        old(frame)@.len() == LINE_WIDTH * FRAME_LINES,
        v < old(vdp).spec_active_lines(),
    ensures
        final(vdp).wf(),
        *final(vdp) == drawn(*old(vdp), v as int),
        final(frame)@.len() == old(frame)@.len(),
        forall|i: int| 0 <= i < final(frame)@.len() && !(v * 256 <= i < v * 256 + 256)
            ==> final(frame)@[i] == old(frame)@[i],
        forall|i: int|
            v * 256 <= i < v * 256 + 256 ==> #[trigger] final(frame)@[i] == line_pixel(
                *old(vdp),
                v as int,
                i - v * 256,
            ),
{
    let base = v as usize * LINE_WIDTH;
    if vdp.registers[1] & 0x40 == 0 {
        let mut x: usize = 0;
        while x < LINE_WIDTH
            invariant
                base == v * 256,
                v < FRAME_LINES,
                x <= LINE_WIDTH,
                frame@.len() == LINE_WIDTH * FRAME_LINES,
                forall|i: int| 0 <= i < frame@.len() && !(base <= i < base + x) ==> frame@[i] == old(frame)@[i],
                forall|i: int| base <= i < base + x ==> #[trigger] frame@[i] == 0,
            decreases LINE_WIDTH - x,
        {
            frame.set(base + x, 0);
            x = x + 1;
        }
        return;
    }
    let ghost v0 = *vdp;
    let sprites = draw_sprites(vdp, v);
    let ghost s = sprites@;
    let blank = vdp.registers[0] & 0x20 != 0;
    let backdrop = vdp.cram[16 + (vdp.registers[7] % 16) as usize];
    let rows: u16 = if vdp.active_lines() == 192 { 224 } else { 256 };
    let sv = (v + vdp.y_scroll as u16) % rows;
    let name_table = (vdp.registers[2] & 0x0E) as usize * 1024;
    let xs = vdp.registers[8] as usize;
    let mut x: usize = 0;
    while x < LINE_WIDTH
        invariant
            base == v * 256,
            v < FRAME_LINES,
            x <= LINE_WIDTH,
            v0.wf(),
            *vdp == (Vdp { status_flags: vdp.status_flags, ..v0 }),
            s.len() == 256,
            sprites@ == s,
            blank == (v0.registers[0] & 0x20 != 0),
            backdrop == v0.cram[16 + (v0.registers[7] % 16)],
            rows == (if v0.spec_active_lines() == 192 { 224u16 } else { 256u16 }),
            sv == (v + v0.y_scroll) % rows as int,
            name_table == (v0.registers[2] & 0x0E) as int * 1024,
            xs == v0.registers[8],
            frame@.len() == LINE_WIDTH * FRAME_LINES,
            forall|i: int| 0 <= i < frame@.len() && !(base <= i < base + x) ==> frame@[i] == old(frame)@[i],
            forall|i: int| base <= i < base + x ==> #[trigger] frame@[i] == if blank && i - base < 8 {
                backdrop
            } else {
                combined_pixel(v0, v as int, i - base, s)
            },
        decreases LINE_WIDTH - x,
    {
        let color = if blank && x < 8 {
            backdrop
        } else {
            let ux = (x + 256 - xs) % 256;
            let entry = name_table + 2 * ((sv as usize / 8) * 32 + ux / 8);
            let low = vdp.vram[entry % 0x4000];
            let high = vdp.vram[(entry + 1) % 0x4000];
            proof {
                assert(high & 1 <= 1) by (bit_vector);
            }
            let pattern = low as usize + 256 * (high & 1) as usize;
            let row = if high & 4 != 0 { 7 - sv as usize % 8 } else { sv as usize % 8 };
            let col = (if high & 2 != 0 { 7 - ux % 8 } else { ux % 8 }) as u8;
            let index = pattern_pixel_exec(&vdp.vram, pattern * 32, row, col);
            let palette: usize = if high & 8 != 0 { 16 } else { 0 };
            let tile_color = vdp.cram[index as usize + palette];
            let over = high & 0x10 != 0 && index != 0;
            if sprites[x] == EMPTY || over {
                tile_color
            } else {
                sprites[x]
            }
        };
        frame.set(base + x, color);
        x = x + 1;
    }
}

} // verus!
