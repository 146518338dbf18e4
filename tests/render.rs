use attalus::render::{draw_line, FRAME_LINES, LINE_WIDTH};
use attalus::vdp::{TvSystem, Vdp, SPRITE_COLLISION_FLAG, SPRITE_OVERFLOW_FLAG};

/// A VDP with the display on, the name table at 0x3800, the sprite table at
/// 0x3F00 and an empty sprite list.
fn setup() -> (Vdp, Vec<u8>) {
    let mut vdp = Vdp::new(TvSystem::Ntsc);
    vdp.registers[1] = 0x40;
    vdp.registers[2] = 0xFF;
    vdp.registers[5] = 0xFF;
    vdp.vram[0x3F00] = 0xD0;
    (vdp, vec![0u8; LINE_WIDTH * FRAME_LINES])
}

#[test]
fn background_tile_pixel() {
    let (mut vdp, mut frame) = setup();
    vdp.vram[0x3800] = 1; // tile 0 of row 0 uses pattern 1
    vdp.vram[32] = 0x80; // pattern 1, row 0: leftmost pixel has index 1
    vdp.cram[1] = 0x3F;
    vdp.cram[0] = 0x01;
    draw_line(&mut vdp, &mut frame, 0);
    assert_eq!(frame[0], 0x3F);
    assert_eq!(frame[1], 0x01);
}

#[test]
fn horizontal_flip_and_scroll() {
    let (mut vdp, mut frame) = setup();
    vdp.vram[0x3800] = 1;
    vdp.vram[0x3801] = 0x02; // horizontal flip
    vdp.vram[32] = 0x80;
    vdp.cram[1] = 0x3F;
    vdp.registers[8] = 4; // scroll right by 4
    draw_line(&mut vdp, &mut frame, 0);
    assert_eq!(frame[7 + 4], 0x3F);
    assert_eq!(frame[4], 0);
}

#[test]
fn sprite_over_background() {
    let (mut vdp, mut frame) = setup();
    vdp.vram[0x3F00] = 0xFF; // covers lines 0 to 7
    vdp.vram[0x3F01] = 0xD0;
    vdp.vram[0x3F80] = 8; // x
    vdp.vram[0x3F81] = 2; // pattern 2
    vdp.vram[64] = 0xFF; // pattern 2, row 0: all index 1
    vdp.cram[17] = 0x0C;
    draw_line(&mut vdp, &mut frame, 0);
    for x in 8..16 {
        assert_eq!(frame[x], 0x0C);
    }
    assert_eq!(frame[16], 0);
    assert_eq!(vdp.status_flags & SPRITE_COLLISION_FLAG, 0);
}

#[test]
fn sprite_collision_and_overflow() {
    let (mut vdp, mut frame) = setup();
    vdp.vram[64] = 0xFF;
    for i in 0..9usize {
        vdp.vram[0x3F00 + i] = 0xFF;
        vdp.vram[0x3F80 + 2 * i] = if i < 2 { 8 } else { 20 * i as u8 };
        vdp.vram[0x3F81 + 2 * i] = 2;
    }
    vdp.vram[0x3F09] = 0xD0;
    draw_line(&mut vdp, &mut frame, 0);
    assert_ne!(vdp.status_flags & SPRITE_COLLISION_FLAG, 0);
    assert_ne!(vdp.status_flags & SPRITE_OVERFLOW_FLAG, 0);
}

#[test]
fn blank_display_is_black() {
    let (mut vdp, mut frame) = setup();
    vdp.registers[1] = 0;
    frame[5 * 256 + 3] = 9;
    draw_line(&mut vdp, &mut frame, 5);
    assert_eq!(frame[5 * 256 + 3], 0);
}

#[test]
fn left_column_blanked_with_backdrop() {
    let (mut vdp, mut frame) = setup();
    vdp.registers[0] = 0x20;
    vdp.registers[7] = 3;
    vdp.cram[19] = 0x15;
    draw_line(&mut vdp, &mut frame, 0);
    for x in 0..8 {
        assert_eq!(frame[x], 0x15);
    }
    assert_eq!(frame[8], 0);
}
