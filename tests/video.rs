use gbemu::gpu::{Color, GPU, SCREEN_HEIGHT, SCREEN_WIDTH};
use gbemu::memory::Memory;

#[test]
fn palette_values() {
    assert_eq!(Color::from_id(0).to_u32(), 0xFFFFFF);
    assert_eq!(Color::from_id(1).to_u32(), 0xAAAAAA);
    assert_eq!(Color::from_id(2).to_u32(), 0x555555);
    assert_eq!(Color::from_id(3).to_u32(), 0x000000);
    assert_eq!(Color::from_id(9).to_u32(), 0xFFFFFF);
    assert_eq!(Color::Black.to_u32(), 0);
}

#[test]
fn frame_boundary_requests_vblank() {
    let mut gpu = GPU::new();
    let mut mem = Memory::new();
    assert_eq!(gpu.framebuffer.len(), SCREEN_WIDTH * SCREEN_HEIGHT);
    for _ in 0..(70224 / 24 - 1) {
        gpu.step(24, &mut mem);
    }
    assert_eq!(mem.read(0xFF0F) & 0x01, 0);
    assert_eq!(gpu.cycles, 70200);
    gpu.step(24, &mut mem);
    assert_eq!(gpu.cycles, 0);
    assert_eq!(mem.read(0xFF0F) & 0x01, 0x01);
}

fn run_frame(gpu: &mut GPU, mem: &mut Memory) {
    for _ in 0..(70224 / 240 + 1) {
        gpu.step(240, mem);
    }
}

#[test]
fn background_tile_is_drawn() {
    let mut gpu = GPU::new();
    let mut mem = Memory::new();
    // Tile 1 at 0x8010: first row has the leftmost pixel at index 3, the next index 1.
    mem.write(0x8010, 0b1100_0000);
    mem.write(0x8011, 0b1000_0000);
    mem.write(0x9800, 1);
    mem.write(0xFF40, 0x91); // LCD on, 0x8000 tile data, BG on
    run_frame(&mut gpu, &mut mem);
    assert_eq!(gpu.framebuffer[0], 0x000000);
    assert_eq!(gpu.framebuffer[1], 0xAAAAAA);
    assert_eq!(gpu.framebuffer[2], 0xFFFFFF);
    assert_eq!(gpu.framebuffer[SCREEN_WIDTH], 0xFFFFFF);
}

#[test]
fn signed_tile_addressing_uses_0x9000() {
    let mut gpu = GPU::new();
    let mut mem = Memory::new();
    mem.write(0x9000, 0xFF);
    mem.write(0x9001, 0xFF); // tile 0 in signed mode
    mem.write(0x8FF0, 0xFF); // tile -1 in signed mode, row 0 index 1
    mem.write(0x9801, 0xFF);
    mem.write(0xFF40, 0x81);
    run_frame(&mut gpu, &mut mem);
    assert_eq!(gpu.framebuffer[0], 0x000000);
    assert_eq!(gpu.framebuffer[8], 0xAAAAAA);
}

#[test]
fn lcd_off_keeps_frame_and_bg_off_blanks() {
    let mut gpu = GPU::new();
    let mut mem = Memory::new();
    gpu.framebuffer[5] = 0x123456;
    run_frame(&mut gpu, &mut mem);
    assert_eq!(gpu.framebuffer[5], 0x123456);
    mem.write(0xFF40, 0x80);
    run_frame(&mut gpu, &mut mem);
    assert_eq!(gpu.framebuffer[5], 0xFFFFFF);
}

#[test]
fn sprite_over_background_with_flip() {
    let mut gpu = GPU::new();
    let mut mem = Memory::new();
    // Tile 2: row 0 leftmost pixel index 2.
    mem.write(0x8020, 0x00);
    mem.write(0x8021, 0x80);
    // Sprite 0 at screen (0, 0) with tile 2, then the same sprite x-flipped at (8, 0).
    for (i, b) in [16u8, 8, 2, 0, 16, 16, 2, 0x20].iter().enumerate() {
        mem.write(0xFE00 + i as u16, *b);
    }
    mem.write(0xFF40, 0x93); // LCD, BG, sprites
    run_frame(&mut gpu, &mut mem);
    assert_eq!(gpu.framebuffer[0], 0x555555);
    assert_eq!(gpu.framebuffer[1], 0xFFFFFF);
    assert_eq!(gpu.framebuffer[15], 0x555555);
    assert_eq!(gpu.framebuffer[8], 0xFFFFFF);
}
