use nesemu::cartridge::MirroringType;
use nesemu::ppu::frame::{Frame, FRAME_BYTES};
use nesemu::ppu::PPU;

fn ppu(mirroring: MirroringType) -> PPU {
    PPU::new((0..8192u32).map(|i| (i % 256) as u8).collect(), mirroring)
}

fn set_addr(p: &mut PPU, addr: u16) {
    p.write_to_reg_addr((addr >> 8) as u8);
    p.write_to_reg_addr((addr & 0xFF) as u8);
}

#[test]
fn status_read_clears_vblank_and_toggle() {
    let mut p = ppu(MirroringType::Horizontal);
    p.reg_status.set_vblank_started(true);
    p.reg_status.set_sprite_zero_hit(true);
    p.write_to_reg_scroll(5);
    assert!(p.reg_scroll.write_latch);
    let r = p.read_status();
    assert_eq!(r, 0xC0);
    assert!(!p.reg_status.in_vblank());
    assert!(!p.reg_scroll.write_latch);
    assert!(p.reg_address.first_write);
    assert_eq!(p.read_status(), 0x40);
}

#[test]
fn scroll_and_address_share_the_toggle() {
    let mut p = ppu(MirroringType::Horizontal);
    p.write_to_reg_scroll(0x12);
    p.write_to_reg_addr(0x34);
    assert_eq!(p.reg_scroll.scx, 0x12);
    assert_eq!(p.reg_address.get(), 0x0034);
    p.read_status();
    p.write_to_reg_addr(0x21);
    p.write_to_reg_addr(0x08);
    assert_eq!(p.reg_address.get(), 0x2108);
}

#[test]
fn address_is_masked_to_fourteen_bits() {
    let mut p = ppu(MirroringType::Horizontal);
    set_addr(&mut p, 0x7FFF);
    assert_eq!(p.reg_address.get(), 0x3FFF);
}

#[test]
fn palette_mirrors_both_ways() {
    let mut p = ppu(MirroringType::Horizontal);
    for k in 0..4u16 {
        set_addr(&mut p, 0x3F10 + 4 * k);
        p.write_data(0x20 + k as u8);
        set_addr(&mut p, 0x3F00 + 4 * k);
        assert_eq!(p.read_data(), 0x20 + k as u8);
        set_addr(&mut p, 0x3F00 + 4 * k);
        p.write_data(0x30 + k as u8);
        set_addr(&mut p, 0x3F10 + 4 * k);
        assert_eq!(p.read_data(), 0x30 + k as u8);
    }
}

#[test]
fn data_reads_are_buffered_but_palette_reads_are_not() {
    let mut p = ppu(MirroringType::Horizontal);
    set_addr(&mut p, 0x2305);
    p.write_data(0x66);
    set_addr(&mut p, 0x2F05);
    p.write_data(0x77);
    set_addr(&mut p, 0x3F05);
    p.write_data(0x11);
    set_addr(&mut p, 0x2305);
    assert_eq!(p.read_data(), 0x00);
    assert_eq!(p.read_data(), 0x66);
    set_addr(&mut p, 0x3F05);
    assert_eq!(p.read_data(), 0x11);
    assert_eq!(p.internal_data_buffer, 0x77);
}

#[test]
fn chr_reads_come_through_the_buffer() {
    let mut p = ppu(MirroringType::Horizontal);
    set_addr(&mut p, 0x0010);
    p.read_data();
    assert_eq!(p.read_data(), 0x10);
    assert_eq!(p.read_data(), 0x11);
}

#[test]
fn increment_of_32() {
    let mut p = ppu(MirroringType::Horizontal);
    p.write_to_reg_ctrl(0b100);
    set_addr(&mut p, 0x2000);
    p.write_data(1);
    assert_eq!(p.reg_address.get(), 0x2020);
}

#[test]
fn nametable_mirroring() {
    let h = ppu(MirroringType::Horizontal);
    assert_eq!(h.mirror_vram(0x2000), 0);
    assert_eq!(h.mirror_vram(0x2400), 0);
    assert_eq!(h.mirror_vram(0x2800), 0x400);
    assert_eq!(h.mirror_vram(0x2C05), 0x405);
    let v = ppu(MirroringType::Vertical);
    assert_eq!(v.mirror_vram(0x2400), 0x400);
    assert_eq!(v.mirror_vram(0x2800), 0);
    assert_eq!(v.mirror_vram(0x2C05), 0x405);
    assert_eq!(v.mirror_vram(0x3005), 0x005);
}

#[test]
fn oam_data_and_dma() {
    let mut p = ppu(MirroringType::Horizontal);
    p.write_to_oam_address(0xFF);
    p.write_to_oam_data(9);
    assert_eq!(p.oam_address, 0);
    assert_eq!(p.oam_data[0xFF], 9);
    p.write_to_oam_address(0x10);
    let page: Vec<u8> = (0..256u32).map(|i| i as u8).collect();
    p.write_to_oam_dma(&page);
    assert_eq!(p.oam_address, 0x10);
    assert_eq!(p.oam_data[0x10], 0);
    assert_eq!(p.oam_data[0x0F], 0xFF);
    p.write_to_oam_address(0x10);
    assert_eq!(p.read_oam_data(), 0);
}

#[test]
fn one_nmi_per_frame() {
    let mut p = ppu(MirroringType::Horizontal);
    p.write_to_reg_ctrl(0x80);
    let mut nmis = 0;
    let mut saw_vblank = false;
    let mut dots: u32 = 0;
    let mut frames = 0;
    while dots < 89342 {
        let step = std::cmp::min(255, 89342 - dots) as u8;
        if p.tick(step) {
            frames += 1;
        }
        dots += step as u32;
        if p.reg_status.in_vblank() {
            saw_vblank = true;
        }
        if p.poll_for_nmi_interrupt().is_some() {
            nmis += 1;
        }
    }
    assert_eq!(nmis, 1);
    assert!(saw_vblank);
    assert!(!p.reg_status.in_vblank());
    assert_eq!(frames, 1);
    assert_eq!(p.scanline, 0);
    assert_eq!(p.cycles, 0);
}

#[test]
fn nmi_on_enable_during_vblank() {
    let mut p = ppu(MirroringType::Horizontal);
    p.reg_status.set_vblank_started(true);
    p.write_to_reg_ctrl(0x80);
    assert_eq!(p.poll_for_nmi_interrupt(), Some(1));
    p.write_to_reg_ctrl(0x80);
    assert_eq!(p.poll_for_nmi_interrupt(), None);
}

#[test]
fn sprite_zero_hit_at_end_of_line() {
    let mut p = ppu(MirroringType::Horizontal);
    p.write_to_reg_mask(0b1_0000);
    p.oam_data[0] = 0;
    p.oam_data[3] = 10;
    p.tick(200);
    assert_eq!(p.reg_status.get_bits() & 0x40, 0);
    p.tick(200);
    assert_eq!(p.reg_status.get_bits() & 0x40, 0x40);
    assert_eq!(p.scanline, 1);
    assert_eq!(p.cycles, 59);
}

#[test]
fn mask_and_ctrl_bits() {
    let mut p = ppu(MirroringType::Horizontal);
    p.write_to_reg_mask(0b1010_1011);
    assert!(p.reg_mask.is_greyscale_enabled());
    assert!(p.reg_mask.is_background_leftmost_enabled());
    assert!(!p.reg_mask.is_sprite_leftmost_enabled());
    assert!(p.reg_mask.is_background_enabled());
    assert!(!p.reg_mask.is_sprite_enabled());
    assert_eq!(p.reg_mask.emphasize().len(), 2);
    p.write_to_reg_ctrl(0b0001_1011);
    assert_eq!(p.reg_controller.nametable_address(), 0x2C00);
    assert_eq!(p.reg_controller.background_pattern_table_address(), 0x1000);
    assert_eq!(p.reg_controller.sprite_pattern_table_address(), 0x1000);
    assert_eq!(p.reg_controller.vram_addr_increment(), 1);
}

#[test]
fn render_draws_background_and_sprite() {
    let mut chr = vec![0u8; 8192];
    // tile 1: every pixel has colour 3
    for i in 16..32 {
        chr[i] = 0xFF;
    }
    let mut p = PPU::new(chr, MirroringType::Horizontal);
    p.vram[0] = 1;
    p.palette_table[0] = 0x0F;
    p.palette_table[3] = 0x20;
    p.palette_table[0x13] = 0x16;
    // sprite 0 at (16, 8) using tile 1 and palette 0
    p.oam_data[0] = 8;
    p.oam_data[1] = 1;
    p.oam_data[2] = 0;
    p.oam_data[3] = 16;
    let palette: Vec<(u8, u8, u8)> = (0..64u32).map(|i| (i as u8, 0, 0)).collect();
    let mut frame = Frame::new();
    assert_eq!(frame.frame_data.len(), FRAME_BYTES);
    Frame::render(&p, &mut frame, palette);
    let px = |x: usize, y: usize| frame.frame_data[(y * 256 + x) * 3];
    assert_eq!(px(0, 0), 0x20);
    assert_eq!(px(7, 7), 0x20);
    assert_eq!(px(8, 0), 0x0F);
    assert_eq!(px(16, 8), 0x16);
    assert_eq!(px(23, 15), 0x16);
    assert_eq!(px(24, 8), 0x0F);
}

#[test]
fn set_pixel_ignores_positions_off_the_picture() {
    let mut frame = Frame::new();
    frame.set_pixel(256, 0, (1, 2, 3));
    frame.set_pixel(0, 240, (1, 2, 3));
    assert!(frame.frame_data.iter().all(|b| *b == 0));
    frame.set_pixel(255, 239, (1, 2, 3));
    assert_eq!(&frame.frame_data[FRAME_BYTES - 3..], &[1, 2, 3]);
}

#[test]
fn tile_bank_viewer() {
    let mut chr = vec![0u8; 8192];
    // tile 1 of bank 0: first plane set, second clear on row 0
    chr[16] = 0xFF;
    let palette: Vec<(u8, u8, u8)> = (0..64u32).map(|i| (i as u8, 1, 2)).collect();
    let frame = Frame::draw_tile_bank(&palette, &chr, 0, &vec![10, 11, 12, 13]);
    let px = |x: usize, y: usize| frame.frame_data[(y * 256 + x) * 3];
    assert_eq!(px(0, 0), 10);
    assert_eq!(px(8, 0), 12);
    assert_eq!(px(8, 1), 10);
    // tile 255 is not drawn
    assert_eq!(px(255, 63), 0);
    assert_eq!(frame.frame_data[(63 * 256 + 255) * 3 + 1], 0);
    assert_eq!(frame.frame_data[1], 1);
}

#[test]
fn random_tile_bank_colours_come_from_the_first_55() {
    let chr: Vec<u8> = (0..8192u32).map(|i| (i * 37 % 256) as u8).collect();
    let palette: Vec<(u8, u8, u8)> = (0..64u32).map(|i| (i as u8, 0, 0)).collect();
    let frame = Frame::show_tile_bank(&palette, &chr, 1);
    for y in 0..64 {
        for x in 0..256 {
            let i = (y * 256 + x) * 3;
            if y / 8 * 32 + x / 8 < 255 {
                assert!(frame.frame_data[i] < 55);
            }
        }
    }
    assert!(frame.frame_data[64 * 256 * 3..].iter().all(|b| *b == 0));
}
