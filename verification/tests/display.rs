use chip_rust8::raster::{
    clear, draw, read_sprite_word, render, scroll_down, scroll_left, scroll_right, PackedRow,
};
use chip_rust8::ChipCore;

const ON: u32 = 0xFFFF_FFFF;

fn booted(program: &[u8]) -> ChipCore {
    let mut chip = ChipCore::new();
    assert!(chip.load_rom(program));
    chip
}

fn advance(chip: &mut ChipCore, count: usize) {
    for _ in 0..count {
        assert_eq!(chip.execute(), None);
    }
}

fn low_frame(chip: &mut ChipCore) -> Vec<u32> {
    let mut frame = vec![0x1234_5678u32; 2048];
    chip.render_to_rgb_chip_buffer(&mut frame);
    assert!(frame.iter().all(|pixel| *pixel == ON || *pixel == 0));
    frame
}

fn high_frame(chip: &mut ChipCore) -> Vec<u32> {
    let mut frame = vec![0x1234_5678u32; 8192];
    chip.render_to_rgb_schip_buffer(&mut frame);
    assert!(frame.iter().all(|pixel| *pixel == ON || *pixel == 0));
    frame
}

fn lit(frame: &[u32], width: usize) -> Vec<(usize, usize)> {
    let mut pixels = Vec::new();
    for (i, pixel) in frame.iter().enumerate() {
        if *pixel == ON {
            pixels.push((i % width, i / width));
        }
    }
    pixels
}

fn block(x0: usize, y0: usize, width: usize, height: usize) -> Vec<(usize, usize)> {
    let mut pixels = Vec::new();
    for y in y0..y0 + height {
        for x in x0..x0 + width {
            pixels.push((x, y));
        }
    }
    pixels
}

/// A program that sets V0 = x, V1 = y, points I at the bytes behind the
/// program and draws them with the given height nibble.
fn draw_program(x: u8, y: u8, height: u8, sprite: &[u8]) -> Vec<u8> {
    let mut program = vec![0x60, x, 0x61, y, 0xA2, 0x0A, 0xD0, 0x10 | height, 0x12, 0x08];
    program.extend_from_slice(sprite);
    program
}

#[test]
fn draws_font_glyph() {
    // I = glyph of 0, draw 5 rows at (V0, V0) = (0, 0)
    let mut chip = booted(&[0xF0, 0x29, 0xD0, 0x05]);
    advance(&mut chip, 2);
    let frame = low_frame(&mut chip);
    let mut expected = Vec::new();
    let glyph = [0xF0u8, 0x90, 0x90, 0x90, 0xF0];
    for (y, row) in glyph.iter().enumerate() {
        for x in 0..8 {
            if row & (0x80 >> x) != 0 {
                expected.push((x, y));
            }
        }
    }
    assert_eq!(lit(&frame, 64), expected);
    assert_eq!(chip.registers()[0xF], 0);
}

#[test]
fn sprite_is_clipped_at_right_edge() {
    let mut chip = booted(&draw_program(60, 0, 5, &[0xFF; 5]));
    advance(&mut chip, 4);
    let frame = low_frame(&mut chip);
    assert_eq!(lit(&frame, 64), block(60, 0, 4, 5));
    for y in 0..32 {
        for x in 0..4 {
            assert_eq!(frame[y * 64 + x], 0);
        }
    }
    assert_eq!(chip.registers()[0xF], 0);
}

#[test]
fn sprite_is_clipped_at_bottom_edge() {
    let mut chip = booted(&draw_program(8, 30, 5, &[0xFF; 5]));
    advance(&mut chip, 4);
    let frame = low_frame(&mut chip);
    assert_eq!(lit(&frame, 64), block(8, 30, 8, 2));
}

#[test]
fn sprite_position_wraps_modulo_display_size() {
    let mut chip = booted(&draw_program(64 + 3, 32 + 1, 1, &[0xC0]));
    advance(&mut chip, 4);
    let frame = low_frame(&mut chip);
    assert_eq!(lit(&frame, 64), vec![(3, 1), (4, 1)]);
}

#[test]
fn sprite_bits_are_drawn_msb_first() {
    let mut chip = booted(&draw_program(10, 4, 2, &[0b1010_0001, 0b0100_0000]));
    advance(&mut chip, 4);
    let frame = low_frame(&mut chip);
    assert_eq!(lit(&frame, 64), vec![(10, 4), (12, 4), (17, 4), (11, 5)]);
}

#[test]
fn second_draw_reports_collision() {
    // Draw at (0, 0), then draw the same sprite at (4, 0): columns 4..8 meet.
    let mut program = vec![
        0x60, 0x00, 0x61, 0x00, 0xA2, 0x10, 0xD0, 0x11, 0x60, 0x04, 0xD0, 0x11, 0x12, 0x0C, 0, 0,
    ];
    program.push(0xFF);
    let mut chip = booted(&program);
    advance(&mut chip, 4);
    assert_eq!(chip.registers()[0xF], 0);
    advance(&mut chip, 2);
    assert_eq!(chip.registers()[0xF], 1);
    let frame = low_frame(&mut chip);
    let mut expected = block(0, 0, 4, 1);
    expected.extend(block(8, 0, 4, 1));
    assert_eq!(lit(&frame, 64), expected);
}

#[test]
fn second_draw_without_overlap_reports_none() {
    // Draw at (0, 0), then at (8, 0): the sprites touch but share no pixel.
    let mut program = vec![
        0x60, 0x00, 0x61, 0x00, 0xA2, 0x10, 0xD0, 0x11, 0x60, 0x08, 0xD0, 0x11, 0x12, 0x0C, 0, 0,
    ];
    program.push(0xFF);
    let mut chip = booted(&program);
    advance(&mut chip, 6);
    assert_eq!(chip.registers()[0xF], 0);
    assert_eq!(lit(&low_frame(&mut chip), 64), block(0, 0, 16, 1));
}

#[test]
fn overlap_of_clear_sprite_bits_is_no_collision() {
    // 0xF0 at (0, 0), then 0x0F at (0, 0): same bytes of the row, no shared pixel.
    let mut program = vec![
        0x60, 0x00, 0x61, 0x00, 0xA2, 0x10, 0xD0, 0x11, 0xA2, 0x11, 0xD0, 0x11, 0x12, 0x0C, 0, 0,
    ];
    program.extend_from_slice(&[0xF0, 0x0F]);
    let mut chip = booted(&program);
    advance(&mut chip, 6);
    assert_eq!(chip.registers()[0xF], 0);
    assert_eq!(lit(&low_frame(&mut chip), 64), block(0, 0, 8, 1));
}

#[test]
fn drawing_twice_erases_and_collides() {
    let mut program = vec![0x60, 0x05, 0x61, 0x06, 0xA2, 0x0C, 0xD0, 0x13, 0xD0, 0x13, 0x12, 0x0A];
    program.extend_from_slice(&[0x81, 0x42, 0x24]);
    let mut chip = booted(&program);
    advance(&mut chip, 4);
    assert_eq!(lit(&low_frame(&mut chip), 64).len(), 6);
    advance(&mut chip, 1);
    assert_eq!(chip.registers()[0xF], 1);
    assert!(lit(&low_frame(&mut chip), 64).is_empty());
}

#[test]
fn draw_resets_flag_before_drawing() {
    let mut program = vec![0x6F, 0x01, 0x61, 0x00, 0xA2, 0x0A, 0xD1, 0x11, 0x12, 0x08];
    program.push(0x80);
    let mut chip = booted(&program);
    advance(&mut chip, 4);
    assert_eq!(chip.registers()[0xF], 0);
    assert_eq!(lit(&low_frame(&mut chip), 64), vec![(0, 0)]);
}

#[test]
fn draw_reads_position_before_flag_reset() {
    // VF = 9 is the x coordinate of the draw.
    let mut program = vec![0x6F, 0x09, 0x61, 0x02, 0xA2, 0x0A, 0xDF, 0x11, 0x12, 0x08];
    program.push(0x80);
    let mut chip = booted(&program);
    advance(&mut chip, 4);
    assert_eq!(lit(&low_frame(&mut chip), 64), vec![(9, 2)]);
    assert_eq!(chip.registers()[0xF], 0);
}

#[test]
fn sprite_data_wraps_at_end_of_memory() {
    let mut program = vec![0u8; 3584];
    program[..8].copy_from_slice(&[0x60, 0x00, 0x61, 0x00, 0xAF, 0xFF, 0xD0, 0x12]);
    program[0xFFF - 0x200] = 0x81;
    let mut chip = booted(&program);
    advance(&mut chip, 4);
    // Row 0 is the byte at 0xFFF, row 1 the byte at 0x000 (0xF0).
    assert_eq!(
        lit(&low_frame(&mut chip), 64),
        vec![(0, 0), (7, 0), (0, 1), (1, 1), (2, 1), (3, 1)]
    );
}

#[test]
fn wide_sprite_in_low_resolution() {
    let mut sprite = Vec::new();
    for row in 0..32u8 {
        sprite.push(0x80);
        sprite.push(if row % 2 == 0 { 0x01 } else { 0x00 });
    }
    let mut chip = booted(&draw_program(2, 0, 0, &sprite));
    advance(&mut chip, 4);
    let mut expected = Vec::new();
    for y in 0..32 {
        expected.push((2, y));
        if y % 2 == 0 {
            expected.push((17, y));
        }
    }
    assert_eq!(lit(&low_frame(&mut chip), 64), expected);
    assert_eq!(chip.registers()[0xF], 0);
}

#[test]
fn wide_sprite_is_clipped() {
    let mut chip = booted(&draw_program(56, 20, 0, &[0xFF; 64]));
    advance(&mut chip, 4);
    assert_eq!(lit(&low_frame(&mut chip), 64), block(56, 20, 8, 12));
}

#[test]
fn wide_sprite_in_high_resolution() {
    let mut program = vec![
        0x00, 0xFF, 0x60, 120, 0x61, 40, 0xA2, 0x0C, 0xD0, 0x10, 0x12, 0x0A,
    ];
    program.extend_from_slice(&[0xFF; 64]);
    let mut chip = booted(&program);
    advance(&mut chip, 5);
    assert!(chip.high_res_mode());
    assert_eq!(lit(&high_frame(&mut chip), 128), block(120, 40, 8, 24));
    assert!(lit(&low_frame(&mut chip), 64).is_empty());
}

#[test]
fn narrow_sprite_in_high_resolution() {
    let mut program = vec![
        0x00, 0xFF, 0x60, 128 + 100, 0x61, 64 + 62, 0xA2, 0x0C, 0xD0, 0x13, 0x12, 0x0A,
    ];
    program.extend_from_slice(&[0xFF, 0x81, 0xFF]);
    let mut chip = booted(&program);
    advance(&mut chip, 5);
    let mut expected = block(100, 62, 8, 1);
    expected.extend(vec![(100, 63), (107, 63)]);
    assert_eq!(lit(&high_frame(&mut chip), 128), expected);
}

#[test]
fn high_resolution_collision() {
    let mut program = vec![
        0x00, 0xFF, 0x60, 70, 0x61, 33, 0xA2, 0x10, 0xD0, 0x11, 0x60, 77, 0xD0, 0x11, 0x12, 0x0E,
    ];
    program.push(0xFF);
    let mut chip = booted(&program);
    advance(&mut chip, 5);
    assert_eq!(chip.registers()[0xF], 0);
    advance(&mut chip, 2);
    assert_eq!(chip.registers()[0xF], 1);
    let mut expected = block(70, 33, 7, 1);
    expected.extend(block(78, 33, 7, 1));
    assert_eq!(lit(&high_frame(&mut chip), 128), expected);
}

#[test]
fn clear_screen_clears_active_buffer_only() {
    // Draw in low resolution, switch to high resolution, draw, clear.
    let mut program = vec![
        0xA2, 0x10, 0xD0, 0x01, 0x00, 0xFF, 0xD0, 0x01, 0x00, 0xE0, 0x00, 0xFE, 0x12, 0x0C, 0, 0,
    ];
    program.push(0xFF);
    let mut chip = booted(&program);
    advance(&mut chip, 2);
    assert_eq!(lit(&low_frame(&mut chip), 64), block(0, 0, 8, 1));
    advance(&mut chip, 2);
    assert_eq!(lit(&high_frame(&mut chip), 128), block(0, 0, 8, 1));
    advance(&mut chip, 1);
    assert!(chip.high_res_mode());
    assert!(lit(&high_frame(&mut chip), 128).is_empty());
    assert_eq!(lit(&low_frame(&mut chip), 64), block(0, 0, 8, 1));
    // Back to low resolution: the buffer that is entered is cleared.
    advance(&mut chip, 1);
    assert!(!chip.high_res_mode());
    assert!(lit(&low_frame(&mut chip), 64).is_empty());
}

#[test]
fn clear_screen_in_low_resolution() {
    let mut program = vec![0xA2, 0x08, 0xD0, 0x01, 0x00, 0xE0, 0x12, 0x06];
    program.push(0xFF);
    let mut chip = booted(&program);
    advance(&mut chip, 2);
    assert!(!lit(&low_frame(&mut chip), 64).is_empty());
    advance(&mut chip, 1);
    assert!(lit(&low_frame(&mut chip), 64).is_empty());
}

#[test]
fn switching_to_active_mode_keeps_picture() {
    let mut program = vec![0xA2, 0x0C, 0xD0, 0x01, 0x00, 0xFE, 0x00, 0xFF, 0xD0, 0x01, 0x00, 0xFF];
    program.push(0xFF);
    let mut chip = booted(&program);
    advance(&mut chip, 3);
    assert_eq!(lit(&low_frame(&mut chip), 64), block(0, 0, 8, 1));
    advance(&mut chip, 2);
    assert_eq!(lit(&high_frame(&mut chip), 128), block(0, 0, 8, 1));
    advance(&mut chip, 1);
    assert_eq!(lit(&high_frame(&mut chip), 128), block(0, 0, 8, 1));
    assert_eq!(lit(&low_frame(&mut chip), 64), block(0, 0, 8, 1));
}

#[test]
fn entering_high_resolution_clears_its_buffer() {
    let mut program = vec![
        0x00, 0xFF, 0xA2, 0x10, 0xD0, 0x01, 0x00, 0xFE, 0x00, 0xFF, 0x12, 0x0A, 0, 0, 0, 0,
    ];
    program.push(0xFF);
    let mut chip = booted(&program);
    advance(&mut chip, 3);
    assert!(!lit(&high_frame(&mut chip), 128).is_empty());
    advance(&mut chip, 1);
    assert!(!lit(&high_frame(&mut chip), 128).is_empty());
    advance(&mut chip, 1);
    assert!(lit(&high_frame(&mut chip), 128).is_empty());
}

#[test]
fn scroll_right_in_low_resolution() {
    // The jump behind the draw is replaced by the scroll.
    let mut program = draw_program(58, 3, 1, &[0xFF]);
    program[8] = 0x00;
    program[9] = 0xFB;
    let mut chip = booted(&program);
    advance(&mut chip, 4);
    assert_eq!(lit(&low_frame(&mut chip), 64), block(58, 3, 6, 1));
    advance(&mut chip, 1);
    assert_eq!(lit(&low_frame(&mut chip), 64), block(62, 3, 2, 1));
}

#[test]
fn scroll_left_in_low_resolution() {
    let mut program = draw_program(2, 3, 1, &[0xFF]);
    program[8] = 0x00;
    program[9] = 0xFC;
    let mut chip = booted(&program);
    advance(&mut chip, 5);
    assert_eq!(lit(&low_frame(&mut chip), 64), block(0, 3, 6, 1));
}

#[test]
fn scroll_down_in_low_resolution() {
    let mut program = draw_program(0, 28, 3, &[0x80, 0x40, 0x20]);
    program[8] = 0x00;
    program[9] = 0xC2;
    let mut chip = booted(&program);
    advance(&mut chip, 4);
    assert_eq!(lit(&low_frame(&mut chip), 64), vec![(0, 28), (1, 29), (2, 30)]);
    advance(&mut chip, 1);
    assert_eq!(lit(&low_frame(&mut chip), 64), vec![(0, 30), (1, 31)]);
}

#[test]
fn scroll_down_by_zero_changes_nothing() {
    let mut program = draw_program(0, 28, 3, &[0x80, 0x40, 0x20]);
    program[8] = 0x00;
    program[9] = 0xC0;
    let mut chip = booted(&program);
    advance(&mut chip, 5);
    assert_eq!(lit(&low_frame(&mut chip), 64), vec![(0, 28), (1, 29), (2, 30)]);
}

#[test]
fn scrolls_in_high_resolution() {
    // High resolution, draw 0xFF at (122, 60); scroll right, down 3, left.
    let mut program = vec![
        0x00, 0xFF, 0x60, 122, 0x61, 60, 0xA2, 0x12, 0xD0, 0x11, 0x00, 0xFB, 0x00, 0xC3, 0x00,
        0xFC, 0x12, 0x10,
    ];
    program.push(0xFF);
    let mut chip = booted(&program);
    advance(&mut chip, 5);
    assert_eq!(lit(&high_frame(&mut chip), 128), block(122, 60, 6, 1));
    advance(&mut chip, 1);
    assert_eq!(lit(&high_frame(&mut chip), 128), block(126, 60, 2, 1));
    advance(&mut chip, 1);
    assert_eq!(lit(&high_frame(&mut chip), 128), block(126, 63, 2, 1));
    advance(&mut chip, 1);
    assert_eq!(lit(&high_frame(&mut chip), 128), block(122, 63, 2, 1));
    assert!(lit(&low_frame(&mut chip), 64).is_empty());
}

#[test]
fn scroll_moves_active_buffer_only() {
    let mut program = vec![
        0xA2, 0x0C, 0xD0, 0x01, 0x00, 0xFF, 0xD0, 0x01, 0x00, 0xFB, 0x12, 0x0A,
    ];
    program.push(0xFF);
    let mut chip = booted(&program);
    advance(&mut chip, 5);
    assert_eq!(lit(&high_frame(&mut chip), 128), block(4, 0, 8, 1));
    assert_eq!(lit(&low_frame(&mut chip), 64), block(0, 0, 8, 1));
}

#[test]
fn render_leaves_rest_of_buffer() {
    let mut chip = booted(&[0xF0, 0x29, 0xD0, 0x05]);
    advance(&mut chip, 2);
    let mut frame = vec![0xDEAD_BEEFu32; 2048 + 10];
    chip.render_to_rgb_chip_buffer(&mut frame);
    assert_eq!(frame.len(), 2058);
    assert!(frame[2048..].iter().all(|pixel| *pixel == 0xDEAD_BEEF));
    assert_eq!(frame[0], ON);
    assert_eq!(frame[4], 0);
    assert_eq!(frame[64], ON);
    assert_eq!(frame[65], 0);
    let mut big = vec![0xDEAD_BEEFu32; 8192 + 3];
    chip.render_to_rgb_schip_buffer(&mut big);
    assert!(big[..8192].iter().all(|pixel| *pixel == 0));
    assert!(big[8192..].iter().all(|pixel| *pixel == 0xDEAD_BEEF));
}

#[test]
fn render_does_not_change_machine() {
    let mut chip = booted(&[0x61, 0x07, 0xF0, 0x29, 0xD0, 0x05]);
    advance(&mut chip, 3);
    let registers = *chip.registers();
    let pc = chip.program_counter();
    let first = low_frame(&mut chip);
    let second = low_frame(&mut chip);
    assert_eq!(first, second);
    assert_eq!(chip.registers(), &registers);
    assert_eq!(chip.program_counter(), pc);
}

#[test]
fn low_res_rows_are_packed_msb_first() {
    let mut rows = [0u64; 32];
    rows[0] = 0x8000_0000_0000_0000;
    rows[31] = 0x0000_0000_0000_0001;
    let mut frame = vec![7u32; 2048];
    render(&rows, &mut frame);
    assert_eq!(lit(&frame, 64), vec![(0, 0), (63, 31)]);
}

#[test]
fn high_res_rows_are_packed_msb_first() {
    let mut rows = [0u128; 64];
    rows[0] = 1u128 << 127;
    rows[63] = 1;
    rows[5] = 1u128 << 64;
    let mut frame = vec![7u32; 8192];
    render(&rows, &mut frame);
    assert_eq!(lit(&frame, 128), vec![(0, 0), (63, 5), (127, 63)]);
}

#[test]
fn low_res_place_shifts_and_clips() {
    assert_eq!(<u64 as PackedRow>::place(0xFF, false, 0), 0xFF00_0000_0000_0000);
    assert_eq!(<u64 as PackedRow>::place(0xFF, false, 56), 0xFF);
    assert_eq!(<u64 as PackedRow>::place(0xFF, false, 60), 0x0F);
    assert_eq!(<u64 as PackedRow>::place(0xFF, false, 63), 0x01);
    assert_eq!(<u64 as PackedRow>::place(0x8001, true, 0), 0x8001_0000_0000_0000);
    assert_eq!(<u64 as PackedRow>::place(0x8001, true, 48), 0x8001);
    assert_eq!(<u64 as PackedRow>::place(0x8001, true, 49), 0x4000);
    assert_eq!(<u64 as PackedRow>::place(0xFFFF, true, 63), 0x01);
}

#[test]
fn high_res_place_shifts_and_clips() {
    assert_eq!(<u128 as PackedRow>::place(0xFF, false, 0), 0xFFu128 << 120);
    assert_eq!(<u128 as PackedRow>::place(0xFF, false, 120), 0xFF);
    assert_eq!(<u128 as PackedRow>::place(0xFF, false, 124), 0x0F);
    assert_eq!(<u128 as PackedRow>::place(0x8001, true, 112), 0x8001);
    assert_eq!(<u128 as PackedRow>::place(0x8001, true, 0), 0x8001u128 << 112);
    assert_eq!(<u128 as PackedRow>::place(0xFFFF, true, 127), 0x01);
}

#[test]
fn row_operations_on_low_res_buffer() {
    let mut rows = [0u64; 32];
    rows[1] = 0xF000_0000_0000_000F;
    scroll_right(&mut rows);
    assert_eq!(rows[1], 0x0F00_0000_0000_0000);
    rows[1] = 0xF000_0000_0000_000F;
    scroll_left(&mut rows);
    assert_eq!(rows[1], 0x0000_0000_0000_00F0);
    scroll_down(&mut rows, 30);
    assert_eq!(rows[31], 0xF0);
    assert!(rows[..31].iter().all(|row| *row == 0));
    scroll_down(&mut rows, 1);
    assert!(rows.iter().all(|row| *row == 0));
    rows = [u64::MAX; 32];
    scroll_down(&mut rows, 32);
    assert!(rows.iter().all(|row| *row == 0));
    rows = [u64::MAX; 32];
    clear(&mut rows);
    assert!(rows.iter().all(|row| *row == 0));
}

#[test]
fn row_operations_on_high_res_buffer() {
    let mut rows = [0u128; 64];
    rows[2] = (0xFu128 << 124) | 0xF;
    scroll_right(&mut rows);
    assert_eq!(rows[2], 0xFu128 << 120);
    rows[2] = (0xFu128 << 124) | 0xF;
    scroll_left(&mut rows);
    assert_eq!(rows[2], 0xF0);
    scroll_down(&mut rows, 15);
    assert_eq!(rows[17], 0xF0);
    assert_eq!(rows[2], 0);
    scroll_down(&mut rows, 64);
    assert!(rows.iter().all(|row| *row == 0));
    rows = [u128::MAX; 64];
    clear(&mut rows);
    assert!(rows.iter().all(|row| *row == 0));
}

#[test]
fn draw_on_rows_directly() {
    let mut memory = [0u8; 4096];
    memory[0x300] = 0xFF;
    memory[0x301] = 0x81;
    let mut rows = [0u64; 32];
    assert!(!draw(&mut rows, &memory, 0x300, false, 2, 60, 31));
    assert_eq!(rows[31], 0x0F);
    assert!(rows[..31].iter().all(|row| *row == 0));
    assert!(draw(&mut rows, &memory, 0x301, false, 1, 56, 31));
    assert_eq!(rows[31], 0x8E);
    assert!(!draw(&mut rows, &memory, 0x300, false, 0, 0, 0));
    assert!(rows[..31].iter().all(|row| *row == 0));

    let mut big = [0u128; 64];
    assert!(!draw(&mut big, &memory, 0x300, true, 1, 120, 63));
    assert_eq!(big[63], 0xFF);
    assert!(draw(&mut big, &memory, 0x300, true, 1, 112, 63));
    assert_eq!(big[63], 0xFF81 ^ 0xFF);
}

#[test]
fn sprite_words_are_read_with_wrapping() {
    let mut memory = [0u8; 4096];
    memory[0xFFF] = 0x12;
    memory[0x000] = 0x34;
    memory[0x001] = 0x56;
    assert_eq!(read_sprite_word(&memory, 0xFFF, false, 0), 0x12);
    assert_eq!(read_sprite_word(&memory, 0xFFF, false, 1), 0x34);
    assert_eq!(read_sprite_word(&memory, 0xFFF, true, 0), 0x1234);
    assert_eq!(read_sprite_word(&memory, 0xFFD, true, 1), 0x1234);
    assert_eq!(read_sprite_word(&memory, 0xFFFF, false, 2), 0x56);
    assert_eq!(read_sprite_word(&memory, 0xFFFF, true, 31), 0);
}

#[test]
fn scroll_down_past_the_bottom_clears_everything() {
    let mut rows = [u64::MAX; 32];
    scroll_down(&mut rows, 33);
    assert!(rows.iter().all(|row| *row == 0));
    let mut big = [u128::MAX; 64];
    scroll_down(&mut big, usize::MAX);
    assert!(big.iter().all(|row| *row == 0));
}

#[test]
fn packed_row_of_64_pixels() {
    assert_eq!(<u64 as PackedRow>::columns(), 64);
    assert_eq!(<u64 as PackedRow>::blank(), 0);
    let row: u64 = 0x8000_0000_0000_0001;
    assert!(row.is_lit(0));
    assert!(!row.is_lit(1));
    assert!(row.is_lit(63));
    assert_eq!(row.scrolled_right(), 0x0800_0000_0000_0000);
    assert_eq!(row.scrolled_left(), 0x10);
    assert_eq!(row.blend(0x8000_0000_0000_0010), (0x11, true));
    assert_eq!(row.blend(0x10), (0x8000_0000_0000_0011, false));
    assert_eq!(row.blend(0), (row, false));
}

#[test]
fn packed_row_of_128_pixels() {
    assert_eq!(<u128 as PackedRow>::columns(), 128);
    assert_eq!(<u128 as PackedRow>::blank(), 0);
    let row: u128 = (1u128 << 127) | 1;
    assert!(row.is_lit(0));
    assert!(!row.is_lit(64));
    assert!(row.is_lit(127));
    assert_eq!(row.scrolled_right(), 1u128 << 123);
    assert_eq!(row.scrolled_left(), 0x10);
    assert_eq!(row.blend(1u128 << 127), (1, true));
    assert_eq!(row.blend(2), (row | 2, false));
}
