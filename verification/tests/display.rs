use chip8::{Chip8, Chip8Error};

fn with_font() -> Chip8 {
    let mut chip = Chip8::new(2024);
    chip.ld_fonts();
    chip
}

fn lit(chip: &Chip8) -> Vec<(usize, usize)> {
    let mut cells = Vec::new();
    for y in 0..32 {
        for x in 0..64 {
            if chip.pixel(x, y) == Some(true) {
                cells.push((x, y));
            }
        }
    }
    cells
}

fn draw_glyph(chip: &mut Chip8, digit: u8, x: u8, y: u8, rows: u16) -> Result<(), Chip8Error> {
    chip.set_register(0, digit).unwrap();
    chip.op_fx29(0xF029);
    chip.set_register(1, x).unwrap();
    chip.set_register(2, y).unwrap();
    chip.op_dxyn(0xD120 | rows)
}

#[test]
fn draw_glyph_zero_at_origin() {
    let mut chip = with_font();
    assert_eq!(draw_glyph(&mut chip, 0, 0, 0, 5), Ok(()));
    // F0 90 90 90 F0
    let expected = vec![
        (0, 0), (1, 0), (2, 0), (3, 0),
        (0, 1), (3, 1),
        (0, 2), (3, 2),
        (0, 3), (3, 3),
        (0, 4), (1, 4), (2, 4), (3, 4),
    ];
    assert_eq!(lit(&chip), expected);
    assert_eq!(chip.register(0xF), Ok(0));
    assert_eq!(chip.pc(), 0x200);
    assert_eq!(chip.index(), 0x50);
}

#[test]
fn draw_uses_most_significant_bit_first() {
    let mut chip = Chip8::new(1);
    chip.write_memory(0x300, 0b1000_0001).unwrap();
    chip.op_annn(0xA300);
    chip.set_register(1, 10).unwrap();
    chip.set_register(2, 20).unwrap();
    assert_eq!(chip.op_dxyn(0xD121), Ok(()));
    assert_eq!(lit(&chip), vec![(10, 20), (17, 20)]);
    assert_eq!(chip.framebuffer()[20 * 64 + 10], true);
    assert_eq!(chip.framebuffer()[20 * 64 + 17], true);
    assert_eq!(chip.framebuffer().iter().filter(|&&p| p).count(), 2);
}

#[test]
fn draw_stops_after_n_rows() {
    let mut chip = with_font();
    assert_eq!(draw_glyph(&mut chip, 0, 0, 0, 2), Ok(()));
    assert_eq!(lit(&chip), vec![(0, 0), (1, 0), (2, 0), (3, 0), (0, 1), (3, 1)]);
    let mut chip = with_font();
    assert_eq!(draw_glyph(&mut chip, 0, 0, 0, 0), Ok(()));
    assert_eq!(lit(&chip), vec![]);
    assert_eq!(chip.register(0xF), Ok(0));
}

#[test]
fn draw_twice_restores_the_display_and_reports_collision() {
    let mut chip = with_font();
    assert_eq!(draw_glyph(&mut chip, 7, 5, 9, 5), Ok(()));
    let before: Vec<bool> = chip.framebuffer().to_vec();
    assert_eq!(draw_glyph(&mut chip, 0xB, 6, 10, 5), Ok(()));
    let overlap = chip.register(0xF).unwrap();
    assert_eq!(overlap, 1);
    assert_ne!(chip.framebuffer().to_vec(), before);
    assert_eq!(draw_glyph(&mut chip, 0xB, 6, 10, 5), Ok(()));
    assert_eq!(chip.register(0xF), Ok(1));
    assert_eq!(chip.framebuffer().to_vec(), before);
}

#[test]
fn draw_twice_on_empty_display_clears_it() {
    for digit in 0..16u8 {
        let mut chip = with_font();
        assert_eq!(draw_glyph(&mut chip, digit, 60, 30, 5), Ok(()));
        assert_eq!(chip.register(0xF), Ok(0));
        assert!(!lit(&chip).is_empty());
        assert_eq!(draw_glyph(&mut chip, digit, 60, 30, 5), Ok(()));
        assert_eq!(chip.register(0xF), Ok(1));
        assert_eq!(lit(&chip), vec![]);
    }
}

#[test]
fn collision_reads_the_display_before_the_draw() {
    let mut chip = Chip8::new(1);
    chip.write_memory(0x300, 0b1100_0000).unwrap();
    chip.write_memory(0x301, 0b0110_0000).unwrap();
    chip.set_register(1, 0).unwrap();
    chip.set_register(2, 0).unwrap();
    chip.op_annn(0xA300);
    assert_eq!(chip.op_dxyn(0xD121), Ok(()));
    assert_eq!(lit(&chip), vec![(0, 0), (1, 0)]);
    assert_eq!(chip.register(0xF), Ok(0));
    // 0110 over 1100: the pixel at x = 1 goes off, x = 2 goes on
    chip.op_annn(0xA301);
    assert_eq!(chip.op_dxyn(0xD121), Ok(()));
    assert_eq!(lit(&chip), vec![(0, 0), (2, 0)]);
    assert_eq!(chip.register(0xF), Ok(1));
    // a sprite next to the lit pixels collides with nothing
    chip.set_register(1, 3).unwrap();
    chip.op_annn(0xA300);
    assert_eq!(chip.op_dxyn(0xD121), Ok(()));
    assert_eq!(lit(&chip), vec![(0, 0), (2, 0), (3, 0), (4, 0)]);
    assert_eq!(chip.register(0xF), Ok(0));
}

#[test]
fn sprite_wraps_around_both_edges() {
    let mut chip = with_font();
    assert_eq!(draw_glyph(&mut chip, 0, 62, 30, 5), Ok(()));
    let mut expected = vec![
        (62, 30), (63, 30), (0, 30), (1, 30),
        (62, 31), (1, 31),
        (62, 0), (1, 0),
        (62, 1), (1, 1),
        (62, 2), (63, 2), (0, 2), (1, 2),
    ];
    expected.sort_by_key(|&(x, y)| (y, x));
    assert_eq!(lit(&chip), expected);
}

#[test]
fn coordinates_are_taken_modulo_the_display_size() {
    let mut a = with_font();
    let mut b = with_font();
    assert_eq!(draw_glyph(&mut a, 3, 64 + 7, 32 * 3 + 4, 5), Ok(()));
    assert_eq!(draw_glyph(&mut b, 3, 7, 4, 5), Ok(()));
    assert_eq!(lit(&a), lit(&b));
    assert_eq!(a.pixel(7, 4), Some(true));
}

#[test]
fn sprite_that_leaves_memory_faults_and_draws_nothing() {
    let mut chip = Chip8::new(1);
    chip.write_memory(0xFFF, 0xFF).unwrap();
    chip.op_annn(0xAFFF);
    assert_eq!(chip.op_dxyn(0xD002), Err(Chip8Error::AddressOutOfRange));
    assert_eq!(lit(&chip), vec![]);
    assert_eq!(chip.op_dxyn(0xD001), Ok(()));
    assert_eq!(lit(&chip).len(), 8);
    assert_eq!(chip.op_dxyn(0xD000), Ok(()));
    assert_eq!(lit(&chip).len(), 8);
}

#[test]
fn draw_with_vf_as_coordinate_reads_it_before_the_flag_is_written() {
    let mut chip = Chip8::new(1);
    chip.write_memory(0x300, 0x80).unwrap();
    chip.op_annn(0xA300);
    chip.set_register(0xF, 9).unwrap();
    chip.set_register(2, 3).unwrap();
    assert_eq!(chip.op_dxyn(0xDF21), Ok(()));
    assert_eq!(lit(&chip), vec![(9, 3)]);
    assert_eq!(chip.register(0xF), Ok(0));
}

#[test]
fn clear_screen_turns_every_pixel_off() {
    let mut chip = with_font();
    draw_glyph(&mut chip, 8, 20, 10, 5).unwrap();
    draw_glyph(&mut chip, 8, 40, 20, 5).unwrap();
    assert!(!lit(&chip).is_empty());
    chip.op_00e0();
    assert_eq!(lit(&chip), vec![]);
    assert!(chip.framebuffer().iter().all(|&p| !p));
    assert_eq!(chip.read_memory(0x50), Ok(0xF0));
}

#[test]
fn pixel_outside_the_display_is_none() {
    let chip = Chip8::new(1);
    assert_eq!(chip.pixel(63, 31), Some(false));
    assert_eq!(chip.pixel(64, 0), None);
    assert_eq!(chip.pixel(0, 32), None);
    assert_eq!(chip.pixel(usize::MAX, usize::MAX), None);
}
