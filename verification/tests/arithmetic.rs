use chip8::{Chip8, Chip8Error};

fn with_registers(values: &[(usize, u8)]) -> Chip8 {
    let mut chip = Chip8::new(0x5EED);
    for &(x, value) in values {
        chip.set_register(x, value).unwrap();
    }
    chip
}

fn v(chip: &Chip8, x: usize) -> u8 {
    chip.register(x).unwrap()
}

#[test]
fn load_immediate_sets_only_the_named_register() {
    let mut chip = with_registers(&[]);
    chip.op_6xkk(0x6A7F);
    for x in 0..16 {
        assert_eq!(v(&chip, x), if x == 0xA { 0x7F } else { 0 });
    }
    assert_eq!(chip.pc(), 0x200);
}

#[test]
fn add_immediate_wraps_and_leaves_the_flag() {
    let table: [(u8, u16, u8); 4] =
        [(0x00, 0x7305, 0x05), (0xFF, 0x7302, 0x01), (0x80, 0x7380, 0x00), (0x10, 0x7300, 0x10)];
    for (start, opcode, expected) in table {
        let mut chip = with_registers(&[(3, start), (0xF, 0x55)]);
        chip.op_7xkk(opcode);
        assert_eq!(v(&chip, 3), expected);
        assert_eq!(v(&chip, 0xF), 0x55);
    }
}

#[test]
fn move_or_and_xor() {
    let mut chip = with_registers(&[(1, 0b1100_1010), (2, 0b1010_0110)]);
    chip.op_8xy0(0x8320);
    assert_eq!(v(&chip, 3), 0b1010_0110);

    let mut chip = with_registers(&[(1, 0b1100_1010), (2, 0b1010_0110)]);
    chip.op_8xy1(0x8121);
    assert_eq!(v(&chip, 1), 0b1110_1110);
    assert_eq!(v(&chip, 2), 0b1010_0110);

    let mut chip = with_registers(&[(1, 0b1100_1010), (2, 0b1010_0110)]);
    chip.op_8xy2(0x8122);
    assert_eq!(v(&chip, 1), 0b1000_0010);

    let mut chip = with_registers(&[(1, 0b1100_1010), (2, 0b1010_0110)]);
    chip.op_8xy3(0x8123);
    assert_eq!(v(&chip, 1), 0b0110_1100);
}

#[test]
fn add_registers_sets_carry() {
    let table: [(u8, u8, u8, u8); 5] = [
        (1, 2, 3, 0),
        (200, 100, 44, 1),
        (255, 1, 0, 1),
        (255, 0, 255, 0),
        (128, 128, 0, 1),
    ];
    for (a, b, sum, carry) in table {
        let mut chip = with_registers(&[(4, a), (5, b), (0xF, 9)]);
        chip.op_8xy4(0x8454);
        assert_eq!(v(&chip, 4), sum);
        assert_eq!(v(&chip, 5), b);
        assert_eq!(v(&chip, 0xF), carry);
    }
}

#[test]
fn add_registers_into_vf_keeps_the_carry() {
    let mut chip = with_registers(&[(0xF, 200), (1, 100)]);
    chip.op_8xy4(0x8F14);
    assert_eq!(v(&chip, 0xF), 1);
    let mut chip = with_registers(&[(0xF, 20), (1, 10)]);
    chip.op_8xy4(0x8F14);
    assert_eq!(v(&chip, 0xF), 0);
}

#[test]
fn subtract_sets_no_borrow_flag() {
    let table: [(u8, u8, u8, u8); 5] =
        [(5, 3, 2, 1), (3, 5, 254, 0), (7, 7, 0, 1), (0, 1, 255, 0), (255, 0, 255, 1)];
    for (a, b, difference, flag) in table {
        let mut chip = with_registers(&[(1, a), (2, b)]);
        chip.op_8xy5(0x8125);
        assert_eq!(v(&chip, 1), difference);
        assert_eq!(v(&chip, 2), b);
        assert_eq!(v(&chip, 0xF), flag);
    }
}

#[test]
fn subtract_into_vf_keeps_the_difference() {
    let mut chip = with_registers(&[(0xF, 9), (1, 4)]);
    chip.op_8xy5(0x8F15);
    assert_eq!(v(&chip, 0xF), 5);
    let mut chip = with_registers(&[(3, 9), (0xF, 4)]);
    chip.op_8xy5(0x83F5);
    assert_eq!(v(&chip, 3), 5);
    assert_eq!(v(&chip, 0xF), 1);
}

#[test]
fn reverse_subtract_sets_no_borrow_flag() {
    let table: [(u8, u8, u8, u8); 4] = [(3, 5, 2, 1), (5, 3, 254, 0), (7, 7, 0, 1), (1, 0, 255, 0)];
    for (a, b, difference, flag) in table {
        let mut chip = with_registers(&[(1, a), (2, b)]);
        chip.op_8xy7(0x8127);
        assert_eq!(v(&chip, 1), difference);
        assert_eq!(v(&chip, 2), b);
        assert_eq!(v(&chip, 0xF), flag);
    }
}

#[test]
fn shift_right_moves_the_low_bit_to_vf() {
    let table: [(u8, u8, u8); 4] = [(5, 2, 1), (4, 2, 0), (0xFF, 0x7F, 1), (0, 0, 0)];
    for (a, shifted, bit) in table {
        let mut chip = with_registers(&[(6, a), (7, 0xAA)]);
        chip.op_8xy6(0x8676);
        assert_eq!(v(&chip, 6), shifted);
        assert_eq!(v(&chip, 7), 0xAA);
        assert_eq!(v(&chip, 0xF), bit);
    }
}

#[test]
fn shift_left_moves_the_high_bit_to_vf() {
    let table: [(u8, u8, u8); 4] = [(0x81, 0x02, 1), (0x40, 0x80, 0), (0xFF, 0xFE, 1), (0, 0, 0)];
    for (a, shifted, bit) in table {
        let mut chip = with_registers(&[(6, a), (7, 0xAA)]);
        chip.op_8xye(0x867E);
        assert_eq!(v(&chip, 6), shifted);
        assert_eq!(v(&chip, 7), 0xAA);
        assert_eq!(v(&chip, 0xF), bit);
    }
}

#[test]
fn shifts_of_vf_keep_the_shifted_value() {
    let mut chip = with_registers(&[(0xF, 0x07)]);
    chip.op_8xy6(0x8F06);
    assert_eq!(v(&chip, 0xF), 0x03);
    let mut chip = with_registers(&[(0xF, 0x83)]);
    chip.op_8xye(0x8F0E);
    assert_eq!(v(&chip, 0xF), 0x06);
}

#[test]
fn random_with_given_byte_is_masked() {
    let table: [(u8, u16, u8); 4] =
        [(0xFF, 0xC20F, 0x0F), (0xA5, 0xC2F0, 0xA0), (0x3C, 0xC2FF, 0x3C), (0xFF, 0xC200, 0x00)];
    for (byte, opcode, expected) in table {
        let mut chip = with_registers(&[(2, 0x77)]);
        chip.apply_random(opcode, byte);
        assert_eq!(v(&chip, 2), expected);
    }
}

#[test]
fn random_from_the_generator_is_masked() {
    let mut chip = with_registers(&[]);
    for _ in 0..200 {
        chip.op_cxkk(0xC30F);
        assert_eq!(v(&chip, 3) & 0xF0, 0);
        chip.op_cxkk(0xC400);
        assert_eq!(v(&chip, 4), 0);
    }
    assert_eq!(chip.pc(), 0x200);
}

#[test]
fn random_from_the_generator_varies() {
    let mut chip = with_registers(&[]);
    let mut seen = [false; 256];
    for _ in 0..4096 {
        chip.op_cxkk(0xC5FF);
        seen[v(&chip, 5) as usize] = true;
    }
    let distinct = seen.iter().filter(|&&hit| hit).count();
    assert!(distinct > 128);
}

#[test]
fn same_seed_gives_the_same_machine() {
    let mut a = Chip8::new(42);
    let mut b = Chip8::new(42);
    for _ in 0..32 {
        a.op_cxkk(0xC1FF);
        b.op_cxkk(0xC1FF);
        assert_eq!(a.register(1), b.register(1));
    }
}

#[test]
fn register_accessors_are_bounds_checked() {
    let mut chip = with_registers(&[]);
    assert_eq!(chip.set_register(15, 7), Ok(()));
    assert_eq!(chip.register(15), Ok(7));
    assert_eq!(chip.set_register(16, 7), Err(Chip8Error::RegisterIndexOutOfRange));
    assert_eq!(chip.register(16), Err(Chip8Error::RegisterIndexOutOfRange));
    assert_eq!(chip.register(usize::MAX), Err(Chip8Error::RegisterIndexOutOfRange));
}
