use chip8::{decode, Chip8, Chip8Error, Instruction, RunState};

fn loaded(program: &[u8]) -> Chip8 {
    let mut chip = Chip8::new(0xABCDEF);
    chip.ld_fonts();
    chip.ld_rom(program).unwrap();
    chip
}

#[test]
fn fetch_reads_a_big_endian_word() {
    let chip = loaded(&[0x12, 0x34, 0xAB, 0xCD]);
    assert_eq!(chip.fetch(), Ok(0x1234));
    assert_eq!(chip.pc(), 0x200);
}

#[test]
fn fetch_at_the_end_of_memory() {
    let mut chip = loaded(&[]);
    chip.write_memory(0xFFE, 0x6A).unwrap();
    chip.write_memory(0xFFF, 0xBC).unwrap();
    chip.op_1nnn(0x1FFE);
    assert_eq!(chip.fetch(), Ok(0x6ABC));
    assert_eq!(chip.cycle(), Ok(()));
    assert_eq!(chip.pc(), 0x1000);
    assert_eq!(chip.register(0xA), Ok(0xBC));
    assert_eq!(chip.fetch(), Err(Chip8Error::AddressOutOfRange));
    assert_eq!(chip.cycle(), Err(Chip8Error::AddressOutOfRange));
    assert_eq!(chip.pc(), 0x1000);
    chip.op_1nnn(0x1FFF);
    assert_eq!(chip.fetch(), Err(Chip8Error::AddressOutOfRange));
    assert_eq!(chip.step(0), Err(Chip8Error::AddressOutOfRange));
    assert_eq!(chip.pc(), 0xFFF);
}

#[test]
fn fetch_at_an_odd_address() {
    let mut chip = loaded(&[0x00, 0x61, 0x2A, 0x00]);
    chip.op_1nnn(0x1201);
    assert_eq!(chip.fetch(), Ok(0x612A));
    assert_eq!(chip.cycle(), Ok(()));
    assert_eq!(chip.register(1), Ok(0x2A));
    assert_eq!(chip.pc(), 0x203);
}

#[test]
fn cycle_executes_one_instruction_and_advances() {
    // V1 = 5; V2 = 3; V1 -= V2; I = 0x300; store BCD of V1
    let mut chip = loaded(&[0x61, 0x05, 0x62, 0x03, 0x81, 0x25, 0xA3, 0x00, 0xF1, 0x33]);
    for step in 1..=5u16 {
        assert_eq!(chip.cycle(), Ok(()));
        assert_eq!(chip.pc(), 0x200 + 2 * step);
    }
    assert_eq!(chip.register(1), Ok(2));
    assert_eq!(chip.register(2), Ok(3));
    assert_eq!(chip.register(0xF), Ok(1));
    assert_eq!(chip.index(), 0x300);
    assert_eq!(chip.read_memory(0x302), Ok(2));
}

#[test]
fn unknown_opcode_names_the_word_and_the_program_counter() {
    let mut chip = loaded(&[0x61, 0x05, 0x51, 0x21]);
    assert_eq!(chip.cycle(), Ok(()));
    assert_eq!(chip.cycle(), Err(Chip8Error::UnknownOpcode { opcode: 0x5121, pc: 0x202 }));
    assert_eq!(chip.pc(), 0x202);
    assert_eq!(chip.register(1), Ok(5));
    assert_eq!(chip.cycle(), Err(Chip8Error::UnknownOpcode { opcode: 0x5121, pc: 0x202 }));
}

#[test]
fn empty_memory_is_an_unknown_opcode() {
    let mut chip = Chip8::new(3);
    assert_eq!(chip.cycle(), Err(Chip8Error::UnknownOpcode { opcode: 0x0000, pc: 0x200 }));
    assert_eq!(chip.step(7), Err(Chip8Error::UnknownOpcode { opcode: 0x0000, pc: 0x200 }));
    assert_eq!(chip.pc(), 0x200);
}

#[test]
fn execute_advances_the_program_counter_first() {
    let mut chip = Chip8::new(3);
    assert_eq!(chip.execute(0x6A12, 0), Ok(()));
    assert_eq!(chip.pc(), 0x202);
    assert_eq!(chip.register(0xA), Ok(0x12));
    assert_eq!(chip.execute(0x2500, 0), Ok(()));
    assert_eq!(chip.pc(), 0x500);
    assert_eq!(chip.execute(0x00EE, 0), Ok(()));
    assert_eq!(chip.pc(), 0x204);
    assert_eq!(chip.execute(0x3A12, 0), Ok(()));
    assert_eq!(chip.pc(), 0x208);
    assert_eq!(chip.execute(0xFFFF, 0), Err(Chip8Error::UnknownOpcode { opcode: 0xFFFF, pc: 0x208 }));
    assert_eq!(chip.pc(), 0x208);
}

#[test]
fn faults_in_a_cycle_leave_the_machine_as_it_was() {
    // I = 0xFFF; V0 = 1; I += V0; store V0 at I
    let mut chip = loaded(&[0xAF, 0xFF, 0x60, 0x01, 0xF0, 0x1E, 0xF0, 0x55]);
    for _ in 0..3 {
        assert_eq!(chip.cycle(), Ok(()));
    }
    assert_eq!(chip.index(), 0x1000);
    assert_eq!(chip.pc(), 0x206);
    assert_eq!(chip.cycle(), Err(Chip8Error::AddressOutOfRange));
    assert_eq!(chip.pc(), 0x206);
    assert_eq!(chip.index(), 0x1000);
    assert_eq!(chip.register(0), Ok(1));
}

#[test]
fn stack_faults_in_a_cycle() {
    let mut chip = loaded(&[0x00, 0xEE]);
    assert_eq!(chip.cycle(), Err(Chip8Error::StackUnderflow));
    assert_eq!(chip.pc(), 0x200);
    // a call to itself: seventeen of them overflow
    let mut chip = loaded(&[0x22, 0x00]);
    for depth in 1..=16 {
        assert_eq!(chip.cycle(), Ok(()));
        assert_eq!(chip.stack_depth(), depth);
    }
    assert_eq!(chip.cycle(), Err(Chip8Error::StackOverflow));
    assert_eq!(chip.stack_depth(), 16);
    assert_eq!(chip.pc(), 0x200);
}

#[test]
fn random_instruction_in_a_cycle_is_masked() {
    let mut chip = loaded(&[0xC1, 0x0F, 0x12, 0x00]);
    for _ in 0..100 {
        assert_eq!(chip.cycle(), Ok(()));
        assert_eq!(chip.register(1).unwrap() & 0xF0, 0);
        assert_eq!(chip.pc(), 0x202);
        assert_eq!(chip.cycle(), Ok(()));
        assert_eq!(chip.pc(), 0x200);
    }
}

#[test]
fn step_uses_the_given_byte_for_random() {
    let mut chip = loaded(&[0xC1, 0x3C]);
    assert_eq!(chip.step(0xFF), Ok(()));
    assert_eq!(chip.register(1), Ok(0x3C));
    let mut chip = loaded(&[0xC1, 0x3C]);
    assert_eq!(chip.step(0x0F), Ok(()));
    assert_eq!(chip.register(1), Ok(0x0C));
}

#[test]
fn a_program_draws_a_digit() {
    // V0 = 4; I = glyph of V0; V1 = 2; V2 = 3; draw 5 rows at (V1, V2); jump to self
    let mut chip =
        loaded(&[0x60, 0x04, 0xF0, 0x29, 0x61, 0x02, 0x62, 0x03, 0xD1, 0x25, 0x12, 0x0A]);
    for _ in 0..20 {
        assert_eq!(chip.cycle(), Ok(()));
    }
    assert_eq!(chip.pc(), 0x20A);
    assert_eq!(chip.index(), 0x50 + 20);
    // glyph 4: 90 90 F0 10 10
    let rows: [u8; 5] = [0x90, 0x90, 0xF0, 0x10, 0x10];
    for y in 0..32usize {
        for x in 0..64usize {
            let expected = (3..8).contains(&y)
                && (2..10).contains(&x)
                && rows[y - 3] & (0x80 >> (x - 2)) != 0;
            assert_eq!(chip.pixel(x, y), Some(expected));
        }
    }
    assert_eq!(chip.run_state(), RunState::Running);
}

#[test]
fn decode_every_instruction() {
    let table: [(u16, Instruction); 34] = [
        (0x00E0, Instruction::ClearScreen),
        (0x00EE, Instruction::Return),
        (0x1ABC, Instruction::Jump { nnn: 0xABC }),
        (0x2ABC, Instruction::Call { nnn: 0xABC }),
        (0x3A12, Instruction::SkipEqImm { x: 0xA, kk: 0x12 }),
        (0x4A12, Instruction::SkipNeImm { x: 0xA, kk: 0x12 }),
        (0x5AB0, Instruction::SkipEqReg { x: 0xA, y: 0xB }),
        (0x6A12, Instruction::LoadImm { x: 0xA, kk: 0x12 }),
        (0x7A12, Instruction::AddImm { x: 0xA, kk: 0x12 }),
        (0x8AB0, Instruction::Move { x: 0xA, y: 0xB }),
        (0x8AB1, Instruction::Or { x: 0xA, y: 0xB }),
        (0x8AB2, Instruction::And { x: 0xA, y: 0xB }),
        (0x8AB3, Instruction::Xor { x: 0xA, y: 0xB }),
        (0x8AB4, Instruction::AddReg { x: 0xA, y: 0xB }),
        (0x8AB5, Instruction::SubReg { x: 0xA, y: 0xB }),
        (0x8AB6, Instruction::ShiftRight { x: 0xA }),
        (0x8AB7, Instruction::SubFrom { x: 0xA, y: 0xB }),
        (0x8ABE, Instruction::ShiftLeft { x: 0xA }),
        (0x9AB0, Instruction::SkipNeReg { x: 0xA, y: 0xB }),
        (0xA123, Instruction::LoadIndex { nnn: 0x123 }),
        (0xB123, Instruction::JumpOffset { nnn: 0x123 }),
        (0xC1FE, Instruction::Random { x: 1, kk: 0xFE }),
        (0xD125, Instruction::Draw { x: 1, y: 2, n: 5 }),
        (0xE19E, Instruction::SkipKeyDown { x: 1 }),
        (0xE1A1, Instruction::SkipKeyUp { x: 1 }),
        (0xF107, Instruction::ReadDelay { x: 1 }),
        (0xF10A, Instruction::WaitKey { x: 1 }),
        (0xF115, Instruction::SetDelay { x: 1 }),
        (0xF118, Instruction::SetSound { x: 1 }),
        (0xF11E, Instruction::AddIndex { x: 1 }),
        (0xF129, Instruction::FontGlyph { x: 1 }),
        (0xF133, Instruction::StoreBcd { x: 1 }),
        (0xF155, Instruction::StoreRegs { x: 1 }),
        (0xF165, Instruction::LoadRegs { x: 1 }),
    ];
    for (opcode, instruction) in table {
        assert_eq!(decode(opcode), Some(instruction));
    }
}

#[test]
fn decode_rejects_every_other_word() {
    for opcode in [
        0x0000u16, 0x00E1, 0x00EF, 0x0123, 0x0FFF, 0x5121, 0x512F, 0x8128, 0x812D, 0x812F, 0x9121,
        0xE100, 0xE19F, 0xE1A0, 0xF100, 0xF108, 0xF130, 0xF156, 0xF1FF,
    ] {
        assert_eq!(decode(opcode), None);
    }
    let known = (0..=0xFFFFu16).filter(|&w| decode(w).is_some()).count();
    // 00E0 and 00EE; the families 1, 2, 3, 4, 6, 7, A, B, C, D whole; 5xy0 and
    // 9xy0; nine kinds of 8xy_; two of Ex__; nine of Fx__
    assert_eq!(known, 2 + 10 * 4096 + 2 * 256 + 9 * 256 + 2 * 16 + 9 * 16);
    assert_eq!(known, 43954);
}

#[test]
fn decoded_operands_name_registers() {
    for opcode in 0..=0xFFFFu16 {
        match decode(opcode) {
            Some(Instruction::Draw { x, y, n }) => assert!(x < 16 && y < 16 && n < 16),
            Some(Instruction::AddReg { x, y }) => assert!(x < 16 && y < 16),
            Some(Instruction::LoadImm { x, .. }) => assert!(x < 16),
            Some(Instruction::Jump { nnn }) => assert!(nnn < 0x1000),
            _ => {}
        }
    }
}

#[test]
fn error_kinds_are_recoverable_or_fatal() {
    let recoverable =
        [Chip8Error::RomNotFound, Chip8Error::RomReadFailure, Chip8Error::ProgramTooLarge];
    let fatal = [
        Chip8Error::UnknownOpcode { opcode: 0xFFFF, pc: 0x200 },
        Chip8Error::StackOverflow,
        Chip8Error::StackUnderflow,
        Chip8Error::AddressOutOfRange,
        Chip8Error::RegisterIndexOutOfRange,
        Chip8Error::KeyIndexOutOfRange,
    ];
    for e in recoverable {
        assert!(e.is_recoverable());
        assert!(!e.is_fatal());
    }
    for e in fatal {
        assert!(!e.is_recoverable());
        assert!(e.is_fatal());
    }
}

#[test]
fn execute_reaches_every_instruction() {
    let mut chip = loaded(&[]);
    let mut run = |chip: &mut Chip8, opcode: u16| assert_eq!(chip.execute(opcode, 0xA5), Ok(()));
    run(&mut chip, 0x6105);
    run(&mut chip, 0x6203);
    assert_eq!((chip.register(1), chip.register(2)), (Ok(5), Ok(3)));
    run(&mut chip, 0x7110);
    assert_eq!(chip.register(1), Ok(0x15));
    run(&mut chip, 0x8320);
    assert_eq!(chip.register(3), Ok(3));
    run(&mut chip, 0x8311);
    assert_eq!(chip.register(3), Ok(0x17));
    run(&mut chip, 0x8322);
    assert_eq!(chip.register(3), Ok(0x03));
    run(&mut chip, 0x8313);
    assert_eq!(chip.register(3), Ok(0x16));
    run(&mut chip, 0x8314);
    assert_eq!((chip.register(3), chip.register(0xF)), (Ok(0x2B), Ok(0)));
    run(&mut chip, 0x8325);
    assert_eq!((chip.register(3), chip.register(0xF)), (Ok(0x28), Ok(1)));
    run(&mut chip, 0x8306);
    assert_eq!((chip.register(3), chip.register(0xF)), (Ok(0x14), Ok(0)));
    run(&mut chip, 0x8317);
    assert_eq!((chip.register(3), chip.register(0xF)), (Ok(0x01), Ok(1)));
    run(&mut chip, 0x830E);
    assert_eq!((chip.register(3), chip.register(0xF)), (Ok(0x02), Ok(0)));
    run(&mut chip, 0xC43C);
    assert_eq!(chip.register(4), Ok(0xA5 & 0x3C));
    assert_eq!(chip.pc(), 0x200 + 2 * 13);

    run(&mut chip, 0x1300);
    assert_eq!(chip.pc(), 0x300);
    run(&mut chip, 0x2400);
    assert_eq!((chip.pc(), chip.stack_depth()), (0x400, 1));
    run(&mut chip, 0x00EE);
    assert_eq!((chip.pc(), chip.stack_depth()), (0x302, 0));
    run(&mut chip, 0x3203);
    assert_eq!(chip.pc(), 0x306);
    run(&mut chip, 0x4203);
    assert_eq!(chip.pc(), 0x308);
    run(&mut chip, 0x5120);
    assert_eq!(chip.pc(), 0x30A);
    run(&mut chip, 0x9120);
    assert_eq!(chip.pc(), 0x30E);
    run(&mut chip, 0x6004);
    run(&mut chip, 0xB500);
    assert_eq!(chip.pc(), 0x504);

    run(&mut chip, 0xA123);
    assert_eq!(chip.index(), 0x123);
    run(&mut chip, 0xF11E);
    assert_eq!(chip.index(), 0x123 + 0x15);
    run(&mut chip, 0xF115);
    run(&mut chip, 0xF218);
    assert_eq!((chip.delay_timer(), chip.sound_timer()), (0x15, 3));
    run(&mut chip, 0xF507);
    assert_eq!(chip.register(5), Ok(0x15));
    run(&mut chip, 0xA600);
    run(&mut chip, 0xF133);
    assert_eq!(chip.read_memory(0x601), Ok(2));
    run(&mut chip, 0xA610);
    run(&mut chip, 0xF255);
    assert_eq!(chip.read_memory(0x612), Ok(3));
    run(&mut chip, 0xA601);
    run(&mut chip, 0xF065);
    assert_eq!(chip.register(0), Ok(2));
    run(&mut chip, 0xF029);
    assert_eq!(chip.index(), 0x50 + 10);
    run(&mut chip, 0xD005);
    assert_eq!(chip.pixel(2, 2), Some(true));
    run(&mut chip, 0x00E0);
    assert_eq!(chip.pixel(2, 2), Some(false));

    run(&mut chip, 0x6607);
    run(&mut chip, 0xE69E);
    let pc = chip.pc();
    run(&mut chip, 0xE6A1);
    assert_eq!(chip.pc(), pc + 4);
    run(&mut chip, 0xF80A);
    assert_eq!(chip.run_state(), RunState::WaitingForKey(8));
}
