//! The machine itself: its storage, loading, the input and clock interfaces,
//! and the fetch-decode-execute cycle. The instruction handlers are in the
//! modules below this one.

use vstd::prelude::*;
use crate::error::Chip8Error;
use crate::instruction::{decode, decode_spec, Instruction};
use crate::laws::lemma_random_byte_matters_to_cxkk_alone;
use crate::model::{
    transition, MachineState, RunState, DISPLAY_HEIGHT, DISPLAY_WIDTH, FONT_8_5, FONT_ADDR,
    MAX_PROGRAM_LEN, MEMORY_SIZE, START_ADDR, TIMER_PERIOD_NANOS,
};
use crate::rng::{next_byte, seeded_rng};

pub mod alu;
pub mod flow;
pub mod storage;
pub mod display;

verus! {

/// A CHIP-8 machine. Its state is read and changed through its methods
/// alone, so that it always has the shape `MachineState::wf` describes; a
/// proof that holds a machine learns so from `use_type_invariant`.
pub struct Chip8 {
    gr: [u8; 16],
    memory: [u8; 4096],
    index: u16,
    pc: u16,
    stk: [u16; 16],
    sp: u8,
    delay_timer: u8,
    snd_timer: u8,
    keypad: [bool; 16],
    video: [bool; 2048],
    state: RunState,
    rng: rand::rngs::StdRng,
}

impl View for Chip8 {
    type V = MachineState;

    /// The state of the machine. The generator is no part of it.
    closed spec fn view(&self) -> MachineState {
        MachineState {
            memory: self.memory@,
            v: self.gr@,
            index: self.index,
            pc: self.pc,
            stack: Seq::new(self.sp as nat, |i: int| self.stk@[i]),
            delay_timer: self.delay_timer,
            sound_timer: self.snd_timer,
            keypad: self.keypad@,
            video: self.video@,
            run: self.state,
        }
    }
}

impl Chip8 {
    /// What holds of every machine at all times: its state has the shape
    /// of a machine.
    #[verifier::type_invariant]
    pub open spec fn inv(&self) -> bool {
        self@.wf()
    }

    /// A machine with everything zeroed, about to start at `START_ADDR`,
    /// whose generator is seeded with `seed`.
    pub fn new(seed: u64) -> (chip: Chip8)
        ensures
            chip@ == MachineState::initial(),
            chip@.wf(),
    {
        let chip = Chip8 {
            gr: [0u8;16],
            memory: [0u8;4096],
            index: 0,
            pc: START_ADDR,
            stk: [0u16;16],
            sp: 0,
            delay_timer: 0,
            snd_timer: 0,
            keypad: [false;16],
            video: [false;2048],
            state: RunState::Running,
            rng: seeded_rng(seed),
        };
        proof {
            let s = chip@;
            let i = MachineState::initial();
            assert(s.memory =~= i.memory);
            assert(s.v =~= i.v);
            assert(s.stack =~= i.stack);
            assert(s.keypad =~= i.keypad);
            assert(s.video =~= i.video);
        }
        chip
    }

    /// Writes the first `count` bytes of `bytes` to memory from `base` on.
    pub(crate) fn write_bytes(&mut self, base: usize, bytes: &[u8], count: usize)
        requires
            count <= bytes@.len(),
            base + count <= 4096,
        ensures
            final(self)@ == old(self)@.write_block(base as int, bytes@.take(count as int)),
    {
        proof {
            use_type_invariant(&*self);
            assert(self@.memory =~= old(self)@.write_block(base as int, bytes@.take(0)).memory);
        }
        let mut i: usize = 0;
        while i < count
            invariant
                i <= count <= bytes@.len(),
                base + count <= 4096,
                self@ == old(self)@.write_block(base as int, bytes@.take(i as int)),
            decreases count - i,
        {
            proof {
                use_type_invariant(&*self);
            }
            self.memory[base + i] = bytes[i];
            i = i + 1;
            assert(self@.memory =~= old(self)@.write_block(
                base as int,
                bytes@.take(i as int),
            ).memory);
        }
    }

    /// Copies the font glyphs into memory at `FONT_ADDR`.
    pub fn ld_fonts(&mut self)
        ensures
            final(self)@ == old(self)@.load_fonts(),
    {
        let font: [u8; 80] = FONT_8_5;
        self.write_bytes(FONT_ADDR as usize, font.as_slice(), 80);
        assert(font@.take(80) =~= FONT_8_5@);
    }

    /// Copies a program into memory at `START_ADDR`. A program of more than
    /// `MAX_PROGRAM_LEN` bytes is refused and nothing is written.
    pub fn ld_rom(&mut self, bytes: &[u8]) -> (r: Result<(), Chip8Error>)
        ensures
            transition(old(self)@, old(self)@.load_program(bytes@), r, final(self)@),
            r is Ok <==> bytes@.len() <= 3584,
    {
        if bytes.len() > MAX_PROGRAM_LEN {
            return Err(Chip8Error::ProgramTooLarge);
        }
        self.write_bytes(START_ADDR as usize, bytes, bytes.len());
        assert(bytes@.take(bytes@.len() as int) =~= bytes@);
        Ok(())
    }

    /// The value of register `x`.
    pub fn register(&self, x: usize) -> (r: Result<u8, Chip8Error>)
        ensures
            x < 16 ==> r == Ok::<u8, Chip8Error>(self@.v[x as int]),
            x >= 16 ==> r == Err::<u8, Chip8Error>(Chip8Error::RegisterIndexOutOfRange),
    {
        if x >= 16 {
            return Err(Chip8Error::RegisterIndexOutOfRange);
        }
        Ok(self.gr[x])
    }

    /// Sets register `x` to `value`.
    pub fn set_register(&mut self, x: usize, value: u8) -> (r: Result<(), Chip8Error>)
        ensures
            x < 16 ==> r is Ok && final(self)@ == old(self)@.set_v(x as u8, value),
            x >= 16 ==> r == Err::<(), Chip8Error>(Chip8Error::RegisterIndexOutOfRange)
                && final(self)@ == old(self)@,
    {
        proof {
            use_type_invariant(&*self);
        }
        if x >= 16 {
            return Err(Chip8Error::RegisterIndexOutOfRange);
        }
        self.gr[x] = value;
        Ok(())
    }

    /// The byte of memory at `addr`.
    pub fn read_memory(&self, addr: u16) -> (r: Result<u8, Chip8Error>)
        ensures
            addr < 4096 ==> r == Ok::<u8, Chip8Error>(self@.memory[addr as int]),
            addr >= 4096 ==> r == Err::<u8, Chip8Error>(Chip8Error::AddressOutOfRange),
    {
        if addr as usize >= MEMORY_SIZE {
            return Err(Chip8Error::AddressOutOfRange);
        }
        Ok(self.memory[addr as usize])
    }

    /// Sets the byte of memory at `addr` to `value`.
    pub fn write_memory(&mut self, addr: u16, value: u8) -> (r: Result<(), Chip8Error>)
        ensures
            addr < 4096 ==> r is Ok && final(self)@ == (MachineState {
                memory: old(self)@.memory.update(addr as int, value),
                ..old(self)@
            }),
            addr >= 4096 ==> r == Err::<(), Chip8Error>(Chip8Error::AddressOutOfRange)
                && final(self)@ == old(self)@,
    {
        proof {
            use_type_invariant(&*self);
        }
        if addr as usize >= MEMORY_SIZE {
            return Err(Chip8Error::AddressOutOfRange);
        }
        self.memory[addr as usize] = value;
        Ok(())
    }

    /// The index register.
    pub fn index(&self) -> (r: u16)
        ensures
            r == self@.index,
    {
        self.index
    }

    /// The program counter.
    pub fn pc(&self) -> (r: u16)
        ensures
            r == self@.pc,
    {
        self.pc
    }

    /// The number of calls in progress.
    pub fn stack_depth(&self) -> (r: usize)
        ensures
            r == self@.stack.len(),
            r <= 16,
    {
        proof {
            use_type_invariant(self);
        }
        self.sp as usize
    }

    /// The delay timer.
    pub fn delay_timer(&self) -> (r: u8)
        ensures
            r == self@.delay_timer,
    {
        self.delay_timer
    }

    /// The sound timer.
    pub fn sound_timer(&self) -> (r: u8)
        ensures
            r == self@.sound_timer,
    {
        self.snd_timer
    }

    /// Whether the machine runs or is suspended by a key wait.
    pub fn run_state(&self) -> (r: RunState)
        ensures
            r == self@.run,
    {
        self.state
    }

    /// Whether key `key` is down.
    pub fn key(&self, key: usize) -> (r: Result<bool, Chip8Error>)
        ensures
            key < 16 ==> r == Ok::<bool, Chip8Error>(self@.keypad[key as int]),
            key >= 16 ==> r == Err::<bool, Chip8Error>(Chip8Error::KeyIndexOutOfRange),
    {
        if key >= 16 {
            return Err(Chip8Error::KeyIndexOutOfRange);
        }
        Ok(self.keypad[key])
    }

    /// The pixel in column `x` of row `y` of the display, or `None` outside
    /// the 64 columns and 32 rows.
    pub fn pixel(&self, x: usize, y: usize) -> (r: Option<bool>)
        ensures
            x < 64 && y < 32 ==> r == Some(self@.video[y * 64 + x]),
            !(x < 64 && y < 32) ==> r is None,
    {
        if x >= DISPLAY_WIDTH || y >= DISPLAY_HEIGHT {
            return None;
        }
        Some(self.video[y * DISPLAY_WIDTH + x])
    }

    /// The whole display, row by row, for a renderer to read: the pixel in
    /// column `x` of row `y` is at `y * 64 + x`.
    pub fn framebuffer(&self) -> (r: &[bool; 2048])
        ensures
            r@ == self@.video,
    {
        &self.video
    }

    /// The input layer reports key `key` down (`pressed`) or up. If a key
    /// that was up goes down while the machine is suspended by a key wait,
    /// the waiting register takes the key's number and the machine runs again.
    pub fn set_key(&mut self, key: usize, pressed: bool) -> (r: Result<(), Chip8Error>)
        ensures
            key < 16 ==> r is Ok && final(self)@ == old(self)@.key_event(key as int, pressed),
            key >= 16 ==> r == Err::<(), Chip8Error>(Chip8Error::KeyIndexOutOfRange)
                && final(self)@ == old(self)@,
    {
        proof {
            use_type_invariant(&*self);
        }
        if key >= 16 {
            return Err(Chip8Error::KeyIndexOutOfRange);
        }
        let was_down: bool = self.keypad[key];
        match self.state {
            RunState::WaitingForKey(x) => {
                if pressed && !was_down {
                    self.state = RunState::Running;
                    self.gr[x as usize] = key as u8;
                    self.keypad[key] = true;
                } else {
                    assert(!was_down) by {
                        if was_down {
                            assert(self@.keypad[key as int]);
                        }
                    }
                    assert(self@.keypad.update(key as int, pressed) =~= self@.keypad);
                }
            },
            RunState::Running => {
                self.keypad[key] = pressed;
            },
        }
        Ok(())
    }

    /// One tick of the 60 Hz clock: each timer that is not zero goes down by
    /// one; a timer at zero stays there.
    pub fn tick_timers(&mut self)
        ensures
            final(self)@ == old(self)@.tick(),
    {
        proof {
            use_type_invariant(&*self);
        }
        if self.delay_timer > 0 {
            self.delay_timer = self.delay_timer - 1;
        }
        if self.snd_timer > 0 {
            self.snd_timer = self.snd_timer - 1;
        }
    }

    /// The host's clock check: `elapsed_nanos` is the time since the last
    /// tick. If that is at least `TIMER_PERIOD_NANOS` the timers tick once
    /// and `true` is returned: the host starts measuring anew. Otherwise
    /// nothing changes.
    pub fn update_timers(&mut self, elapsed_nanos: u64) -> (ticked: bool)
        ensures
            final(self)@ == old(self)@.after_elapsed(elapsed_nanos),
            ticked == (elapsed_nanos >= TIMER_PERIOD_NANOS),
    {
        if elapsed_nanos >= TIMER_PERIOD_NANOS {
            self.tick_timers();
            true
        } else {
            false
        }
    }

    /// The instruction word at the program counter: the byte there is its
    /// high half, the next byte its low half. A program counter whose word
    /// would not lie in memory is a fault. An odd program counter, which a
    /// jump or call to an odd address leaves, is no fault: the word is read
    /// where the program counter points.
    pub fn fetch(&self) -> (r: Result<u16, Chip8Error>)
        ensures
            r == self@.fetch(),
            r is Ok <==> self@.pc + 1 < 4096,
    {
        proof {
            use_type_invariant(self);
        }
        if self.pc >= 4095 {
            return Err(Chip8Error::AddressOutOfRange);
        }
        let hi: u8 = self.memory[self.pc as usize];
        let lo: u8 = self.memory[self.pc as usize + 1];
        Ok((hi as u16) * 256 + (lo as u16))
    }

    /// Executes the instruction word `opcode`: moves the program counter
    /// past it and does what the instruction says. `random` is the byte
    /// that `Cxkk` uses. A word that is no instruction is a fault; on any
    /// fault the machine is left as it was.
    pub fn execute(&mut self, opcode: u16, random: u8) -> (r: Result<(), Chip8Error>)
        ensures
            transition(old(self)@, old(self)@.execute(opcode, random), r, final(self)@),
            decode_spec(opcode) is None ==> r == Err::<(), Chip8Error>(
                Chip8Error::UnknownOpcode { opcode, pc: old(self)@.pc },
            ),
    {
        proof {
            use_type_invariant(&*self);
        }
        let instruction: Instruction = match decode(opcode) {
            Some(instruction) => instruction,
            None => {
                return Err(Chip8Error::UnknownOpcode { opcode, pc: self.pc });
            },
        };
        let pc: u16 = self.pc;
        self.pc = pc.wrapping_add(2);
        let r: Result<(), Chip8Error> = match instruction {
            Instruction::ClearScreen => {
                self.op_00e0();
                Ok(())
            },
            Instruction::Return => self.op_00ee(),
            Instruction::Jump { .. } => {
                self.op_1nnn(opcode);
                Ok(())
            },
            Instruction::Call { .. } => self.op_2nnn(opcode),
            Instruction::SkipEqImm { .. } => {
                self.op_3xkk(opcode);
                Ok(())
            },
            Instruction::SkipNeImm { .. } => {
                self.op_4xkk(opcode);
                Ok(())
            },
            Instruction::SkipEqReg { .. } => {
                self.op_5xy0(opcode);
                Ok(())
            },
            Instruction::LoadImm { .. } => {
                self.op_6xkk(opcode);
                Ok(())
            },
            Instruction::AddImm { .. } => {
                self.op_7xkk(opcode);
                Ok(())
            },
            Instruction::Move { .. } => {
                self.op_8xy0(opcode);
                Ok(())
            },
            Instruction::Or { .. } => {
                self.op_8xy1(opcode);
                Ok(())
            },
            Instruction::And { .. } => {
                self.op_8xy2(opcode);
                Ok(())
            },
            Instruction::Xor { .. } => {
                self.op_8xy3(opcode);
                Ok(())
            },
            Instruction::AddReg { .. } => {
                self.op_8xy4(opcode);
                Ok(())
            },
            Instruction::SubReg { .. } => {
                self.op_8xy5(opcode);
                Ok(())
            },
            Instruction::ShiftRight { .. } => {
                self.op_8xy6(opcode);
                Ok(())
            },
            Instruction::SubFrom { .. } => {
                self.op_8xy7(opcode);
                Ok(())
            },
            Instruction::ShiftLeft { .. } => {
                self.op_8xye(opcode);
                Ok(())
            },
            Instruction::SkipNeReg { .. } => {
                self.op_9xy0(opcode);
                Ok(())
            },
            Instruction::LoadIndex { .. } => {
                self.op_annn(opcode);
                Ok(())
            },
            Instruction::JumpOffset { .. } => {
                self.op_bnnn(opcode);
                Ok(())
            },
            Instruction::Random { .. } => {
                self.apply_random(opcode, random);
                Ok(())
            },
            Instruction::Draw { .. } => self.op_dxyn(opcode),
            Instruction::SkipKeyDown { .. } => self.op_ex9e(opcode),
            Instruction::SkipKeyUp { .. } => self.op_exa1(opcode),
            Instruction::ReadDelay { .. } => {
                self.op_fx07(opcode);
                Ok(())
            },
            Instruction::WaitKey { .. } => {
                self.op_fx0a(opcode);
                Ok(())
            },
            Instruction::SetDelay { .. } => {
                self.op_fx15(opcode);
                Ok(())
            },
            Instruction::SetSound { .. } => {
                self.op_fx18(opcode);
                Ok(())
            },
            Instruction::AddIndex { .. } => {
                self.op_fx1e(opcode);
                Ok(())
            },
            Instruction::FontGlyph { .. } => {
                self.op_fx29(opcode);
                Ok(())
            },
            Instruction::StoreBcd { .. } => self.op_fx33(opcode),
            Instruction::StoreRegs { .. } => self.op_fx55(opcode),
            Instruction::LoadRegs { .. } => self.op_fx65(opcode),
        };
        if r.is_err() {
            proof {
                use_type_invariant(&*self);
            }
            self.pc = pc;
        }
        r
    }

    /// One cycle with the random byte given. A suspended machine does
    /// nothing. A running one fetches the word at the program counter and
    /// executes it; on a fault it is left as it was.
    pub fn step(&mut self, random: u8) -> (r: Result<(), Chip8Error>)
        ensures
            transition(old(self)@, old(self)@.step(random), r, final(self)@),
    {
        match self.state {
            RunState::WaitingForKey(_) => Ok(()),
            RunState::Running => match self.fetch() {
                Err(e) => Err(e),
                Ok(opcode) => self.execute(opcode, random),
            },
        }
    }

    /// Whether the next cycle is a `Cxkk`.
    fn wants_random(&self) -> (r: bool)
        ensures
            r == self@.draws_random(),
    {
        match self.state {
            RunState::WaitingForKey(_) => false,
            RunState::Running => match self.fetch() {
                Err(_) => false,
                Ok(opcode) => match decode(opcode) {
                    Some(Instruction::Random { .. }) => true,
                    _ => false,
                },
            },
        }
    }

    /// One cycle. The machine's generator is asked for a byte only when the
    /// instruction is `Cxkk`; whichever byte it gives, the cycle is `step`
    /// with that byte. Every other cycle is `step` whatever the byte.
    pub fn cycle(&mut self) -> (r: Result<(), Chip8Error>)
        ensures
            exists|random: u8| #[trigger]
                transition(old(self)@, old(self)@.step(random), r, final(self)@),
            !old(self)@.draws_random() ==> forall|random: u8| #[trigger]
                transition(old(self)@, old(self)@.step(random), r, final(self)@),
    {
        proof {
            use_type_invariant(&*self);
        }
        let random: u8 = if self.wants_random() {
            next_byte(&mut self.rng)
        } else {
            0
        };
        let r: Result<(), Chip8Error> = self.step(random);
        proof {
            assert(transition(old(self)@, old(self)@.step(random), r, self@));
            if !old(self)@.draws_random() {
                assert forall|other: u8| #[trigger]
                    transition(old(self)@, old(self)@.step(other), r, self@) by {
                    lemma_random_byte_matters_to_cxkk_alone(old(self)@, other, random);
                }
            }
        }
        r
    }
}

} // verus!
