//! The mathematical model of the machine. A `MachineState` is what a machine
//! is at one moment; every operation of the machine is a function from one
//! state to the next, or to the fault that the operation raises.

use vstd::prelude::*;
use crate::error::Chip8Error;
use crate::instruction::{decode_spec, Instruction};

verus! {

/// Number of bytes of memory.
pub const MEMORY_SIZE: usize = 4096;

/// Where a program is loaded and where execution starts.
pub const START_ADDR: u16 = 0x200;

/// Where the font glyphs are loaded.
pub const FONT_ADDR: u16 = 0x50;

/// The longest program that fits between `START_ADDR` and the end of memory.
pub const MAX_PROGRAM_LEN: usize = 3584;

/// Number of return addresses the call stack holds.
pub const STACK_DEPTH: usize = 16;

/// Width of the display in pixels.
pub const DISPLAY_WIDTH: usize = 64;

/// Height of the display in pixels.
pub const DISPLAY_HEIGHT: usize = 32;

/// The timers count down once per sixtieth of a second: the first whole
/// number of nanoseconds that is no less than 1/60 s.
pub const TIMER_PERIOD_NANOS: u64 = 16_666_667;

/// The glyphs of the sixteen hexadecimal digits, five rows of eight pixels each.
pub const FONT_8_5: [u8; 80] = [
    0xF0, 0x90, 0x90, 0x90, 0xF0, 0x20, 0x60, 0x20, 0x20, 0x70, 0xF0, 0x10, 0xF0, 0x80, 0xF0, 0xF0,
    0x10, 0xF0, 0x10, 0xF0, 0x90, 0x90, 0xF0, 0x10, 0x10, 0xF0, 0x80, 0xF0, 0x10, 0xF0, 0xF0, 0x80,
    0xF0, 0x90, 0xF0, 0xF0, 0x10, 0x20, 0x40, 0x40, 0xF0, 0x90, 0xF0, 0x90, 0xF0, 0xF0, 0x90, 0xF0,
    0x10, 0xF0, 0xF0, 0x90, 0xF0, 0x90, 0x90, 0xE0, 0x90, 0xE0, 0x90, 0xE0, 0xF0, 0x80, 0x80, 0x80,
    0xF0, 0xE0, 0x90, 0x90, 0x90, 0xE0, 0xF0, 0x80, 0xF0, 0x80, 0xF0, 0xF0, 0x80, 0xF0, 0x80, 0x80,
];

/// Whether the machine executes instructions or is suspended by a key wait.
#[derive(Clone, Copy, Debug, PartialEq, Eq)]
pub enum RunState {
    /// Each cycle executes one instruction.
    Running,
    /// No instruction executes until a key goes down; the key's number is
    /// stored in the register named here.
    WaitingForKey(u8),
}

/// Whether bit `col` of a sprite row is on, counted from the most significant bit.
pub open spec fn sprite_bit(row: u8, col: int) -> bool {
    row & (0x80u8 >> (col as u8)) != 0
}

/// The state of a machine.
pub struct MachineState {
    /// The 4096 bytes of memory.
    pub memory: Seq<u8>,
    /// The registers V0 to VF.
    pub v: Seq<u8>,
    /// The index register.
    pub index: u16,
    /// The program counter.
    pub pc: u16,
    /// The return addresses of the calls in progress, the latest last.
    pub stack: Seq<u16>,
    /// The delay timer.
    pub delay_timer: u8,
    /// The sound timer.
    pub sound_timer: u8,
    /// Which of the sixteen keys are down.
    pub keypad: Seq<bool>,
    /// The display, row by row: pixel (x, y) is at `y * 64 + x`.
    pub video: Seq<bool>,
    /// Running, or suspended by a key wait.
    pub run: RunState,
}

/// What an operation on a machine owes: on success the machine is in the
/// state `expected` holds and `Ok` is returned; on a fault the machine is as
/// it was and the fault is returned.
pub open spec fn transition(
    pre: MachineState,
    expected: Result<MachineState, Chip8Error>,
    r: Result<(), Chip8Error>,
    post: MachineState,
) -> bool {
    match expected {
        Ok(s) => r is Ok && post == s,
        Err(e) => r == Err::<(), Chip8Error>(e) && post == pre,
    }
}

impl MachineState {
    /// The shape every machine keeps: the sizes of its parts, at most sixteen
    /// calls in progress, and a key wait only while no key is down.
    pub open spec fn wf(self) -> bool {
        &&& self.memory.len() == 4096
        &&& self.v.len() == 16
        &&& self.stack.len() <= 16
        &&& self.keypad.len() == 16
        &&& self.video.len() == 2048
        &&& match self.run {
            RunState::Running => true,
            RunState::WaitingForKey(x) => x < 16 && !self.any_key_down(),
        }
    }

    /// A machine just built: everything zero, nothing on the display, no key
    /// down, execution about to start at `START_ADDR`.
    pub open spec fn initial() -> MachineState {
        MachineState {
            memory: Seq::new(4096, |a: int| 0u8),
            v: Seq::new(16, |i: int| 0u8),
            index: 0,
            pc: 0x200,
            stack: Seq::empty(),
            delay_timer: 0,
            sound_timer: 0,
            keypad: Seq::new(16, |k: int| false),
            video: Seq::new(2048, |c: int| false),
            run: RunState::Running,
        }
    }

    /// The value of register `x`.
    pub open spec fn reg(self, x: u8) -> u8 {
        self.v[x as int]
    }

    /// The state with register `x` set to `value`.
    pub open spec fn set_v(self, x: u8, value: u8) -> MachineState {
        MachineState { v: self.v.update(x as int, value), ..self }
    }

    /// The state with `bytes` written to memory from `base` on.
    pub open spec fn write_block(self, base: int, bytes: Seq<u8>) -> MachineState {
        MachineState {
            memory: Seq::new(
                4096,
                |a: int|
                    if base <= a < base + bytes.len() {
                        bytes[a - base]
                    } else {
                        self.memory[a]
                    },
            ),
            ..self
        }
    }

    /// The font glyphs are in memory at `FONT_ADDR`.
    pub open spec fn load_fonts(self) -> MachineState {
        self.write_block(0x50, FONT_8_5@)
    }

    /// A program is in memory at `START_ADDR`, unless it is too long to fit.
    pub open spec fn load_program(self, bytes: Seq<u8>) -> Result<MachineState, Chip8Error> {
        if bytes.len() > 3584 {
            Err(Chip8Error::ProgramTooLarge)
        } else {
            Ok(self.write_block(0x200, bytes))
        }
    }

    /// The instruction word at the program counter, high byte first. The
    /// program counter may be odd; the word must lie in memory.
    pub open spec fn fetch(self) -> Result<u16, Chip8Error> {
        if self.pc + 1 < 4096 {
            Ok((self.memory[self.pc as int] * 256 + self.memory[self.pc + 1]) as u16)
        } else {
            Err(Chip8Error::AddressOutOfRange)
        }
    }

    /// The program counter moved past one instruction.
    pub open spec fn advance(self) -> MachineState {
        MachineState { pc: self.pc.wrapping_add(2), ..self }
    }

    /// The next instruction is skipped if `cond` holds.
    pub open spec fn skip_if(self, cond: bool) -> MachineState {
        if cond {
            self.advance()
        } else {
            self
        }
    }

    /// `00E0`: every pixel off.
    pub open spec fn clear_screen(self) -> MachineState {
        MachineState { video: Seq::new(2048, |c: int| false), ..self }
    }

    /// `00EE`: back to the latest return address.
    pub open spec fn ret(self) -> Result<MachineState, Chip8Error> {
        if self.stack.len() == 0 {
            Err(Chip8Error::StackUnderflow)
        } else {
            Ok(MachineState { pc: self.stack.last(), stack: self.stack.drop_last(), ..self })
        }
    }

    /// `1nnn`: execution goes on at `nnn`.
    pub open spec fn jump(self, nnn: u16) -> MachineState {
        MachineState { pc: nnn, ..self }
    }

    /// `2nnn`: the program counter is kept as return address and execution
    /// goes on at `nnn`.
    pub open spec fn call(self, nnn: u16) -> Result<MachineState, Chip8Error> {
        if self.stack.len() >= 16 {
            Err(Chip8Error::StackOverflow)
        } else {
            Ok(MachineState { pc: nnn, stack: self.stack.push(self.pc), ..self })
        }
    }

    /// `3xkk`
    pub open spec fn skip_eq_imm(self, x: u8, kk: u8) -> MachineState {
        self.skip_if(self.reg(x) == kk)
    }

    /// `4xkk`
    pub open spec fn skip_ne_imm(self, x: u8, kk: u8) -> MachineState {
        self.skip_if(self.reg(x) != kk)
    }

    /// `5xy0`
    pub open spec fn skip_eq_reg(self, x: u8, y: u8) -> MachineState {
        self.skip_if(self.reg(x) == self.reg(y))
    }

    /// `9xy0`
    pub open spec fn skip_ne_reg(self, x: u8, y: u8) -> MachineState {
        self.skip_if(self.reg(x) != self.reg(y))
    }

    /// `6xkk`
    pub open spec fn load_imm(self, x: u8, kk: u8) -> MachineState {
        self.set_v(x, kk)
    }

    /// `7xkk`: the sum modulo 256; VF is not a flag here.
    pub open spec fn add_imm(self, x: u8, kk: u8) -> MachineState {
        self.set_v(x, ((self.reg(x) + kk) % 256) as u8)
    }

    /// `8xy0`
    pub open spec fn move_reg(self, x: u8, y: u8) -> MachineState {
        self.set_v(x, self.reg(y))
    }

    /// `8xy1`
    pub open spec fn or_reg(self, x: u8, y: u8) -> MachineState {
        self.set_v(x, self.reg(x) | self.reg(y))
    }

    /// `8xy2`
    pub open spec fn and_reg(self, x: u8, y: u8) -> MachineState {
        self.set_v(x, self.reg(x) & self.reg(y))
    }

    /// `8xy3`
    pub open spec fn xor_reg(self, x: u8, y: u8) -> MachineState {
        self.set_v(x, self.reg(x) ^ self.reg(y))
    }

    /// `8xy4`: Vx takes the sum modulo 256, and after it VF takes the carry.
    pub open spec fn add_reg(self, x: u8, y: u8) -> MachineState {
        let sum = self.reg(x) + self.reg(y);
        self.set_v(x, (sum % 256) as u8).set_v(
            0xF,
            if sum > 255 {
                1
            } else {
                0
            },
        )
    }

    /// `8xy5`: VF takes 1 unless the subtraction borrows, and after it Vx
    /// takes Vx - Vy modulo 256. Both are computed from the registers as the
    /// instruction found them.
    pub open spec fn sub_reg(self, x: u8, y: u8) -> MachineState {
        let a = self.reg(x);
        let b = self.reg(y);
        self.set_v(
            0xF,
            if a >= b {
                1
            } else {
                0
            },
        ).set_v(x, ((a - b) % 256) as u8)
    }

    /// `8xy6`: VF takes the lowest bit of Vx, and after it Vx takes its half.
    pub open spec fn shift_right(self, x: u8) -> MachineState {
        let a = self.reg(x);
        self.set_v(0xF, a % 2).set_v(x, a / 2)
    }

    /// `8xy7`: VF takes 1 unless the subtraction borrows, and after it Vx
    /// takes Vy - Vx modulo 256.
    pub open spec fn sub_from(self, x: u8, y: u8) -> MachineState {
        let a = self.reg(x);
        let b = self.reg(y);
        self.set_v(
            0xF,
            if b >= a {
                1
            } else {
                0
            },
        ).set_v(x, ((b - a) % 256) as u8)
    }

    /// `8xyE`: VF takes the highest bit of Vx, and after it Vx takes its
    /// double modulo 256.
    pub open spec fn shift_left(self, x: u8) -> MachineState {
        let a = self.reg(x);
        self.set_v(0xF, a / 128).set_v(x, ((a * 2) % 256) as u8)
    }

    /// `Annn`
    pub open spec fn load_index(self, nnn: u16) -> MachineState {
        MachineState { index: nnn, ..self }
    }

    /// `Bnnn`: execution goes on at V0 + nnn, as a 16-bit sum.
    pub open spec fn jump_offset(self, nnn: u16) -> MachineState {
        MachineState { pc: ((self.reg(0) + nnn) % 0x10000) as u16, ..self }
    }

    /// `Cxkk`, where `random` is the byte that the generator gave.
    pub open spec fn random(self, x: u8, kk: u8, random: u8) -> MachineState {
        self.set_v(x, random & kk)
    }

    /// Whether some key is down.
    pub open spec fn any_key_down(self) -> bool {
        exists|k: int| 0 <= k < 16 && #[trigger] self.keypad[k]
    }

    /// Whether key `k` is down and no key with a lower number is.
    pub open spec fn is_lowest_key_down(self, k: int) -> bool {
        &&& 0 <= k < 16
        &&& self.keypad[k]
        &&& forall|j: int| 0 <= j < k ==> !#[trigger] self.keypad[j]
    }

    /// The lowest-numbered key that is down, where one is.
    pub open spec fn lowest_key_down(self) -> int {
        choose|k: int| self.is_lowest_key_down(k)
    }

    /// `Ex9E`: skip if the key whose number is in Vx is down.
    pub open spec fn skip_key_down(self, x: u8) -> Result<MachineState, Chip8Error> {
        if self.reg(x) >= 16 {
            Err(Chip8Error::KeyIndexOutOfRange)
        } else {
            Ok(self.skip_if(self.keypad[self.reg(x) as int]))
        }
    }

    /// `ExA1`: skip if the key whose number is in Vx is up.
    pub open spec fn skip_key_up(self, x: u8) -> Result<MachineState, Chip8Error> {
        if self.reg(x) >= 16 {
            Err(Chip8Error::KeyIndexOutOfRange)
        } else {
            Ok(self.skip_if(!self.keypad[self.reg(x) as int]))
        }
    }

    /// `Fx0A`: with a key down, Vx takes the number of the lowest such key;
    /// with none, the machine is suspended until one goes down.
    pub open spec fn wait_key(self, x: u8) -> MachineState {
        if self.any_key_down() {
            self.set_v(x, self.lowest_key_down() as u8)
        } else {
            MachineState { run: RunState::WaitingForKey(x), ..self }
        }
    }

    /// `Fx07`
    pub open spec fn read_delay(self, x: u8) -> MachineState {
        self.set_v(x, self.delay_timer)
    }

    /// `Fx15`
    pub open spec fn set_delay(self, x: u8) -> MachineState {
        MachineState { delay_timer: self.reg(x), ..self }
    }

    /// `Fx18`
    pub open spec fn set_sound(self, x: u8) -> MachineState {
        MachineState { sound_timer: self.reg(x), ..self }
    }

    /// `Fx1E`: the index register takes index + Vx, as a 16-bit sum. An index
    /// outside memory is a fault only where it is used.
    pub open spec fn add_index(self, x: u8) -> MachineState {
        MachineState { index: ((self.index + self.reg(x)) % 0x10000) as u16, ..self }
    }

    /// `Fx29`: the index register takes the address of the glyph for Vx.
    pub open spec fn font_glyph(self, x: u8) -> MachineState {
        MachineState { index: (0x50 + 5 * self.reg(x)) as u16, ..self }
    }

    /// `Fx33`: the hundreds, tens and ones of Vx go to memory at the index
    /// register.
    pub open spec fn store_bcd(self, x: u8) -> Result<MachineState, Chip8Error> {
        let a = self.reg(x);
        if self.index + 2 > 4095 {
            Err(Chip8Error::AddressOutOfRange)
        } else {
            Ok(self.write_block(self.index as int, seq![a / 100, (a / 10) % 10, a % 10]))
        }
    }

    /// `Fx55`: V0 to Vx go to memory at the index register.
    pub open spec fn store_regs(self, x: u8) -> Result<MachineState, Chip8Error> {
        if self.index + x > 4095 {
            Err(Chip8Error::AddressOutOfRange)
        } else {
            Ok(self.write_block(self.index as int, self.v.subrange(0, x + 1)))
        }
    }

    /// `Fx65`: V0 to Vx are read from memory at the index register.
    pub open spec fn load_regs(self, x: u8) -> Result<MachineState, Chip8Error> {
        if self.index + x > 4095 {
            Err(Chip8Error::AddressOutOfRange)
        } else {
            Ok(
                MachineState {
                    v: Seq::new(
                        16,
                        |i: int|
                            if i <= x {
                                self.memory[self.index + i]
                            } else {
                                self.v[i]
                            },
                    ),
                    ..self
                },
            )
        }
    }

    /// Whether the sprite of `n` rows at the index register, drawn with its
    /// top left corner at (`vx`, `vy`), has a pixel that is on at display
    /// cell `cell`. The sprite wraps around both edges of the display: its
    /// pixel in column `col` of row `row` lands at
    /// ((vx + col) mod 64, (vy + row) mod 32).
    pub open spec fn sprite_hits(self, vx: u8, vy: u8, n: u8, cell: int) -> bool {
        let col = (cell % 64 - vx) % 64;
        let row = (cell / 64 - vy) % 32;
        col < 8 && row < n && sprite_bit(self.memory[self.index + row], col)
    }

    /// Whether drawing that sprite turns off a pixel that was on.
    pub open spec fn sprite_collides(self, vx: u8, vy: u8, n: u8) -> bool {
        exists|cell: int|
            0 <= cell < 2048 && self.video[cell] && #[trigger] self.sprite_hits(vx, vy, n, cell)
    }

    /// `Dxyn`: the sprite of `n` rows at the index register is drawn at
    /// (Vx, Vy): every display cell under a sprite pixel that is on is
    /// flipped, and VF takes 1 if a cell that was on is now off, else 0.
    pub open spec fn draw(self, x: u8, y: u8, n: u8) -> Result<MachineState, Chip8Error> {
        let vx = self.reg(x);
        let vy = self.reg(y);
        if n > 0 && self.index + n > 4096 {
            Err(Chip8Error::AddressOutOfRange)
        } else {
            Ok(
                MachineState {
                    video: Seq::new(
                        2048,
                        |cell: int| self.video[cell] != self.sprite_hits(vx, vy, n, cell),
                    ),
                    v: self.v.update(
                        0xF,
                        if self.sprite_collides(vx, vy, n) {
                            1u8
                        } else {
                            0u8
                        },
                    ),
                    ..self
                },
            )
        }
    }

    /// What an instruction does to the machine whose program counter is
    /// already past it. `random` is used by `Cxkk` alone.
    pub open spec fn apply(self, instruction: Instruction, random: u8) -> Result<
        MachineState,
        Chip8Error,
    > {
        match instruction {
            Instruction::ClearScreen => Ok(self.clear_screen()),
            Instruction::Return => self.ret(),
            Instruction::Jump { nnn } => Ok(self.jump(nnn)),
            Instruction::Call { nnn } => self.call(nnn),
            Instruction::SkipEqImm { x, kk } => Ok(self.skip_eq_imm(x, kk)),
            Instruction::SkipNeImm { x, kk } => Ok(self.skip_ne_imm(x, kk)),
            Instruction::SkipEqReg { x, y } => Ok(self.skip_eq_reg(x, y)),
            Instruction::LoadImm { x, kk } => Ok(self.load_imm(x, kk)),
            Instruction::AddImm { x, kk } => Ok(self.add_imm(x, kk)),
            Instruction::Move { x, y } => Ok(self.move_reg(x, y)),
            Instruction::Or { x, y } => Ok(self.or_reg(x, y)),
            Instruction::And { x, y } => Ok(self.and_reg(x, y)),
            Instruction::Xor { x, y } => Ok(self.xor_reg(x, y)),
            Instruction::AddReg { x, y } => Ok(self.add_reg(x, y)),
            Instruction::SubReg { x, y } => Ok(self.sub_reg(x, y)),
            Instruction::ShiftRight { x } => Ok(self.shift_right(x)),
            Instruction::SubFrom { x, y } => Ok(self.sub_from(x, y)),
            Instruction::ShiftLeft { x } => Ok(self.shift_left(x)),
            Instruction::SkipNeReg { x, y } => Ok(self.skip_ne_reg(x, y)),
            Instruction::LoadIndex { nnn } => Ok(self.load_index(nnn)),
            Instruction::JumpOffset { nnn } => Ok(self.jump_offset(nnn)),
            Instruction::Random { x, kk } => Ok(self.random(x, kk, random)),
            Instruction::Draw { x, y, n } => self.draw(x, y, n),
            Instruction::SkipKeyDown { x } => self.skip_key_down(x),
            Instruction::SkipKeyUp { x } => self.skip_key_up(x),
            Instruction::ReadDelay { x } => Ok(self.read_delay(x)),
            Instruction::WaitKey { x } => Ok(self.wait_key(x)),
            Instruction::SetDelay { x } => Ok(self.set_delay(x)),
            Instruction::SetSound { x } => Ok(self.set_sound(x)),
            Instruction::AddIndex { x } => Ok(self.add_index(x)),
            Instruction::FontGlyph { x } => Ok(self.font_glyph(x)),
            Instruction::StoreBcd { x } => self.store_bcd(x),
            Instruction::StoreRegs { x } => self.store_regs(x),
            Instruction::LoadRegs { x } => self.load_regs(x),
        }
    }

    /// What executing the word `opcode` does: a word that is no instruction
    /// is a fault that names the word and the program counter; for any other
    /// the program counter moves past the instruction, and the instruction
    /// is applied.
    pub open spec fn execute(self, opcode: u16, random: u8) -> Result<MachineState, Chip8Error> {
        match decode_spec(opcode) {
            None => Err(Chip8Error::UnknownOpcode { opcode, pc: self.pc }),
            Some(instruction) => self.advance().apply(instruction, random),
        }
    }

    /// One cycle: a suspended machine stays as it is; a running one fetches
    /// the word at the program counter and executes it.
    pub open spec fn step(self, random: u8) -> Result<MachineState, Chip8Error> {
        match self.run {
            RunState::WaitingForKey(_) => Ok(self),
            RunState::Running => match self.fetch() {
                Err(e) => Err(e),
                Ok(opcode) => self.execute(opcode, random),
            },
        }
    }

    /// Whether the next cycle asks the generator for a byte.
    pub open spec fn draws_random(self) -> bool {
        self.run is Running && self.fetch() is Ok && decode_spec(self.fetch()->Ok_0) is Some
            && decode_spec(self.fetch()->Ok_0)->Some_0 is Random
    }

    /// The input layer reports that key `key` is down (`pressed`) or up. A
    /// machine suspended by a key wait resumes when a key that was up goes
    /// down: the waiting register takes the key's number.
    pub open spec fn key_event(self, key: int, pressed: bool) -> MachineState {
        let keypad = self.keypad.update(key, pressed);
        match self.run {
            RunState::WaitingForKey(x) if pressed && !self.keypad[key] => MachineState {
                keypad,
                v: self.v.update(x as int, key as u8),
                run: RunState::Running,
                ..self
            },
            _ => MachineState { keypad, ..self },
        }
    }

    /// One tick of the 60 Hz clock: each timer that is not zero goes down by one.
    pub open spec fn tick(self) -> MachineState {
        MachineState {
            delay_timer: if self.delay_timer > 0 {
                (self.delay_timer - 1) as u8
            } else {
                0
            },
            sound_timer: if self.sound_timer > 0 {
                (self.sound_timer - 1) as u8
            } else {
                0
            },
            ..self
        }
    }

    /// The machine after `elapsed_nanos` nanoseconds have gone by since the
    /// last tick: one tick if that is a sixtieth of a second or more, else
    /// nothing. How many instructions ran meanwhile plays no part.
    pub open spec fn after_elapsed(self, elapsed_nanos: u64) -> MachineState {
        if elapsed_nanos >= TIMER_PERIOD_NANOS {
            self.tick()
        } else {
            self
        }
    }
}

} // verus!
