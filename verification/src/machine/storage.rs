//! The instructions that move data between registers, timers, the index
//! register and memory.

use vstd::prelude::*;
use crate::error::Chip8Error;
use crate::instruction::{field_nnn, field_x, nnn_of, x_of};
use crate::machine::Chip8;
use crate::model::{transition, MachineState, FONT_ADDR};

verus! {

impl Chip8 {
    /// `Annn`: index = nnn.
    pub fn op_annn(&mut self, opcode: u16)
        ensures
            final(self)@ == old(self)@.load_index(nnn_of(opcode)),
    {
        proof {
            use_type_invariant(&*self);
        }
        self.index = field_nnn(opcode);
    }

    /// `Fx07`: Vx = the delay timer.
    pub fn op_fx07(&mut self, opcode: u16)
        ensures
            final(self)@ == old(self)@.read_delay(x_of(opcode)),
    {
        proof {
            use_type_invariant(&*self);
        }
        let x: usize = field_x(opcode) as usize;
        self.gr[x] = self.delay_timer;
    }

    /// `Fx15`: the delay timer = Vx.
    pub fn op_fx15(&mut self, opcode: u16)
        ensures
            final(self)@ == old(self)@.set_delay(x_of(opcode)),
    {
        proof {
            use_type_invariant(&*self);
        }
        let x: usize = field_x(opcode) as usize;
        self.delay_timer = self.gr[x];
    }

    /// `Fx18`: the sound timer = Vx.
    pub fn op_fx18(&mut self, opcode: u16)
        ensures
            final(self)@ == old(self)@.set_sound(x_of(opcode)),
    {
        proof {
            use_type_invariant(&*self);
        }
        let x: usize = field_x(opcode) as usize;
        self.snd_timer = self.gr[x];
    }

    /// `Fx1E`: index = index + Vx, as a 16-bit sum. An index that leaves
    /// memory is a fault where it is next used, not here.
    pub fn op_fx1e(&mut self, opcode: u16)
        ensures
            final(self)@ == old(self)@.add_index(x_of(opcode)),
    {
        proof {
            use_type_invariant(&*self);
        }
        let x: usize = field_x(opcode) as usize;
        self.index = self.index.wrapping_add(self.gr[x] as u16);
    }

    /// `Fx29`: index = the address of the glyph for Vx, `FONT_ADDR` + 5 * Vx.
    pub fn op_fx29(&mut self, opcode: u16)
        ensures
            final(self)@ == old(self)@.font_glyph(x_of(opcode)),
    {
        proof {
            use_type_invariant(&*self);
        }
        let x: usize = field_x(opcode) as usize;
        self.index = FONT_ADDR + 5 * (self.gr[x] as u16);
    }

    /// `Fx33`: stores the hundreds, tens and ones of Vx at index, index + 1
    /// and index + 2. If one of the three is outside memory that is a fault,
    /// and nothing is stored.
    pub fn op_fx33(&mut self, opcode: u16) -> (r: Result<(), Chip8Error>)
        ensures
            transition(old(self)@, old(self)@.store_bcd(x_of(opcode)), r, final(self)@),
            r is Ok <==> old(self)@.index + 2 <= 4095,
    {
        proof {
            use_type_invariant(&*self);
        }
        let x: usize = field_x(opcode) as usize;
        let value: u8 = self.gr[x];
        if self.index > 4093 {
            return Err(Chip8Error::AddressOutOfRange);
        }
        let digits: [u8; 3] = [value / 100, (value / 10) % 10, value % 10];
        self.write_bytes(self.index as usize, digits.as_slice(), 3);
        assert(digits@.take(3) =~= seq![value / 100, (value / 10) % 10, value % 10]);
        Ok(())
    }

    /// `Fx55`: stores V0 to Vx, Vx included, in memory from index on. The
    /// index register keeps its value. If one of the bytes would be outside
    /// memory that is a fault, and nothing is stored.
    pub fn op_fx55(&mut self, opcode: u16) -> (r: Result<(), Chip8Error>)
        ensures
            transition(old(self)@, old(self)@.store_regs(x_of(opcode)), r, final(self)@),
            r is Ok <==> old(self)@.index + x_of(opcode) <= 4095,
    {
        proof {
            use_type_invariant(&*self);
        }
        let x: usize = field_x(opcode) as usize;
        if self.index as usize + x > 4095 {
            return Err(Chip8Error::AddressOutOfRange);
        }
        let registers: [u8; 16] = self.gr;
        self.write_bytes(self.index as usize, registers.as_slice(), x + 1);
        assert(registers@.take(x + 1) =~= old(self)@.v.subrange(0, x + 1));
        Ok(())
    }

    /// `Fx65`: loads V0 to Vx, Vx included, from memory from index on. The
    /// index register keeps its value. If one of the bytes would be outside
    /// memory that is a fault, and nothing is loaded.
    pub fn op_fx65(&mut self, opcode: u16) -> (r: Result<(), Chip8Error>)
        ensures
            transition(old(self)@, old(self)@.load_regs(x_of(opcode)), r, final(self)@),
            r is Ok <==> old(self)@.index + x_of(opcode) <= 4095,
    {
        proof {
            use_type_invariant(&*self);
        }
        let x: usize = field_x(opcode) as usize;
        if self.index as usize + x > 4095 {
            return Err(Chip8Error::AddressOutOfRange);
        }
        let mut i: usize = 0;
        while i <= x
            invariant
                i <= x + 1,
                x < 16,
                old(self)@.index + x <= 4095,
                old(self)@.wf(),
                self@ == (MachineState { v: self@.v, ..old(self)@ }),
                self@.v.len() == 16,
                forall|j: int|
                    0 <= j < 16 ==> self@.v[j] == if j < i {
                        old(self)@.memory[old(self)@.index + j]
                    } else {
                        old(self)@.v[j]
                    },
            decreases x + 1 - i,
        {
            proof {
                use_type_invariant(&*self);
            }
            self.gr[i] = self.memory[self.index as usize + i];
            i = i + 1;
        }
        assert(self@.v =~= old(self)@.load_regs(x_of(opcode))->Ok_0.v);
        Ok(())
    }
}

} // verus!
