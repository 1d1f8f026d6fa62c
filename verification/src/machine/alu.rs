//! The instructions that compute on registers.

use vstd::prelude::*;
use crate::instruction::{field_kk, field_x, field_y, kk_of, x_of, y_of};
use crate::machine::Chip8;
use crate::rng::next_byte;

verus! {

impl Chip8 {
    /// `6xkk`: Vx = kk.
    pub fn op_6xkk(&mut self, opcode: u16)
        ensures
            final(self)@ == old(self)@.load_imm(x_of(opcode), kk_of(opcode)),
    {
        proof {
            use_type_invariant(&*self);
        }
        let x: usize = field_x(opcode) as usize;
        self.gr[x] = field_kk(opcode);
    }

    /// `7xkk`: Vx = Vx + kk modulo 256. No flag is changed.
    pub fn op_7xkk(&mut self, opcode: u16)
        ensures
            final(self)@ == old(self)@.add_imm(x_of(opcode), kk_of(opcode)),
    {
        proof {
            use_type_invariant(&*self);
        }
        let x: usize = field_x(opcode) as usize;
        self.gr[x] = self.gr[x].wrapping_add(field_kk(opcode));
    }

    /// `8xy0`: Vx = Vy.
    pub fn op_8xy0(&mut self, opcode: u16)
        ensures
            final(self)@ == old(self)@.move_reg(x_of(opcode), y_of(opcode)),
    {
        proof {
            use_type_invariant(&*self);
        }
        let x: usize = field_x(opcode) as usize;
        let y: usize = field_y(opcode) as usize;
        self.gr[x] = self.gr[y];
    }

    /// `8xy1`: Vx = Vx OR Vy.
    pub fn op_8xy1(&mut self, opcode: u16)
        ensures
            final(self)@ == old(self)@.or_reg(x_of(opcode), y_of(opcode)),
    {
        proof {
            use_type_invariant(&*self);
        }
        let x: usize = field_x(opcode) as usize;
        let y: usize = field_y(opcode) as usize;
        self.gr[x] = self.gr[x] | self.gr[y];
    }

    /// `8xy2`: Vx = Vx AND Vy.
    pub fn op_8xy2(&mut self, opcode: u16)
        ensures
            final(self)@ == old(self)@.and_reg(x_of(opcode), y_of(opcode)),
    {
        proof {
            use_type_invariant(&*self);
        }
        let x: usize = field_x(opcode) as usize;
        let y: usize = field_y(opcode) as usize;
        self.gr[x] = self.gr[x] & self.gr[y];
    }

    /// `8xy3`: Vx = Vx XOR Vy.
    pub fn op_8xy3(&mut self, opcode: u16)
        ensures
            final(self)@ == old(self)@.xor_reg(x_of(opcode), y_of(opcode)),
    {
        proof {
            use_type_invariant(&*self);
        }
        let x: usize = field_x(opcode) as usize;
        let y: usize = field_y(opcode) as usize;
        self.gr[x] = self.gr[x] ^ self.gr[y];
    }

    /// `8xy4`: Vx = Vx + Vy modulo 256; VF = 1 if the sum is over 255, else 0.
    /// The flag is written last.
    pub fn op_8xy4(&mut self, opcode: u16)
        ensures
            final(self)@ == old(self)@.add_reg(x_of(opcode), y_of(opcode)),
    {
        proof {
            use_type_invariant(&*self);
        }
        let x: usize = field_x(opcode) as usize;
        let y: usize = field_y(opcode) as usize;
        let a: u8 = self.gr[x];
        let b: u8 = self.gr[y];
        let carry: u8 = if a as u16 + b as u16 > 255 {
            1
        } else {
            0
        };
        self.gr[x] = a.wrapping_add(b);
        self.gr[0xF] = carry;
    }

    /// `8xy5`: VF = 1 if Vx >= Vy, else 0; Vx = Vx - Vy modulo 256. The
    /// difference is written last, so with x = F it stands in place of the flag.
    pub fn op_8xy5(&mut self, opcode: u16)
        ensures
            final(self)@ == old(self)@.sub_reg(x_of(opcode), y_of(opcode)),
    {
        proof {
            use_type_invariant(&*self);
        }
        let x: usize = field_x(opcode) as usize;
        let y: usize = field_y(opcode) as usize;
        let a: u8 = self.gr[x];
        let b: u8 = self.gr[y];
        if a >= b {
            self.gr[0xF] = 1;
        } else {
            self.gr[0xF] = 0;
        }
        self.gr[x] = a.wrapping_sub(b);
    }

    /// `8xy6`: VF = the lowest bit of Vx; Vx = Vx shifted right by one. The
    /// shifted value is written last.
    pub fn op_8xy6(&mut self, opcode: u16)
        ensures
            final(self)@ == old(self)@.shift_right(x_of(opcode)),
    {
        proof {
            use_type_invariant(&*self);
        }
        let x: usize = field_x(opcode) as usize;
        let a: u8 = self.gr[x];
        assert(a & 0x1 == a % 2 && a >> 1 == a / 2) by (bit_vector);
        self.gr[0xF] = a & 0x1;
        self.gr[x] = a >> 1;
    }

    /// `8xy7`: VF = 1 if Vy >= Vx, else 0; Vx = Vy - Vx modulo 256. The
    /// difference is written last.
    pub fn op_8xy7(&mut self, opcode: u16)
        ensures
            final(self)@ == old(self)@.sub_from(x_of(opcode), y_of(opcode)),
    {
        proof {
            use_type_invariant(&*self);
        }
        let x: usize = field_x(opcode) as usize;
        let y: usize = field_y(opcode) as usize;
        let a: u8 = self.gr[x];
        let b: u8 = self.gr[y];
        if b >= a {
            self.gr[0xF] = 1;
        } else {
            self.gr[0xF] = 0;
        }
        self.gr[x] = b.wrapping_sub(a);
    }

    /// `8xyE`: VF = the highest bit of Vx; Vx = Vx shifted left by one,
    /// modulo 256. The shifted value is written last.
    pub fn op_8xye(&mut self, opcode: u16)
        ensures
            final(self)@ == old(self)@.shift_left(x_of(opcode)),
    {
        proof {
            use_type_invariant(&*self);
        }
        let x: usize = field_x(opcode) as usize;
        let a: u8 = self.gr[x];
        assert((a & 0x80) >> 7 == a / 128 && a << 1 == (a * 2) % 256) by (bit_vector);
        self.gr[0xF] = (a & 0x80) >> 7;
        self.gr[x] = a << 1;
    }

    /// `Cxkk` with the random byte given: Vx = random AND kk.
    pub fn apply_random(&mut self, opcode: u16, random: u8)
        ensures
            final(self)@ == old(self)@.random(x_of(opcode), kk_of(opcode), random),
    {
        proof {
            use_type_invariant(&*self);
        }
        let x: usize = field_x(opcode) as usize;
        self.gr[x] = random & field_kk(opcode);
    }

    /// `Cxkk`: Vx = a byte from the machine's generator AND kk. Which byte
    /// the generator gives is not known to the proof; whatever it is, the
    /// machine is as `apply_random` leaves it for that byte.
    pub fn op_cxkk(&mut self, opcode: u16)
        ensures
            exists|random: u8|
                final(self)@ == #[trigger] old(self)@.random(x_of(opcode), kk_of(opcode), random),
    {
        proof {
            use_type_invariant(&*self);
        }
        let random: u8 = next_byte(&mut self.rng);
        self.apply_random(opcode, random);
        assert(self@ == old(self)@.random(x_of(opcode), kk_of(opcode), random));
    }
}

} // verus!
