//! The instructions that decide where execution goes on: jumps, calls,
//! skips and the key wait.

use vstd::prelude::*;
use crate::error::Chip8Error;
use crate::instruction::{field_kk, field_nnn, field_x, field_y, kk_of, nnn_of, x_of, y_of};
use crate::machine::Chip8;
use crate::model::{transition, RunState, STACK_DEPTH};

verus! {

impl Chip8 {
    /// `00EE`: returns from the call in progress. With no call in progress
    /// that is a fault.
    pub fn op_00ee(&mut self) -> (r: Result<(), Chip8Error>)
        ensures
            transition(old(self)@, old(self)@.ret(), r, final(self)@),
            r is Ok <==> old(self)@.stack.len() > 0,
    {
        proof {
            use_type_invariant(&*self);
        }
        if self.sp == 0 {
            return Err(Chip8Error::StackUnderflow);
        }
        let top: u16 = self.stk[self.sp as usize - 1];
        self.pc = top;
        self.sp = self.sp - 1;
        assert(self@.stack =~= old(self)@.stack.drop_last());
        Ok(())
    }

    /// `1nnn`: pc = nnn.
    pub fn op_1nnn(&mut self, opcode: u16)
        ensures
            final(self)@ == old(self)@.jump(nnn_of(opcode)),
    {
        proof {
            use_type_invariant(&*self);
        }
        self.pc = field_nnn(opcode);
    }

    /// `2nnn`: keeps the program counter as return address and goes on at
    /// nnn. With sixteen calls in progress that is a fault.
    pub fn op_2nnn(&mut self, opcode: u16) -> (r: Result<(), Chip8Error>)
        ensures
            transition(old(self)@, old(self)@.call(nnn_of(opcode)), r, final(self)@),
            r is Ok <==> old(self)@.stack.len() < 16,
    {
        proof {
            use_type_invariant(&*self);
        }
        if self.sp as usize >= STACK_DEPTH {
            return Err(Chip8Error::StackOverflow);
        }
        let sp: usize = self.sp as usize;
        self.sp = self.sp + 1;
        self.stk[sp] = self.pc;
        self.pc = field_nnn(opcode);
        assert(self@.stack =~= old(self)@.stack.push(old(self)@.pc));
        Ok(())
    }

    /// `3xkk`: skips the next instruction if Vx == kk.
    pub fn op_3xkk(&mut self, opcode: u16)
        ensures
            final(self)@ == old(self)@.skip_eq_imm(x_of(opcode), kk_of(opcode)),
    {
        proof {
            use_type_invariant(&*self);
        }
        let x: usize = field_x(opcode) as usize;
        if self.gr[x] == field_kk(opcode) {
            self.pc = self.pc.wrapping_add(2);
        }
    }

    /// `4xkk`: skips the next instruction if Vx != kk.
    pub fn op_4xkk(&mut self, opcode: u16)
        ensures
            final(self)@ == old(self)@.skip_ne_imm(x_of(opcode), kk_of(opcode)),
    {
        proof {
            use_type_invariant(&*self);
        }
        let x: usize = field_x(opcode) as usize;
        if self.gr[x] != field_kk(opcode) {
            self.pc = self.pc.wrapping_add(2);
        }
    }

    /// `5xy0`: skips the next instruction if Vx == Vy.
    pub fn op_5xy0(&mut self, opcode: u16)
        ensures
            final(self)@ == old(self)@.skip_eq_reg(x_of(opcode), y_of(opcode)),
    {
        proof {
            use_type_invariant(&*self);
        }
        let x: usize = field_x(opcode) as usize;
        let y: usize = field_y(opcode) as usize;
        if self.gr[x] == self.gr[y] {
            self.pc = self.pc.wrapping_add(2);
        }
    }

    /// `9xy0`: skips the next instruction if Vx != Vy.
    pub fn op_9xy0(&mut self, opcode: u16)
        ensures
            final(self)@ == old(self)@.skip_ne_reg(x_of(opcode), y_of(opcode)),
    {
        proof {
            use_type_invariant(&*self);
        }
        let x: usize = field_x(opcode) as usize;
        let y: usize = field_y(opcode) as usize;
        if self.gr[x] != self.gr[y] {
            self.pc = self.pc.wrapping_add(2);
        }
    }

    /// `Bnnn`: pc = V0 + nnn.
    pub fn op_bnnn(&mut self, opcode: u16)
        ensures
            final(self)@ == old(self)@.jump_offset(nnn_of(opcode)),
    {
        proof {
            use_type_invariant(&*self);
        }
        self.pc = (self.gr[0] as u16).wrapping_add(field_nnn(opcode));
    }

    /// `Ex9E`: skips the next instruction if the key whose number is in Vx
    /// is down. A number in Vx that names no key is a fault.
    pub fn op_ex9e(&mut self, opcode: u16) -> (r: Result<(), Chip8Error>)
        ensures
            transition(old(self)@, old(self)@.skip_key_down(x_of(opcode)), r, final(self)@),
            r is Ok <==> old(self)@.reg(x_of(opcode)) < 16,
    {
        proof {
            use_type_invariant(&*self);
        }
        let x: usize = field_x(opcode) as usize;
        let key: u8 = self.gr[x];
        if key >= 16 {
            return Err(Chip8Error::KeyIndexOutOfRange);
        }
        if self.keypad[key as usize] {
            self.pc = self.pc.wrapping_add(2);
        }
        Ok(())
    }

    /// `ExA1`: skips the next instruction if the key whose number is in Vx
    /// is up. A number in Vx that names no key is a fault.
    pub fn op_exa1(&mut self, opcode: u16) -> (r: Result<(), Chip8Error>)
        ensures
            transition(old(self)@, old(self)@.skip_key_up(x_of(opcode)), r, final(self)@),
            r is Ok <==> old(self)@.reg(x_of(opcode)) < 16,
    {
        proof {
            use_type_invariant(&*self);
        }
        let x: usize = field_x(opcode) as usize;
        let key: u8 = self.gr[x];
        if key >= 16 {
            return Err(Chip8Error::KeyIndexOutOfRange);
        }
        if !self.keypad[key as usize] {
            self.pc = self.pc.wrapping_add(2);
        }
        Ok(())
    }

    /// `Fx0A`: with a key down, Vx takes the number of the lowest-numbered
    /// such key. With no key down the machine is suspended: no instruction
    /// executes until `set_key` reports a key going down.
    pub fn op_fx0a(&mut self, opcode: u16)
        ensures
            final(self)@ == old(self)@.wait_key(x_of(opcode)),
    {
        proof {
            use_type_invariant(&*self);
        }
        let x: usize = field_x(opcode) as usize;
        let mut i: usize = 0;
        while i < 16
            invariant
                i <= 16,
                x == x_of(opcode),
                self@ == old(self)@,
                self@.wf(),
                forall|j: int| 0 <= j < i ==> !#[trigger] self@.keypad[j],
            decreases 16 - i,
        {
            proof {
                use_type_invariant(&*self);
            }
            if self.keypad[i] {
                proof {
                    assert(old(self)@.is_lowest_key_down(i as int));
                    let k = old(self)@.lowest_key_down();
                    assert(old(self)@.is_lowest_key_down(k));
                    assert(k == i);
                }
                self.gr[x] = i as u8;
                return ;
            }
            i = i + 1;
        }
        proof {
            use_type_invariant(&*self);
            assert(!self@.any_key_down());
        }
        self.state = RunState::WaitingForKey(field_x(opcode));
    }
}

} // verus!
