//! The two instructions that change the display.

use vstd::prelude::*;
use crate::error::Chip8Error;
use crate::instruction::{field_n, field_x, field_y, n_of, x_of, y_of};
use crate::machine::Chip8;
use crate::model::{
    sprite_bit, transition, MachineState, DISPLAY_HEIGHT, DISPLAY_WIDTH, MEMORY_SIZE,
};

verus! {

/// Whether the part of the sprite that comes before column `col` of row
/// `row`, rows first, has a pixel that is on at `cell`.
spec fn hits_before(s: MachineState, vx: u8, vy: u8, n: u8, row: int, col: int, cell: int) -> bool {
    let c = (cell % 64 - vx) % 64;
    let r = (cell / 64 - vy) % 32;
    s.sprite_hits(vx, vy, n, cell) && (r < row || (r == row && c < col))
}

/// Whether that part of the sprite lands on a pixel that is on.
spec fn collides_before(s: MachineState, vx: u8, vy: u8, n: u8, row: int, col: int) -> bool {
    exists|cell: int|
        0 <= cell < 2048 && s.video[cell] && #[trigger] hits_before(s, vx, vy, n, row, col, cell)
}

/// The display cell under column `col` of row `row` of a sprite at (vx, vy)
/// is the one cell whose row and column offsets from (vx, vy) are these.
proof fn lemma_target_cell(vx: u8, vy: u8, row: int, col: int, cell: int)
    requires
        0 <= row < 16,
        0 <= col < 8,
        0 <= cell < 2048,
    ensures
        ((cell % 64 - vx) % 64 == col && (cell / 64 - vy) % 32 == row) <==> cell == ((vy + row)
            % 32) * 64 + (vx + col) % 64,
{
}

impl Chip8 {
    /// `00E0`: clears the display.
    pub fn op_00e0(&mut self)
        ensures
            final(self)@ == old(self)@.clear_screen(),
    {
        proof {
            use_type_invariant(&*self);
        }
        self.video = [false;2048];
        assert(self@.video =~= old(self)@.clear_screen().video);
    }

    /// `Dxyn`: draws the sprite of `n` rows that memory holds at the index
    /// register with its top left corner at (Vx, Vy), wrapping around the
    /// edges of the display. Each sprite pixel that is on flips the display
    /// pixel under it; VF is 1 if that turned a pixel off, else 0. A sprite
    /// that reaches past the end of memory is a fault, and nothing is drawn.
    pub fn op_dxyn(&mut self, opcode: u16) -> (r: Result<(), Chip8Error>)
        ensures
            transition(
                old(self)@,
                old(self)@.draw(x_of(opcode), y_of(opcode), n_of(opcode)),
                r,
                final(self)@,
            ),
            r is Ok <==> (n_of(opcode) == 0 || old(self)@.index + n_of(opcode) <= 4096),
    {
        proof {
            use_type_invariant(&*self);
        }
        let x: usize = field_x(opcode) as usize;
        let y: usize = field_y(opcode) as usize;
        let n: u8 = field_n(opcode);
        if n > 0 && self.index as usize + n as usize > MEMORY_SIZE {
            return Err(Chip8Error::AddressOutOfRange);
        }
        let vx: u8 = self.gr[x];
        let vy: u8 = self.gr[y];
        let ghost pre = self@;
        let mut collided: bool = false;
        let mut row: u8 = 0;
        while row < n
            invariant
                row <= n < 16,
                n > 0 ==> pre.index + n <= 4096,
                pre.wf(),
                self@ == (MachineState { video: self@.video, ..pre }),
                self@.video.len() == 2048,
                forall|cell: int|
                    0 <= cell < 2048 ==> self@.video[cell] == (pre.video[cell] != hits_before(
                        pre,
                        vx,
                        vy,
                        n,
                        row as int,
                        0,
                        cell,
                    )),
                collided == collides_before(pre, vx, vy, n, row as int, 0),
            decreases n - row,
        {
            proof {
                use_type_invariant(&*self);
            }
            let bits: u8 = self.memory[self.index as usize + row as usize];
            let mut col: u8 = 0;
            while col < 8
                invariant
                    row < n < 16,
                    col <= 8,
                    pre.index + n <= 4096,
                    pre.wf(),
                    bits == pre.memory[pre.index + row],
                    self@ == (MachineState { video: self@.video, ..pre }),
                    self@.video.len() == 2048,
                    forall|cell: int|
                        0 <= cell < 2048 ==> self@.video[cell] == (pre.video[cell] != hits_before(
                            pre,
                            vx,
                            vy,
                            n,
                            row as int,
                            col as int,
                            cell,
                        )),
                    collided == collides_before(pre, vx, vy, n, row as int, col as int),
                decreases 8 - col,
            {
                proof {
                    use_type_invariant(&*self);
                }
                let ghost was = collided;
                let px: usize = (vx as usize + col as usize) % DISPLAY_WIDTH;
                let py: usize = (vy as usize + row as usize) % DISPLAY_HEIGHT;
                let target: usize = py * DISPLAY_WIDTH + px;
                let on: bool = bits & (0x80u8 >> col) != 0;
                assert(on == sprite_bit(bits, col as int));
                if on {
                    if self.video[target] {
                        collided = true;
                    }
                    self.video[target] = !self.video[target];
                }
                proof {
                    assert forall|cell: int| 0 <= cell < 2048 implies hits_before(
                        pre,
                        vx,
                        vy,
                        n,
                        row as int,
                        col + 1,
                        cell,
                    ) == (hits_before(pre, vx, vy, n, row as int, col as int, cell) || (on && cell
                        == target)) by {
                        lemma_target_cell(vx, vy, row as int, col as int, cell);
                    }
                    lemma_target_cell(vx, vy, row as int, col as int, target as int);
                    assert(!hits_before(pre, vx, vy, n, row as int, col as int, target as int));
                    if was {
                        let w = choose|cell: int|
                            0 <= cell < 2048 && pre.video[cell] && #[trigger] hits_before(
                                pre,
                                vx,
                                vy,
                                n,
                                row as int,
                                col as int,
                                cell,
                            );
                        assert(hits_before(pre, vx, vy, n, row as int, col + 1, w));
                    }
                    if on && pre.video[target as int] {
                        assert(hits_before(pre, vx, vy, n, row as int, col + 1, target as int));
                    }
                    assert(collided == collides_before(pre, vx, vy, n, row as int, col + 1));
                }
                col = col + 1;
            }
            proof {
                assert forall|cell: int| 0 <= cell < 2048 implies hits_before(
                    pre,
                    vx,
                    vy,
                    n,
                    row as int,
                    8,
                    cell,
                ) == hits_before(pre, vx, vy, n, row + 1, 0, cell) by {}
                if collided {
                    let w = choose|cell: int|
                        0 <= cell < 2048 && pre.video[cell] && #[trigger] hits_before(
                            pre,
                            vx,
                            vy,
                            n,
                            row as int,
                            8,
                            cell,
                        );
                    assert(hits_before(pre, vx, vy, n, row + 1, 0, w));
                }
                if collides_before(pre, vx, vy, n, row + 1, 0) {
                    let w = choose|cell: int|
                        0 <= cell < 2048 && pre.video[cell] && #[trigger] hits_before(
                            pre,
                            vx,
                            vy,
                            n,
                            row + 1,
                            0,
                            cell,
                        );
                    assert(hits_before(pre, vx, vy, n, row as int, 8, w));
                }
            }
            row = row + 1;
        }
        proof {
            use_type_invariant(&*self);
            assert forall|cell: int| 0 <= cell < 2048 implies hits_before(
                pre,
                vx,
                vy,
                n,
                n as int,
                0,
                cell,
            ) == pre.sprite_hits(vx, vy, n, cell) by {}
            if collided {
                let w = choose|cell: int|
                    0 <= cell < 2048 && pre.video[cell] && #[trigger] hits_before(
                        pre,
                        vx,
                        vy,
                        n,
                        n as int,
                        0,
                        cell,
                    );
                assert(pre.sprite_hits(vx, vy, n, w));
            }
            if pre.sprite_collides(vx, vy, n) {
                let w = choose|cell: int|
                    0 <= cell < 2048 && pre.video[cell] && #[trigger] pre.sprite_hits(
                        vx,
                        vy,
                        n,
                        cell,
                    );
                assert(hits_before(pre, vx, vy, n, n as int, 0, w));
            }
            assert(collided == pre.sprite_collides(vx, vy, n));
            assert(self@.video =~= pre.draw(x_of(opcode), y_of(opcode), n_of(opcode))->Ok_0.video);
        }
        self.gr[0xF] = if collided {
            1
        } else {
            0
        };
        Ok(())
    }
}

} // verus!
