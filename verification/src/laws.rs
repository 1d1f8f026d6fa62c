//! What holds of every machine: the laws that relate several operations.
//! Each is stated over the model of `crate::model` and proved here.

use vstd::prelude::*;
use vstd::arithmetic::div_mod::lemma_mod_equivalence;
use crate::error::Chip8Error;
use crate::instruction::{decode_spec, Instruction};
use crate::model::{MachineState, RunState, TIMER_PERIOD_NANOS};

verus! {

/// Whether the operands of an instruction name registers.
pub open spec fn operands_in_range(instruction: Instruction) -> bool {
    match instruction {
        Instruction::SkipEqImm { x, .. } => x < 16,
        Instruction::SkipNeImm { x, .. } => x < 16,
        Instruction::SkipEqReg { x, y } => x < 16 && y < 16,
        Instruction::LoadImm { x, .. } => x < 16,
        Instruction::AddImm { x, .. } => x < 16,
        Instruction::Move { x, y } => x < 16 && y < 16,
        Instruction::Or { x, y } => x < 16 && y < 16,
        Instruction::And { x, y } => x < 16 && y < 16,
        Instruction::Xor { x, y } => x < 16 && y < 16,
        Instruction::AddReg { x, y } => x < 16 && y < 16,
        Instruction::SubReg { x, y } => x < 16 && y < 16,
        Instruction::ShiftRight { x } => x < 16,
        Instruction::SubFrom { x, y } => x < 16 && y < 16,
        Instruction::ShiftLeft { x } => x < 16,
        Instruction::SkipNeReg { x, y } => x < 16 && y < 16,
        Instruction::Random { x, .. } => x < 16,
        Instruction::Draw { x, y, n } => x < 16 && y < 16 && n < 16,
        Instruction::SkipKeyDown { x } => x < 16,
        Instruction::SkipKeyUp { x } => x < 16,
        Instruction::ReadDelay { x } => x < 16,
        Instruction::WaitKey { x } => x < 16,
        Instruction::SetDelay { x } => x < 16,
        Instruction::SetSound { x } => x < 16,
        Instruction::AddIndex { x } => x < 16,
        Instruction::FontGlyph { x } => x < 16,
        Instruction::StoreBcd { x } => x < 16,
        Instruction::StoreRegs { x } => x < 16,
        Instruction::LoadRegs { x } => x < 16,
        _ => true,
    }
}

/// Decoding never yields an operand that names no register.
pub proof fn lemma_decode_operands_in_range(opcode: u16)
    ensures
        decode_spec(opcode) matches Some(instruction) ==> operands_in_range(instruction),
{
}

/// A machine just built has the shape of a machine.
pub proof fn lemma_initial_wf()
    ensures
        MachineState::initial().wf(),
{
}

/// Loading the font or a program keeps the shape of the machine.
pub proof fn lemma_loading_preserves_wf(s: MachineState, bytes: Seq<u8>)
    requires
        s.wf(),
    ensures
        s.load_fonts().wf(),
        s.load_program(bytes) matches Ok(t) ==> t.wf(),
{
}

/// No instruction makes a machine lose its shape: the stack never holds
/// more than sixteen return addresses, the parts keep their sizes, and a
/// key wait begins only while no key is down.
pub proof fn lemma_apply_preserves_wf(s: MachineState, instruction: Instruction, random: u8)
    requires
        s.wf(),
        operands_in_range(instruction),
    ensures
        s.apply(instruction, random) matches Ok(t) ==> t.wf(),
{
    match instruction {
        Instruction::WaitKey { x } => {
            if s.any_key_down() {
                let t = s.wait_key(x);
                assert(t.keypad == s.keypad);
            }
        },
        _ => {},
    }
}

/// A cycle keeps the shape of the machine.
pub proof fn lemma_step_preserves_wf(s: MachineState, random: u8)
    requires
        s.wf(),
    ensures
        s.step(random) matches Ok(t) ==> t.wf(),
{
    if s.run is Running && s.fetch() is Ok {
        let opcode = s.fetch()->Ok_0;
        lemma_decode_operands_in_range(opcode);
        if decode_spec(opcode) is Some {
            lemma_apply_preserves_wf(s.advance(), decode_spec(opcode)->Some_0, random);
        }
    }
}

/// Key events and clock ticks keep the shape of the machine.
pub proof fn lemma_input_and_clock_preserve_wf(
    s: MachineState,
    key: int,
    pressed: bool,
    elapsed_nanos: u64,
)
    requires
        s.wf(),
        0 <= key < 16,
    ensures
        s.key_event(key, pressed).wf(),
        s.tick().wf(),
        s.after_elapsed(elapsed_nanos).wf(),
{
    let t = s.key_event(key, pressed);
    if t.run is WaitingForKey {
        assert(t.keypad =~= s.keypad);
    }
}

/// The four conditional skips: a cycle that executes one of them moves the
/// program counter by exactly 4 if the condition holds and by exactly 2 if
/// it does not, and changes nothing else. An instruction that was fetched
/// lies in memory, so neither sum wraps.
pub proof fn lemma_skip_moves_pc_by_four_or_two(s: MachineState, random: u8)
    requires
        s.wf(),
        s.run is Running,
        s.fetch() is Ok,
    ensures
        decode_spec(s.fetch()->Ok_0) matches Some(Instruction::SkipEqImm { x, kk }) ==> s.step(
            random,
        ) == Ok::<MachineState, Chip8Error>(
            MachineState {
                pc: (s.pc + if s.reg(x) == kk {
                    4int
                } else {
                    2int
                }) as u16,
                ..s
            },
        ),
        decode_spec(s.fetch()->Ok_0) matches Some(Instruction::SkipNeImm { x, kk }) ==> s.step(
            random,
        ) == Ok::<MachineState, Chip8Error>(
            MachineState {
                pc: (s.pc + if s.reg(x) != kk {
                    4int
                } else {
                    2int
                }) as u16,
                ..s
            },
        ),
        decode_spec(s.fetch()->Ok_0) matches Some(Instruction::SkipEqReg { x, y }) ==> s.step(
            random,
        ) == Ok::<MachineState, Chip8Error>(
            MachineState {
                pc: (s.pc + if s.reg(x) == s.reg(y) {
                    4int
                } else {
                    2int
                }) as u16,
                ..s
            },
        ),
        decode_spec(s.fetch()->Ok_0) matches Some(Instruction::SkipNeReg { x, y }) ==> s.step(
            random,
        ) == Ok::<MachineState, Chip8Error>(
            MachineState {
                pc: (s.pc + if s.reg(x) != s.reg(y) {
                    4int
                } else {
                    2int
                }) as u16,
                ..s
            },
        ),
        s.pc + 4 <= 0xFFFF,
{
}

/// A call followed by a return is back where it was: the return restores
/// the program counter that the call kept, and the stack is as before.
pub proof fn lemma_call_return_round_trip(s: MachineState, nnn: u16)
    requires
        s.wf(),
        s.stack.len() < 16,
    ensures
        s.call(nnn) is Ok,
        s.call(nnn)->Ok_0.pc == nnn,
        s.call(nnn)->Ok_0.stack.last() == s.pc,
        s.call(nnn)->Ok_0.ret() == Ok::<MachineState, Chip8Error>(s),
{
    let t = s.call(nnn)->Ok_0;
    assert(t.stack.drop_last() =~= s.stack);
}

/// Executing the word of a call and, at its target, the word of a return
/// resumes at the instruction after the call with nothing else changed.
pub proof fn lemma_call_then_return_resumes(s: MachineState, opcode: u16, random: u8)
    requires
        s.wf(),
        s.stack.len() < 16,
        decode_spec(opcode) is Some,
        decode_spec(opcode)->Some_0 is Call,
    ensures
        s.execute(opcode, random) is Ok,
        s.execute(opcode, random)->Ok_0.execute(0x00EE, random) == Ok::<MachineState, Chip8Error>(
            s.advance(),
        ),
{
    let nnn = decode_spec(opcode)->Some_0->Call_nnn;
    lemma_call_return_round_trip(s.advance(), nnn);
    let t = s.execute(opcode, random)->Ok_0;
    assert(decode_spec(0x00EE) == Some(Instruction::Return));
    assert(t.advance().stack.drop_last() =~= s.stack);
}

/// The calls to `targets`, one inside the other, the first outermost.
pub open spec fn nested_calls(s: MachineState, targets: Seq<u16>) -> Result<
    MachineState,
    Chip8Error,
>
    decreases targets.len(),
{
    if targets.len() == 0 {
        Ok(s)
    } else {
        match s.call(targets[0]) {
            Err(e) => Err(e),
            Ok(t) => nested_calls(t, targets.drop_first()),
        }
    }
}

/// `count` returns in a row.
pub open spec fn nested_returns(s: MachineState, count: nat) -> Result<MachineState, Chip8Error>
    decreases count,
{
    if count == 0 {
        Ok(s)
    } else {
        match s.ret() {
            Err(e) => Err(e),
            Ok(t) => nested_returns(t, (count - 1) as nat),
        }
    }
}

/// Calls nest to a depth of sixteen and no deeper: nested calls succeed
/// exactly if they leave at most sixteen calls in progress, and otherwise
/// the fault is `StackOverflow`. As many returns lead back to the state
/// before the first call.
pub proof fn lemma_nested_calls(s: MachineState, targets: Seq<u16>)
    requires
        s.wf(),
    ensures
        s.stack.len() + targets.len() <= 16 ==> nested_calls(s, targets) is Ok && nested_calls(
            s,
            targets,
        )->Ok_0.stack.len() == s.stack.len() + targets.len() && nested_returns(
            nested_calls(s, targets)->Ok_0,
            targets.len(),
        ) == Ok::<MachineState, Chip8Error>(s),
        s.stack.len() + targets.len() > 16 ==> nested_calls(s, targets) == Err::<
            MachineState,
            Chip8Error,
        >(Chip8Error::StackOverflow),
    decreases targets.len(),
{
    if targets.len() > 0 {
        if s.stack.len() < 16 {
            let t = s.call(targets[0])->Ok_0;
            let rest = targets.drop_first();
            lemma_nested_calls(t, rest);
            lemma_call_return_round_trip(s, targets[0]);
            if s.stack.len() + targets.len() <= 16 {
                let deep = nested_calls(t, rest)->Ok_0;
                lemma_returns_split(deep, rest.len(), 1);
                assert(nested_returns(deep, rest.len()) == Ok::<MachineState, Chip8Error>(t));
                assert(nested_returns(t, 1) == Ok::<MachineState, Chip8Error>(s)) by {
                    reveal_with_fuel(nested_returns, 2);
                }
                assert(rest.len() + 1 == targets.len());
            }
        }
    }
}

/// `a + b` returns in a row are `a` returns and, after them, `b` more.
proof fn lemma_returns_split(s: MachineState, a: nat, b: nat)
    ensures
        nested_returns(s, a + b) == match nested_returns(s, a) {
            Err(e) => Err::<MachineState, Chip8Error>(e),
            Ok(t) => nested_returns(t, b),
        },
    decreases a,
{
    if a > 0 {
        match s.ret() {
            Err(e) => {},
            Ok(t) => {
                lemma_returns_split(t, (a - 1) as nat, b);
                assert((a + b - 1) as nat == (a - 1) as nat + b);
            },
        }
    }
}

/// Drawing a sprite twice at the same place leaves the display as it was
/// before the first draw, and the second draw reports a collision exactly
/// if the first left a pixel on under a sprite pixel that is on. "The same
/// place" is a demand on the inputs: the first draw writes VF, so where Vx
/// or Vy is VF the second draw may start elsewhere.
pub proof fn lemma_draw_twice_restores(s: MachineState, x: u8, y: u8, n: u8)
    requires
        s.wf(),
        x < 16,
        y < 16,
        n < 16,
        s.draw(x, y, n) is Ok,
        s.draw(x, y, n)->Ok_0.reg(x) % 64 == s.reg(x) % 64,
        s.draw(x, y, n)->Ok_0.reg(y) % 32 == s.reg(y) % 32,
    ensures
        s.draw(x, y, n)->Ok_0.draw(x, y, n) is Ok,
        s.draw(x, y, n)->Ok_0.draw(x, y, n)->Ok_0.video == s.video,
        s.draw(x, y, n)->Ok_0.draw(x, y, n)->Ok_0.reg(0xF) == if exists|cell: int|
            0 <= cell < 2048 && s.draw(x, y, n)->Ok_0.video[cell] && #[trigger] s.sprite_hits(
                s.reg(x),
                s.reg(y),
                n,
                cell,
            ) {
            1u8
        } else {
            0u8
        },
{
    let t = s.draw(x, y, n)->Ok_0;
    let u = t.draw(x, y, n)->Ok_0;
    let (vx, vy) = (s.reg(x), s.reg(y));
    let (wx, wy) = (t.reg(x), t.reg(y));
    assert forall|cell: int| 0 <= cell < 2048 implies #[trigger] t.sprite_hits(wx, wy, n, cell)
        == s.sprite_hits(vx, vy, n, cell) by {
        lemma_same_offset(cell % 64, vx as int, wx as int, 64);
        lemma_same_offset(cell / 64, vy as int, wy as int, 32);
    }
    assert(u.video =~= s.video);
    if t.sprite_collides(wx, wy, n) {
        let cell = choose|cell: int|
            0 <= cell < 2048 && t.video[cell] && #[trigger] t.sprite_hits(wx, wy, n, cell);
        assert(s.sprite_hits(vx, vy, n, cell));
    }
    if exists|cell: int|
        0 <= cell < 2048 && t.video[cell] && #[trigger] s.sprite_hits(vx, vy, n, cell) {
        let cell = choose|cell: int|
            0 <= cell < 2048 && t.video[cell] && #[trigger] s.sprite_hits(vx, vy, n, cell);
        assert(t.sprite_hits(wx, wy, n, cell));
    }
}

/// Two origins that agree modulo `m` give every cell the same offset modulo `m`.
proof fn lemma_same_offset(a: int, b: int, c: int, m: int)
    requires
        m > 0,
        b % m == c % m,
    ensures
        (a - b) % m == (a - c) % m,
{
    lemma_mod_equivalence(c, b, m);
    assert((a - b) - (a - c) == c - b);
    lemma_mod_equivalence(a - b, a - c, m);
}

/// While no key goes down a machine suspended by a key wait stays
/// suspended: cycles leave it exactly as it is, clock ticks and keys
/// reported up do not wake it.
pub proof fn lemma_key_wait_holds(s: MachineState, random: u8, key: int, elapsed_nanos: u64)
    requires
        s.wf(),
        s.run is WaitingForKey,
        0 <= key < 16,
    ensures
        s.step(random) == Ok::<MachineState, Chip8Error>(s),
        s.key_event(key, false) == s,
        s.after_elapsed(elapsed_nanos).run == s.run,
{
    assert(!s.keypad[key]);
    assert(s.keypad.update(key, false) =~= s.keypad);
}

/// When a key goes down, a machine suspended by a key wait runs again: the
/// waiting register holds the key's number, which is the lowest key down,
/// and the program counter is where the wait left it, at the next
/// instruction.
pub proof fn lemma_key_press_resumes(s: MachineState, key: int)
    requires
        s.wf(),
        s.run is WaitingForKey,
        0 <= key < 16,
    ensures
        s.key_event(key, true) == (MachineState {
            keypad: s.keypad.update(key, true),
            v: s.v.update(s.run->WaitingForKey_0 as int, key as u8),
            run: RunState::Running,
            ..s
        }),
        s.key_event(key, true).is_lowest_key_down(key),
{
    assert(!s.keypad[key]);
    let t = s.key_event(key, true);
    assert forall|j: int| 0 <= j < key implies !#[trigger] t.keypad[j] by {
        assert(!s.keypad[j]);
    }
}

/// The whole key wait: a running machine with no key down that executes
/// `Fx0A` is suspended past that instruction; when key `key` goes down, Vx
/// is the key's number and the machine runs on from the next instruction.
pub proof fn lemma_key_wait_round_trip(s: MachineState, random: u8, key: int)
    requires
        s.wf(),
        s.run is Running,
        !s.any_key_down(),
        s.fetch() is Ok,
        decode_spec(s.fetch()->Ok_0) is Some,
        decode_spec(s.fetch()->Ok_0)->Some_0 is WaitKey,
        0 <= key < 16,
    ensures
        s.step(random) == Ok::<MachineState, Chip8Error>(
            MachineState {
                pc: (s.pc + 2) as u16,
                run: RunState::WaitingForKey(decode_spec(s.fetch()->Ok_0)->Some_0->WaitKey_x),
                ..s
            },
        ),
        s.step(random)->Ok_0.key_event(key, true) == (MachineState {
            pc: (s.pc + 2) as u16,
            keypad: s.keypad.update(key, true),
            v: s.v.update(decode_spec(s.fetch()->Ok_0)->Some_0->WaitKey_x as int, key as u8),
            ..s
        }),
{
    let w = s.step(random)->Ok_0;
    assert(w.keypad == s.keypad);
    assert(!s.keypad[key]);
}

/// Only `Cxkk` looks at the random byte: a cycle that executes anything
/// else, or nothing, or faults, is the same whatever the byte.
pub proof fn lemma_random_byte_matters_to_cxkk_alone(s: MachineState, a: u8, b: u8)
    requires
        !s.draws_random(),
    ensures
        s.step(a) == s.step(b),
{
}

/// Whether the next cycle executes an instruction that writes a timer.
pub open spec fn writes_timer(s: MachineState) -> bool {
    s.run is Running && s.fetch() is Ok && (decode_spec(s.fetch()->Ok_0) matches Some(i) && (i
        is SetDelay || i is SetSound))
}

/// No instruction counts a timer down: a cycle leaves both timers as they
/// are, unless it executes `Fx15` or `Fx18`, which set one of them to Vx
/// and leave the other.
pub proof fn lemma_cycle_keeps_timers(s: MachineState, random: u8)
    requires
        s.wf(),
        s.step(random) is Ok,
    ensures
        !writes_timer(s) ==> s.step(random)->Ok_0.delay_timer == s.delay_timer && s.step(
            random,
        )->Ok_0.sound_timer == s.sound_timer,
        s.run is Running ==> (decode_spec(s.fetch()->Ok_0) matches Some(
            Instruction::SetDelay { x },
        ) ==> s.step(random)->Ok_0.delay_timer == s.reg(x) && s.step(random)->Ok_0.sound_timer
            == s.sound_timer),
        s.run is Running ==> (decode_spec(s.fetch()->Ok_0) matches Some(
            Instruction::SetSound { x },
        ) ==> s.step(random)->Ok_0.sound_timer == s.reg(x) && s.step(random)->Ok_0.delay_timer
            == s.delay_timer),
{
}

/// The cycles that `randoms` feeds, one after the other, up to the first fault.
pub open spec fn run_cycles(s: MachineState, randoms: Seq<u8>) -> Result<MachineState, Chip8Error>
    decreases randoms.len(),
{
    if randoms.len() == 0 {
        Ok(s)
    } else {
        match s.step(randoms[0]) {
            Err(e) => Err(e),
            Ok(t) => run_cycles(t, randoms.drop_first()),
        }
    }
}

/// Whether one of those cycles executes an instruction that writes a timer.
pub open spec fn writes_timer_within(s: MachineState, randoms: Seq<u8>) -> bool
    decreases randoms.len(),
{
    if randoms.len() == 0 {
        false
    } else {
        writes_timer(s) || match s.step(randoms[0]) {
            Err(e) => false,
            Ok(t) => writes_timer_within(t, randoms.drop_first()),
        }
    }
}

/// The timers do not depend on how many instructions execute: any number
/// of cycles, none of which writes a timer, leaves both timers as they are.
pub proof fn lemma_cycles_keep_timers(s: MachineState, randoms: Seq<u8>)
    requires
        s.wf(),
        run_cycles(s, randoms) is Ok,
        !writes_timer_within(s, randoms),
    ensures
        run_cycles(s, randoms)->Ok_0.delay_timer == s.delay_timer,
        run_cycles(s, randoms)->Ok_0.sound_timer == s.sound_timer,
    decreases randoms.len(),
{
    if randoms.len() > 0 {
        let t = s.step(randoms[0])->Ok_0;
        lemma_cycle_keeps_timers(s, randoms[0]);
        lemma_step_preserves_wf(s, randoms[0]);
        lemma_cycles_keep_timers(t, randoms.drop_first());
    }
}

/// The clock: before a sixtieth of a second has gone by nothing changes;
/// from there on each timer that is not zero goes down by exactly one, a
/// timer at zero stays at zero, and nothing else changes.
pub proof fn lemma_timer_period(s: MachineState, elapsed_nanos: u64)
    ensures
        elapsed_nanos < TIMER_PERIOD_NANOS ==> s.after_elapsed(elapsed_nanos) == s,
        elapsed_nanos >= TIMER_PERIOD_NANOS ==> s.after_elapsed(elapsed_nanos) == (MachineState {
            delay_timer: s.after_elapsed(elapsed_nanos).delay_timer,
            sound_timer: s.after_elapsed(elapsed_nanos).sound_timer,
            ..s
        }),
        elapsed_nanos >= TIMER_PERIOD_NANOS && s.delay_timer > 0 ==> s.after_elapsed(
            elapsed_nanos,
        ).delay_timer == s.delay_timer - 1,
        elapsed_nanos >= TIMER_PERIOD_NANOS && s.sound_timer > 0 ==> s.after_elapsed(
            elapsed_nanos,
        ).sound_timer == s.sound_timer - 1,
        s.delay_timer == 0 ==> s.after_elapsed(elapsed_nanos).delay_timer == 0,
        s.sound_timer == 0 ==> s.after_elapsed(elapsed_nanos).sound_timer == 0,
{
}

} // verus!
