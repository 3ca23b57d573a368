//! Facts about the machine that involve more than one operation or hold of
//! every input, proved from the definitions that the executable code is
//! verified against.
use vstd::prelude::*;

use vstd::arithmetic::div_mod::{lemma_mod_self_0, lemma_small_mod};

use crate::cpu::{advance, MachineState, STACK_SIZE};
use crate::display::{blank_grid, blit, collides, is_grid, sprite_covers, HEIGHT, WIDTH};
use crate::instruction::{byte_of, decode, family_of, nibble_of, Instruction};

verus! {

/// Loading an immediate into a register leaves exactly that value there
/// and moves the program counter on by one instruction.
pub proof fn load_immediate_sets_register(s: MachineState, r: u8, v: u8, random: u8)
    requires
        s.wf(),
        r < 16,
    ensures
        s.execute(Instruction::LoadVal(r, v), random).registers[r as int] == v,
        s.execute(Instruction::LoadVal(r, v), random).pc == advance(s.pc, 2),
        s.execute(Instruction::LoadVal(r, v), random).faulted == s.faulted,
{
}

/// A call followed by a return comes back to the program counter and the
/// stack depth from before the call, as long as the stack held fewer than
/// `STACK_SIZE` addresses.
pub proof fn call_then_return_restores(s: MachineState, a: u16, random: u8)
    requires
        s.wf(),
        s.sp < STACK_SIZE,
    ensures
        s.execute(Instruction::Call(a), random).execute(Instruction::Return, random).pc == s.pc,
        s.execute(Instruction::Call(a), random).execute(Instruction::Return, random).sp == s.sp,
        s.execute(Instruction::Call(a), random).execute(Instruction::Return, random).faulted
            == s.faulted,
{
}

/// Skip-if-equal moves on by two instructions when the register holds the
/// value, and by one otherwise.
pub proof fn skip_if_equal_moves_on(s: MachineState, r: u8, v: u8, random: u8)
    requires
        s.wf(),
        r < 16,
    ensures
        s.registers[r as int] == v ==> s.execute(Instruction::SkipIfEqual(r, v), random).pc
            == advance(s.pc, 4),
        s.registers[r as int] != v ==> s.execute(Instruction::SkipIfEqual(r, v), random).pc
            == advance(s.pc, 2),
{
}

/// Drawing a sprite twice at the same place gives back the grid from before.
pub proof fn draw_twice_restores(g: Seq<Seq<bool>>, sprite: Seq<u8>, x: int, y: int)
    requires
        is_grid(g),
    ensures
        blit(blit(g, sprite, x, y), sprite, x, y) == g,
{
    let once = blit(g, sprite, x, y);
    let twice = blit(once, sprite, x, y);
    assert forall|r: int| 0 <= r < g.len() implies #[trigger] twice[r] =~= g[r] by {}
    assert(twice =~= g);
}

/// On a blank grid a sprite never collides; drawn a second time at the same
/// place, it collides exactly when it put some pixel on the grid.
pub proof fn redraw_on_blank_collides(sprite: Seq<u8>, x: int, y: int)
    ensures
        !collides(blank_grid(), sprite, x, y),
        collides(blit(blank_grid(), sprite, x, y), sprite, x, y) <==> exists|r: int, c: int|
            0 <= r < HEIGHT && 0 <= c < WIDTH && #[trigger] sprite_covers(sprite, x, y, c, r),
{
    let once = blit(blank_grid(), sprite, x, y);
    if exists|r: int, c: int|
        0 <= r < HEIGHT && 0 <= c < WIDTH && #[trigger] sprite_covers(sprite, x, y, c, r) {
        let (r, c) = choose|r: int, c: int|
            0 <= r < HEIGHT && 0 <= c < WIDTH && #[trigger] sprite_covers(sprite, x, y, c, r);
        assert(once[r][c]);
    }
}

/// The words of families 9 and B, and the words whose secondary field names
/// no operation of families 5, 8, E and F, decode to `InvalidOperation`.
pub proof fn unknown_patterns_are_invalid(val: u16)
    ensures
        family_of(val) == 0x9 ==> decode(val) == Instruction::InvalidOperation,
        family_of(val) == 0xB ==> decode(val) == Instruction::InvalidOperation,
        family_of(val) == 0x5 && nibble_of(val) != 0 ==> decode(val)
            == Instruction::InvalidOperation,
        family_of(val) == 0x8 && (nibble_of(val) > 0x6 && nibble_of(val) != 0xE) ==> decode(val)
            == Instruction::InvalidOperation,
        family_of(val) == 0xE && byte_of(val) != 0x9E && byte_of(val) != 0xA1 ==> decode(val)
            == Instruction::InvalidOperation,
        family_of(val) == 0xF && byte_of(val) != 0x1E && byte_of(val) != 0x29 && byte_of(val)
            != 0x33 && byte_of(val) != 0x55 && byte_of(val) != 0x65 ==> decode(val)
            == Instruction::InvalidOperation,
{
}

/// The state after one cycle for each of the given random bytes in turn.
pub open spec fn run(s: MachineState, randoms: Seq<u8>) -> MachineState
    decreases randoms.len(),
{
    if randoms.len() == 0 {
        s
    } else {
        run(s.step(randoms[0]), randoms.drop_first())
    }
}

/// Once a machine has faulted it stays faulted.
pub proof fn fault_is_final(s: MachineState, randoms: Seq<u8>)
    requires
        s.faulted,
    ensures
        run(s, randoms) == s,
    decreases randoms.len(),
{
    if randoms.len() > 0 {
        fault_is_final(s.step(randoms[0]), randoms.drop_first());
    }
}

/// Executing an operation leaves the timers and the cycle counter alone.
proof fn lemma_execute_keeps_timers(s: MachineState, i: Instruction, random: u8)
    ensures
        s.execute(i, random).del_timer == s.del_timer,
        s.execute(i, random).sound_timer == s.sound_timer,
        s.execute(i, random).tick == s.tick,
        s.execute(i, random).timer_tick == s.timer_tick,
{
}

/// Which of the first `k` cycles from cycle counter `tick` runs a timer
/// step: the one at which the counter has come round to zero.
pub open spec fn timer_step_within(tick: u32, timer_tick: u32, k: int) -> bool {
    if tick == 0 {
        k > 0
    } else {
        k > timer_tick - tick
    }
}

/// A timer after `k` cycles, at most `timer_tick` of them, without a fault.
pub open spec fn timer_after(v: u8, stepped: bool) -> u8 {
    if stepped && v > 0 {
        (v - 1) as u8
    } else {
        v
    }
}

proof fn lemma_run_timers(s: MachineState, randoms: Seq<u8>)
    requires
        s.wf(),
        randoms.len() <= s.timer_tick,
        !run(s, randoms).faulted,
    ensures
        run(s, randoms).timer_tick == s.timer_tick,
        run(s, randoms).tick == if s.tick + randoms.len() < s.timer_tick {
            s.tick + randoms.len()
        } else {
            s.tick + randoms.len() - s.timer_tick
        },
        run(s, randoms).del_timer == timer_after(
            s.del_timer,
            timer_step_within(s.tick, s.timer_tick, randoms.len() as int),
        ),
        run(s, randoms).sound_timer == timer_after(
            s.sound_timer,
            timer_step_within(s.tick, s.timer_tick, randoms.len() as int),
        ),
    decreases randoms.len(),
{
    if randoms.len() > 0 {
        let rest = randoms.drop_first();
        if s.faulted {
            fault_is_final(s, randoms);
        }
        let i = decode(s.fetch());
        let after = s.execute(i, randoms[0]);
        let s1 = s.step(randoms[0]);
        if after.faulted {
            fault_is_final(s1, rest);
        }
        lemma_execute_keeps_timers(s, i, randoms[0]);
        crate::cpu::lemma_step_wf(s, randoms[0]);
        if s.tick + 1 < s.timer_tick {
            lemma_small_mod((s.tick + 1) as nat, s.timer_tick as nat);
        } else {
            lemma_mod_self_0(s.timer_tick as int);
        }
        assert(s1.tick == if s.tick + 1 < s.timer_tick {
            s.tick + 1
        } else {
            0
        });
        lemma_run_timers(s1, rest);
    }
}

/// Over any `timer_tick` cycles in a row without a fault, each timer counts
/// down exactly once (unless it is already zero), whatever the clock rate,
/// and the cycle counter comes back to where it was.
pub proof fn timers_step_once_per_period(s: MachineState, randoms: Seq<u8>)
    requires
        s.wf(),
        randoms.len() == s.timer_tick,
        !run(s, randoms).faulted,
    ensures
        run(s, randoms).del_timer == if s.del_timer > 0 {
            (s.del_timer - 1) as u8
        } else {
            0u8
        },
        run(s, randoms).sound_timer == if s.sound_timer > 0 {
            (s.sound_timer - 1) as u8
        } else {
            0u8
        },
        run(s, randoms).tick == s.tick,
{
    lemma_run_timers(s, randoms);
}

} // verus!
