//! Laws of the machine model: what holds of every state and every
//! instruction word. They are stated over [`MachineState`], which the
//! executable machine is proved to follow.
use crate::display::on_grid;
use crate::fault::Fault;
use crate::instruction::{Instruction, Operation};
use crate::memory::STACK_DEPTH;
use crate::state::{MachineState, Mode, FLAG_REGISTER, PC_LIMIT};
use vstd::prelude::*;

verus! {

/// Whether `op` is one of the six skip operations.
pub open spec fn is_skip(op: Operation) -> bool {
    op is SkipIfEqualImmediate || op is SkipIfNotEqualImmediate || op is SkipIfEqualRegister
        || op is SkipIfNotEqualRegister || op is SkipIfKeyDown || op is SkipIfKeyUp
}

/// Whether the condition of the skip instruction `opcode` holds in `s`.
pub open spec fn skip_taken(s: MachineState, opcode: u16) -> bool {
    let ins = Instruction::of(opcode);
    let a = s.registers[ins.x as int];
    let b = s.registers[ins.y as int];
    match ins.operation() {
        Operation::SkipIfEqualImmediate => a == ins.nn,
        Operation::SkipIfNotEqualImmediate => a != ins.nn,
        Operation::SkipIfEqualRegister => a == b,
        Operation::SkipIfNotEqualRegister => a != b,
        Operation::SkipIfKeyDown => s.keys[a as int % 16],
        Operation::SkipIfKeyUp => !s.keys[a as int % 16],
        _ => false,
    }
}

/// The state after the subroutines at `targets` are called one inside the
/// other, the first of `targets` first.
pub open spec fn nested_calls(s: MachineState, targets: Seq<int>) -> MachineState
    decreases targets.len(),
{
    if targets.len() == 0 {
        s
    } else {
        nested_calls(s.called(targets[0]), targets.drop_first())
    }
}

/// The state after `count` returns in a row.
pub open spec fn unwound(s: MachineState, count: nat) -> MachineState
    decreases count,
{
    if count == 0 {
        s
    } else {
        unwound(s, (count - 1) as nat).returned()
    }
}

/// A cycle keeps the state invariant, whatever the instruction word and the
/// random byte: the stack never grows past its capacity, the index register
/// stays inside memory, the display keeps its shape.
pub proof fn lemma_cycle_keeps_invariant(s: MachineState, opcode: u16, sample: u8)
    requires
        s.inv(),
    ensures
        s.after_cycle(opcode, sample).inv(),
{
    Instruction::lemma_fields_recompose(opcode);
    let op = Instruction::of(opcode).operation();
    let ready = s.ready(opcode);
    if s.mode == Mode::Running && s.fetchable() {
        assert(ready.inv());
        if ready.fault_of(op, opcode) is None {
            assert(ready.effect(op, opcode, sample).inv());
        }
    }
}

/// Key events and timer ticks keep the state invariant.
pub proof fn lemma_events_keep_invariant(s: MachineState, key: int, ticks: nat)
    requires
        s.inv(),
        0 <= key < 16,
    ensures
        s.key_pressed(key).inv(),
        s.key_released(key).inv(),
        s.after_ticks(ticks).inv(),
{
}

/// The random byte matters to the random-byte instruction alone: for every
/// other word a cycle has one outcome.
pub proof fn lemma_sample_matters_to_random_only(s: MachineState, opcode: u16, a: u8, b: u8)
    requires
        !(Instruction::of(opcode).operation() is Random),
    ensures
        s.after_cycle(opcode, a) == s.after_cycle(opcode, b),
{
}

/// A machine that is halted or waits for a key does not execute: a cycle
/// leaves it exactly as it is, program counter included.
pub proof fn lemma_only_running_executes(s: MachineState, opcode: u16, sample: u8)
    requires
        s.mode != Mode::Running,
    ensures
        s.after_cycle(opcode, sample) == s,
        s.after_step(sample) == s,
        s.mode is WaitingForKey ==> s.cycle_report(opcode) == Ok::<(), Fault>(()),
{
}

/// A call followed by a return gives back the state before the call: the
/// program counter, which in a cycle already points at the instruction after
/// the call, and the stack are both as they were.
pub proof fn lemma_call_then_return(s: MachineState, target: int)
    requires
        s.inv(),
        s.stack.len() < STACK_DEPTH,
    ensures
        s.fault_of(Operation::Call, 0) is None,
        s.called(target).fault_of(Operation::Return, 0) is None,
        s.called(target).returned() == s,
{
    let t = s.called(target);
    assert(t.stack.drop_last() =~= s.stack);
    assert(t.stack.last() == s.pc as u16);
}

/// Calls nested to any depth that the stack has room for unwind exactly:
/// after as many returns as there were calls the state is the one before the
/// first call.
pub proof fn lemma_nested_calls_unwind(s: MachineState, targets: Seq<int>)
    requires
        s.inv(),
        s.stack.len() + targets.len() <= STACK_DEPTH,
        forall|i: int| 0 <= i < targets.len() ==> 0 <= #[trigger] targets[i] <= PC_LIMIT,
    ensures
        nested_calls(s, targets).stack.len() == s.stack.len() + targets.len(),
        unwound(nested_calls(s, targets), targets.len()) == s,
    decreases targets.len(),
{
    if targets.len() > 0 {
        let first = s.called(targets[0]);
        let rest = targets.drop_first();
        assert forall|i: int| 0 <= i < rest.len() implies 0 <= #[trigger] rest[i] <= PC_LIMIT by {
            assert(rest[i] == targets[i + 1]);
        }
        lemma_nested_calls_unwind(first, rest);
        lemma_call_then_return(s, targets[0]);
        assert(unwound(nested_calls(s, targets), targets.len()) == unwound(
            nested_calls(first, rest),
            rest.len(),
        ).returned());
    }
}

/// In a cycle, a call instruction leaves on the stack the address of the
/// instruction after it, and a return instruction executed later with that
/// stack brings the program counter back to exactly that address and the
/// stack back to what it was before the call.
pub proof fn lemma_call_cycle_round_trip(
    s: MachineState,
    call: u16,
    later: MachineState,
    a: u8,
    b: u8,
)
    requires
        s.inv(),
        s.mode == Mode::Running,
        s.fetchable(),
        s.stack.len() < STACK_DEPTH,
        Instruction::of(call).operation() is Call,
        later.inv(),
        later.mode == Mode::Running,
        later.fetchable(),
        later.stack == s.after_cycle(call, a).stack,
    ensures
        s.cycle_report(call) == Ok::<(), Fault>(()),
        s.after_cycle(call, a).pc == Instruction::of(call).nnn,
        later.cycle_report(0x00EE) == Ok::<(), Fault>(()),
        later.after_cycle(0x00EE, b).pc == s.pc + 2,
        later.after_cycle(0x00EE, b).stack == s.stack,
{
    let ready = s.ready(call);
    lemma_call_then_return(ready, Instruction::of(call).nnn as int);
    let called = s.after_cycle(call, a);
    assert(called.stack == s.stack.push((s.pc + 2) as u16));
    assert(Instruction::of(0x00EE).operation() is Return) by {
        assert(Instruction::of(0x00EE).class == 0 && Instruction::of(0x00EE).nnn == 0x0EE);
    }
    assert(later.stack.drop_last() =~= s.stack);
}

/// A call with a full stack is refused: the cycle reports `StackOverflow`,
/// the machine halts, and the stack is what it was.
pub proof fn lemma_call_beyond_capacity(s: MachineState, call: u16, sample: u8)
    requires
        s.inv(),
        s.mode == Mode::Running,
        s.fetchable(),
        s.stack.len() == STACK_DEPTH,
        Instruction::of(call).operation() is Call,
    ensures
        s.cycle_report(call) == Err::<(), Fault>(Fault::StackOverflow),
        s.after_cycle(call, sample).stack == s.stack,
        s.after_cycle(call, sample).mode == (Mode::Halted {
            fault: Fault::StackOverflow,
            at: s.pc as usize,
        }),
{
}

/// A skip instruction moves the program counter by 4 in all (past itself and
/// past the next instruction) when its condition holds, and by 2 when it
/// does not. Apart from the program counter and the latched selectors it
/// changes nothing.
pub proof fn lemma_skip_advance(s: MachineState, opcode: u16, sample: u8)
    requires
        s.inv(),
        s.mode == Mode::Running,
        s.fetchable(),
        is_skip(Instruction::of(opcode).operation()),
    ensures
        s.cycle_report(opcode) == Ok::<(), Fault>(()),
        s.after_cycle(opcode, sample) == (MachineState {
            pc: if skip_taken(s, opcode) {
                s.pc + 4
            } else {
                s.pc + 2
            },
            ..s.latched(opcode)
        }),
{
    Instruction::lemma_fields_recompose(opcode);
}

/// Every instruction that is neither a jump, a call, a return nor a skip,
/// and raises no fatal fault, moves the program counter by exactly 2.
pub proof fn lemma_plain_advance(s: MachineState, opcode: u16, sample: u8)
    requires
        s.inv(),
        s.mode == Mode::Running,
        s.fetchable(),
        !is_skip(Instruction::of(opcode).operation()),
        !(Instruction::of(opcode).operation() is Jump),
        !(Instruction::of(opcode).operation() is JumpOffset),
        !(Instruction::of(opcode).operation() is Call),
        !(Instruction::of(opcode).operation() is Return),
    ensures
        s.after_cycle(opcode, sample).pc == s.pc + 2,
{
}

/// The key-wait instruction suspends the machine with the program counter
/// past the instruction. While it waits, cycles and steps change nothing and
/// timer ticks still count; the next key that goes down puts its index in
/// the register that the instruction named and sets the machine running.
pub proof fn lemma_key_wait(s: MachineState, opcode: u16, key: int, ticks: nat, sample: u8)
    requires
        s.inv(),
        s.mode == Mode::Running,
        s.fetchable(),
        Instruction::of(opcode).operation() is WaitForKey,
        0 <= key < 16,
    ensures
        s.after_cycle(opcode, sample).mode == (Mode::WaitingForKey {
            register: Instruction::of(opcode).x,
        }),
        s.after_cycle(opcode, sample).pc == s.pc + 2,
        s.after_cycle(opcode, sample).after_step(sample) == s.after_cycle(opcode, sample),
        s.after_cycle(opcode, sample).after_ticks(ticks).mode == s.after_cycle(opcode, sample).mode,
        s.after_cycle(opcode, sample).key_pressed(key).mode == Mode::Running,
        s.after_cycle(opcode, sample).key_pressed(key).registers[Instruction::of(opcode).x as int]
            == key,
        s.after_cycle(opcode, sample).key_pressed(key).pc == s.pc + 2,
{
    Instruction::lemma_fields_recompose(opcode);
}

/// Ticks add up: `a` ticks and then `b` ticks are `a + b` ticks.
pub proof fn lemma_ticks_add_up(s: MachineState, a: nat, b: nat)
    ensures
        s.after_ticks(a).after_ticks(b) == s.after_ticks(a + b),
{
}

/// A timer that holds `d` reads `d - n` after `n <= d` ticks, 0 after `d`
/// ticks, and stays at 0 for every tick after that.
pub proof fn lemma_timers_run_down(s: MachineState, ticks: nat)
    ensures
        ticks <= s.delay ==> s.after_ticks(ticks).delay == s.delay - ticks,
        ticks >= s.delay ==> s.after_ticks(ticks).delay == 0,
        ticks <= s.sound ==> s.after_ticks(ticks).sound == s.sound - ticks,
        ticks >= s.sound ==> s.after_ticks(ticks).sound == 0,
{
}

/// Drawing the same sprite twice with the draw instruction restores the
/// display, provided neither coordinate is read from the flag register
/// (which the first draw overwrites).
pub proof fn lemma_draw_twice(s: MachineState, n: int)
    requires
        s.inv(),
        s.vx != 15,
        s.vy != 15,
    ensures
        s.sprite_drawn(n).sprite_drawn(n).pixels == s.pixels,
{
    crate::display::lemma_draw_twice_restores(
        s.pixels,
        s.x_value() as int,
        s.y_value() as int,
        s.sprite(n),
    );
}

/// Whether the program counter and every return address on the stack are
/// even: whether they all lie on instruction boundaries.
pub open spec fn aligned(s: MachineState) -> bool {
    &&& s.pc % 2 == 0
    &&& forall|i: int| 0 <= i < s.stack.len() ==> #[trigger] s.stack[i] % 2 == 0
}

/// Whether the address that `opcode` makes the machine jump to, if it is a
/// jump or a call, is even.
pub open spec fn target_aligned(s: MachineState, opcode: u16) -> bool {
    let ins = Instruction::of(opcode);
    match ins.operation() {
        Operation::Jump | Operation::Call => ins.nnn % 2 == 0,
        Operation::JumpOffset => (ins.nnn + s.registers[0]) % 2 == 0,
        _ => true,
    }
}

/// Only calls and returns touch the call stack.
pub proof fn lemma_stack_is_kept(s: MachineState, opcode: u16, sample: u8)
    requires
        !(Instruction::of(opcode).operation() is Call),
        !(Instruction::of(opcode).operation() is Return),
    ensures
        s.after_cycle(opcode, sample).stack == s.stack,
{
}

/// What a call instruction makes of the program counter and the stack.
pub proof fn lemma_call_effect(s: MachineState, opcode: u16, sample: u8)
    requires
        s.inv(),
        s.mode == Mode::Running,
        s.fetchable(),
        Instruction::of(opcode).operation() is Call,
    ensures
        s.stack.len() < STACK_DEPTH ==> s.after_cycle(opcode, sample).pc == Instruction::of(
            opcode,
        ).nnn && s.after_cycle(opcode, sample).stack == s.stack.push((s.pc + 2) as u16),
        s.stack.len() >= STACK_DEPTH ==> s.after_cycle(opcode, sample).pc == s.pc + 2
            && s.after_cycle(opcode, sample).stack == s.stack,
{
}

/// What a return instruction makes of the program counter and the stack.
pub proof fn lemma_return_effect(s: MachineState, opcode: u16, sample: u8)
    requires
        s.inv(),
        s.mode == Mode::Running,
        s.fetchable(),
        Instruction::of(opcode).operation() is Return,
    ensures
        s.stack.len() > 0 ==> s.after_cycle(opcode, sample).pc == s.stack.last()
            && s.after_cycle(opcode, sample).stack == s.stack.drop_last(),
        s.stack.len() == 0 ==> s.after_cycle(opcode, sample).pc == s.pc + 2 && s.after_cycle(
            opcode,
            sample,
        ).stack == s.stack,
{
}

/// What a jump instruction makes of the program counter.
pub proof fn lemma_jump_effect(s: MachineState, opcode: u16, sample: u8)
    requires
        s.inv(),
        s.mode == Mode::Running,
        s.fetchable(),
    ensures
        Instruction::of(opcode).operation() is Jump ==> s.after_cycle(opcode, sample).pc
            == Instruction::of(opcode).nnn,
        Instruction::of(opcode).operation() is JumpOffset ==> s.after_cycle(opcode, sample).pc
            == Instruction::of(opcode).nnn + s.registers[0],
{
}

/// Where a cycle leaves the program counter, in all: unchanged in a machine
/// that is not running or cannot fetch; at the target after a jump or a call;
/// at the newest return address after a return; 4 further after a skip whose
/// condition holds; 2 further in every other case.
pub open spec fn next_pc(s: MachineState, opcode: u16) -> int {
    let ins = Instruction::of(opcode);
    if s.mode != Mode::Running || !s.fetchable() {
        s.pc
    } else {
        match ins.operation() {
            Operation::Jump => ins.nnn as int,
            Operation::JumpOffset => ins.nnn + s.registers[0],
            Operation::Call => if s.stack.len() < STACK_DEPTH {
                ins.nnn as int
            } else {
                s.pc + 2
            },
            Operation::Return => if s.stack.len() > 0 {
                s.stack.last() as int
            } else {
                s.pc + 2
            },
            _ => if skip_taken(s, opcode) {
                s.pc + 4
            } else {
                s.pc + 2
            },
        }
    }
}

/// The program counter after a cycle is `next_pc`.
pub proof fn lemma_next_pc(s: MachineState, opcode: u16, sample: u8)
    requires
        s.inv(),
    ensures
        s.after_cycle(opcode, sample).pc == next_pc(s, opcode),
{
    let op = Instruction::of(opcode).operation();
    if s.mode == Mode::Running && s.fetchable() {
        if op is Call {
            lemma_call_effect(s, opcode, sample);
        } else if op is Return {
            lemma_return_effect(s, opcode, sample);
        } else if op is Jump || op is JumpOffset {
            lemma_jump_effect(s, opcode, sample);
        } else if is_skip(op) {
            lemma_skip_advance(s, opcode, sample);
        } else {
            lemma_plain_advance(s, opcode, sample);
        }
    }
}

/// The program counter stays on instruction boundaries as long as the
/// program jumps to even addresses only: a cycle that starts aligned and
/// does not jump to an odd address ends aligned.
pub proof fn lemma_alignment_is_kept(s: MachineState, opcode: u16, sample: u8)
    requires
        s.inv(),
        aligned(s),
        target_aligned(s, opcode),
    ensures
        aligned(s.after_cycle(opcode, sample)),
{
    let op = Instruction::of(opcode).operation();
    let after_pc = s.after_cycle(opcode, sample).pc;
    let after_stack = s.after_cycle(opcode, sample).stack;
    lemma_next_pc(s, opcode, sample);
    assert(after_stack == s.stack || (s.stack.len() > 0 && after_stack == s.stack.drop_last())
        || (s.fetchable() && after_stack == s.stack.push((s.pc + 2) as u16))) by {
        if s.mode == Mode::Running && s.fetchable() {
            if op is Call {
                lemma_call_effect(s, opcode, sample);
            } else if op is Return {
                lemma_return_effect(s, opcode, sample);
            } else {
                lemma_stack_is_kept(s, opcode, sample);
            }
        }
    }
    lemma_parity(s, opcode, after_pc, after_stack);
}

/// The arithmetic of `lemma_alignment_is_kept`, apart from the machine.
proof fn lemma_parity(s: MachineState, opcode: u16, after_pc: int, after_stack: Seq<u16>)
    requires
        s.inv(),
        aligned(s),
        target_aligned(s, opcode),
        after_pc == next_pc(s, opcode),
        after_stack == s.stack || (s.stack.len() > 0 && after_stack == s.stack.drop_last()) || (
        s.fetchable() && after_stack == s.stack.push((s.pc + 2) as u16)),
    ensures
        after_pc % 2 == 0,
        forall|i: int| 0 <= i < after_stack.len() ==> #[trigger] after_stack[i] % 2 == 0,
{
    if s.stack.len() > 0 {
        assert(s.stack.last() == s.stack[s.stack.len() - 1]);
    }
    assert forall|i: int| 0 <= i < after_stack.len() implies #[trigger] after_stack[i] % 2
        == 0 by {
        if i < s.stack.len() {
            assert(after_stack[i] == s.stack[i]);
        }
    }
}

/// After the clear-display instruction every pixel reads off.
pub proof fn lemma_clear_reads_off(s: MachineState, sample: u8, px: int, py: int)
    requires
        s.inv(),
        s.mode == Mode::Running,
        s.fetchable(),
        on_grid(px, py),
    ensures
        !s.after_cycle(0x00E0, sample).pixels[py][px],
{
    assert(Instruction::of(0x00E0).operation() is ClearScreen) by {
        assert(Instruction::of(0x00E0).class == 0 && Instruction::of(0x00E0).nnn == 0x0E0);
    }
}

/// The flags of addition and subtraction have opposite polarity. Adding sets
/// the flag to 1 exactly when the sum passes 255 (a carry); subtracting sets
/// it to 1 exactly when the minuend is at least the subtrahend (no borrow).
/// Both are taken from the operands as they were before the result was
/// written. Where the destination is the flag register itself, the flag
/// replaces the result.
pub proof fn lemma_carry_and_borrow(s: MachineState)
    requires
        s.inv(),
    ensures
        s.summed().registers[FLAG_REGISTER as int] == (if s.x_value() + s.y_value() > 255 {
            1u8
        } else {
            0u8
        }),
        s.subtracted().registers[FLAG_REGISTER as int] == (if s.x_value() >= s.y_value() {
            1u8
        } else {
            0u8
        }),
        s.subtracted_from().registers[FLAG_REGISTER as int] == (if s.y_value() >= s.x_value() {
            1u8
        } else {
            0u8
        }),
        s.vx != FLAG_REGISTER ==> s.summed().x_value() == (s.x_value() + s.y_value()) % 256,
        s.vx != FLAG_REGISTER ==> s.subtracted().x_value() == (s.x_value() - s.y_value()) % 256,
        s.vx != FLAG_REGISTER ==> s.subtracted_from().x_value() == (s.y_value() - s.x_value())
            % 256,
{
}

} // verus!
