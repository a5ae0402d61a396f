//! Laws of the instruction semantics, stated and proved over the
//! mathematical model in [`crate::cpu`].

use vstd::prelude::*;

use crate::cpu::CpuError;
use crate::cpu::MachineView;
use crate::cpu::DISPLAY_HEIGHT;
use crate::cpu::DISPLAY_WIDTH;
use crate::cpu::FLAG_REG;
use crate::cpu::RAM_SIZE;
use crate::cpu::STACK_SIZE;
use crate::cpu::can_fetch;
use crate::cpu::cycle;
use crate::cpu::fetched_word;
use crate::cpu::op_d1;
use crate::cpu::op_d2;
use crate::cpu::op_d3;
use crate::cpu::op_d4;
use crate::cpu::op_kk;
use crate::cpu::op_nnn;
use crate::cpu::stack_pop;
use crate::cpu::stack_push;
use crate::cpu::step;

verus! {

/// Add with carry: for all register indices `x` and `y` and all 8-bit values
/// `a = reg[x]` and `b = reg[y]`, executing the add-with-carry instruction
/// leaves `(a + b) mod 256` in `reg[x]` and sets the flag register to 1
/// exactly when `a + b >= 256`, while the program counter is untouched. The
/// one excluded index is `x` equal to the flag register itself, where the
/// sum is written over the freshly written flag.
pub proof fn lemma_add_with_carry(s: MachineView, op: u16)
    requires
        s.wf(),
        op_d1(op) == 8,
        op_d4(op) == 4,
        op_d2(op) != FLAG_REG,
    ensures
        step(s, op) is Ok,
        ({
            let t = step(s, op)->Ok_0;
            let a = s.reg[op_d2(op) as int] as int;
            let b = s.reg[op_d3(op) as int] as int;
            &&& t.reg[op_d2(op) as int] == (a + b) % 0x100
            &&& t.reg[FLAG_REG as int] == (if a + b >= 0x100 {
                1u8
            } else {
                0u8
            })
            &&& t.pc == s.pc
            &&& t.memory == s.memory
        }),
{
}

/// Load immediate is exact: for every 8-bit immediate and every register
/// index `x`, the instruction stores exactly the immediate in `reg[x]` and
/// changes nothing else.
pub proof fn lemma_load_immediate(s: MachineView, op: u16)
    requires
        s.wf(),
        op_d1(op) == 6,
    ensures
        step(s, op) is Ok,
        step(s, op)->Ok_0.reg[op_d2(op) as int] == op_kk(op),
        step(s, op)->Ok_0 == (MachineView {
            reg: s.reg.update(op_d2(op) as int, op_kk(op)),
            ..s
        }),
{
}

/// Call/return round trip: from any machine `s` whose program counter
/// already points past the call instruction (the state right after the
/// call's own fetch), executing a call to an address holding a return
/// instruction and then running one full cycle there restores the program
/// counter and the stack pointer exactly, for every valid target address and
/// every stack depth below capacity. Memory, registers and display are
/// untouched throughout.
pub proof fn lemma_call_return_round_trip(s: MachineView, op: u16)
    requires
        s.wf(),
        op_d1(op) == 2,
        s.sp < STACK_SIZE,
        op_nnn(op) + 1 < RAM_SIZE,
        s.memory[op_nnn(op) as int] == 0xEE,
        s.memory[op_nnn(op) as int + 1] == 0x00,
    ensures
        step(s, op) is Ok,
        step(s, op)->Ok_0.pc == op_nnn(op),
        cycle(step(s, op)->Ok_0) is Ok,
        ({
            let back = cycle(step(s, op)->Ok_0)->Ok_0;
            &&& back.pc == s.pc
            &&& back.sp == s.sp
            &&& back.memory == s.memory
            &&& back.reg == s.reg
            &&& back.display == s.display
        }),
{
}

/// Whether an instruction word belongs to the skip class: skip on register
/// equal to immediate, on register different from immediate, or on two
/// registers equal.
pub open spec fn is_skip(op: u16) -> bool {
    ||| op_d1(op) == 3
    ||| op_d1(op) == 4
    ||| (op_d1(op) == 5 && op_d4(op) == 0)
}

/// Whether the condition of a skip-class instruction word holds on machine
/// `s`, so that the instruction after it is skipped.
pub open spec fn skip_taken(s: MachineView, op: u16) -> bool {
    if op_d1(op) == 3 {
        s.reg[op_d2(op) as int] == op_kk(op)
    } else if op_d1(op) == 4 {
        s.reg[op_d2(op) as int] != op_kk(op)
    } else {
        s.reg[op_d2(op) as int] == s.reg[op_d3(op) as int]
    }
}

/// Skip stride: a cycle whose fetched word is a skip-class instruction
/// advances the program counter by exactly 4 (its own fetch plus the skipped
/// word) when the condition holds, and by exactly 2 when it does not, for
/// every register and immediate combination.
pub proof fn lemma_skip_stride(s: MachineView)
    requires
        s.wf(),
        can_fetch(s),
        is_skip(fetched_word(s)),
    ensures
        cycle(s) is Ok,
        cycle(s)->Ok_0.pc == if skip_taken(s, fetched_word(s)) {
            s.pc + 4
        } else {
            s.pc + 2
        },
{
}

/// Clear display blanks the full grid: every cell of the width-by-height
/// display, whatever it held before, is false afterwards, and no other
/// region changes.
pub proof fn lemma_clear_display(s: MachineView, op: u16)
    requires
        s.wf(),
        op_d1(op) == 0,
        op_d2(op) == 0,
        op_d3(op) == 0xE,
        op_d4(op) == 0,
    ensures
        step(s, op) is Ok,
        step(s, op)->Ok_0.display.len() == DISPLAY_WIDTH * DISPLAY_HEIGHT,
        forall|i: int|
            0 <= i < DISPLAY_WIDTH * DISPLAY_HEIGHT ==> !step(s, op)->Ok_0.display[i],
        step(s, op)->Ok_0 == (MachineView { display: step(s, op)->Ok_0.display, ..s }),
{
}

/// No implemented instruction writes memory: a successful step leaves every
/// byte, the glyph table in the low prefix included, exactly as it was.
pub proof fn lemma_step_never_writes_memory(s: MachineView, op: u16)
    requires
        s.wf(),
        step(s, op) is Ok,
    ensures
        step(s, op)->Ok_0.memory == s.memory,
{
}

/// A successful cycle preserves well-formedness: every region keeps its
/// architecture-defined size and the stack pointer stays within the stack.
pub proof fn lemma_cycle_preserves_wf(s: MachineView)
    requires
        s.wf(),
        cycle(s) is Ok,
    ensures
        cycle(s)->Ok_0.wf(),
{
}

/// Stack discipline at the boundary: with the stack pointer counting the
/// pushes that have succeeded so far, a push fails — with the overflow
/// error, changing nothing — exactly when the stack is full, and a pop fails
/// — with the underflow error, changing nothing — exactly when the stack is
/// empty. So pushing capacity-plus-one times from an empty stack fails
/// exactly once, at the last push, and popping capacity-plus-one times
/// afterwards fails exactly once, at the last pop.
pub proof fn lemma_stack_boundary(s: MachineView, val: u16)
    requires
        s.wf(),
    ensures
        stack_push(s, val) is Ok <==> s.sp < STACK_SIZE,
        s.sp < STACK_SIZE ==> stack_push(s, val)->Ok_0.sp == s.sp + 1,
        s.sp == STACK_SIZE ==> stack_push(s, val) == Err::<MachineView, CpuError>(
            CpuError::StackOverflow,
        ),
        stack_pop(s) is Ok <==> s.sp > 0,
        s.sp > 0 ==> stack_pop(s)->Ok_0.0.sp == s.sp - 1,
        s.sp == 0 ==> stack_pop(s) == Err::<(MachineView, u16), CpuError>(
            CpuError::StackUnderflow,
        ),
{
}

} // verus!
