//! Machine state and the fetch-decode-execute engine.
//!
//! The machine owns five state regions: byte-addressable memory (with a glyph
//! table in a fixed low prefix), a register file (sixteen 8-bit registers, a
//! 16-bit index register, a 16-bit program counter), a fixed-depth call stack,
//! two 8-bit countdown timers, a monochrome display buffer, and a key-state
//! array. Each instruction is a 16-bit word, stored low byte first; `fetch`
//! reads and combines the two bytes at the program counter, and `execute`
//! decodes the word into four 4-bit fields and dispatches on them.
//!
//! The mathematical model of a machine is [`MachineView`]; the semantics of a
//! single decoded instruction is the spec function [`step`], and of a whole
//! fetch-then-execute cycle the spec function [`cycle`]. Every failure
//! (unknown opcode, stack overflow or underflow, program counter out of
//! range) is surfaced as a [`CpuError`] and leaves the machine unchanged.

use vstd::prelude::*;

verus! {

/// Number of bytes of machine memory.
pub const RAM_SIZE: usize = 4096;

/// Number of general-purpose 8-bit registers.
pub const REG_COUNT: usize = 16;

/// Width of the display in pixels.
pub const DISPLAY_WIDTH: usize = 64;

/// Height of the display in pixels.
pub const DISPLAY_HEIGHT: usize = 32;

/// Capacity of the call stack, in return addresses.
pub const STACK_SIZE: usize = 16;

/// Address at which a loaded program begins; the initial program counter.
pub const START_ADDR: u16 = 0x200;

/// Number of keys in the key-state array.
pub const NUM_KEYS: usize = 16;

/// Number of bytes of the glyph table written at the bottom of memory.
pub const FONTSET_SIZE: usize = 80;

/// Index of the register that reports carry and borrow by convention.
pub const FLAG_REG: usize = 15;

/// The glyph table: sixteen 5-byte bitmaps for the hexadecimal digits,
/// written once into the low prefix of memory at construction.
pub const FONTSET: [u8; 80] = [
    0xF0, 0x90, 0x90, 0x90, 0xF0, // 0
    0x20, 0x60, 0x20, 0x20, 0x70, // 1
    0xF0, 0x10, 0xF0, 0x80, 0xF0, // 2
    0xF0, 0x10, 0xF0, 0x10, 0xF0, // 3
    0x90, 0x90, 0xF0, 0x10, 0x10, // 4
    0xF0, 0x80, 0xF0, 0x10, 0xF0, // 5
    0xF0, 0x80, 0xF0, 0x90, 0xF0, // 6
    0xF0, 0x10, 0x20, 0x40, 0x40, // 7
    0xF0, 0x90, 0xF0, 0x90, 0xF0, // 8
    0xF0, 0x90, 0xF0, 0x10, 0xF0, // 9
    0xF0, 0x90, 0xF0, 0x90, 0x90, // A
    0xE0, 0x90, 0xE0, 0x90, 0xE0, // B
    0xF0, 0x80, 0x80, 0x80, 0xF0, // C
    0xE0, 0x90, 0x90, 0x90, 0xE0, // D
    0xF0, 0x80, 0xF0, 0x80, 0xF0, // E
    0xF0, 0x80, 0xF0, 0x80, 0x80, // F
];

/// A condition that stops a cycle. The machine is left unchanged and the
/// caller decides whether to halt.
#[derive(Clone, Copy, Debug, PartialEq, Eq, Structural)]
pub enum CpuError {
    /// The decoded 4-tuple of nibble fields matches no known instruction.
    UnknownOpcode(u16),
    /// A subroutine call found the call stack already full.
    StackOverflow,
    /// A return instruction found the call stack empty.
    StackUnderflow,
    /// A memory access (a 2-byte fetch at the program counter, or a program
    /// image copy) would fall outside the memory array.
    OutOfBounds,
}

/// The mathematical model of the machine: one field per state region.
#[verifier::ext_equal]
pub struct MachineView {
    /// Memory contents, one entry per byte address.
    pub memory: Seq<u8>,
    /// Program counter.
    pub pc: u16,
    /// General-purpose registers.
    pub reg: Seq<u8>,
    /// Display buffer, row-major, one boolean per pixel.
    pub display: Seq<bool>,
    /// Key states, one boolean per key identifier.
    pub keys: Seq<bool>,
    /// Index register.
    pub i_reg: u16,
    /// Stack pointer: the number of return addresses currently on the stack.
    pub sp: u16,
    /// Call stack storage; entries at indices below `sp` are live.
    pub stack: Seq<u16>,
    /// Delay timer.
    pub dt: u8,
    /// Sound timer.
    pub st: u8,
}

impl MachineView {
    /// Well-formedness: every region has its architecture-defined size and
    /// the stack pointer stays within the stack.
    pub open spec fn wf(self) -> bool {
        &&& self.memory.len() == RAM_SIZE
        &&& self.reg.len() == REG_COUNT
        &&& self.display.len() == DISPLAY_WIDTH * DISPLAY_HEIGHT
        &&& self.keys.len() == NUM_KEYS
        &&& self.stack.len() == STACK_SIZE
        &&& self.sp <= STACK_SIZE
    }
}

/// Most significant nibble of an instruction word: the instruction family.
pub open spec fn op_d1(op: u16) -> u16 {
    (op / 0x1000) as u16
}

/// Second nibble: commonly the first register operand.
pub open spec fn op_d2(op: u16) -> u16 {
    ((op / 0x100) % 0x10) as u16
}

/// Third nibble: commonly the second register operand.
pub open spec fn op_d3(op: u16) -> u16 {
    ((op / 0x10) % 0x10) as u16
}

/// Least significant nibble.
pub open spec fn op_d4(op: u16) -> u16 {
    (op % 0x10) as u16
}

/// Low 12 bits of an instruction word: an address operand.
pub open spec fn op_nnn(op: u16) -> u16 {
    (op % 0x1000) as u16
}

/// Low byte of an instruction word: an immediate operand.
pub open spec fn op_kk(op: u16) -> u8 {
    (op % 0x100) as u8
}

/// A display buffer with every pixel off.
pub open spec fn blank_display() -> Seq<bool> {
    Seq::new((DISPLAY_WIDTH * DISPLAY_HEIGHT) as nat, |i: int| false)
}

/// Pushing a return address: succeeds exactly when the stack has room.
pub open spec fn stack_push(s: MachineView, val: u16) -> Result<MachineView, CpuError> {
    if s.sp < STACK_SIZE as u16 {
        Ok(MachineView { stack: s.stack.update(s.sp as int, val), sp: (s.sp + 1) as u16, ..s })
    } else {
        Err(CpuError::StackOverflow)
    }
}

/// Popping a return address: succeeds exactly when the stack is nonempty.
pub open spec fn stack_pop(s: MachineView) -> Result<(MachineView, u16), CpuError> {
    if s.sp > 0 {
        Ok((MachineView { sp: (s.sp - 1) as u16, ..s }, s.stack[s.sp - 1]))
    } else {
        Err(CpuError::StackUnderflow)
    }
}

/// A machine whose program counter was advanced past one skipped
/// instruction word.
pub open spec fn skip_next(s: MachineView) -> MachineView {
    MachineView { pc: ((s.pc + 2) % 0x10000) as u16, ..s }
}

/// The effect of one decoded instruction word `op` on machine `s`: the
/// architecture's opcode table. An unmatched pattern is a defined failure,
/// and every failure leaves the machine unchanged.
pub open spec fn step(s: MachineView, op: u16) -> Result<MachineView, CpuError> {
    let d1 = op_d1(op);
    let d2 = op_d2(op);
    let d3 = op_d3(op);
    let d4 = op_d4(op);
    let x = d2 as int;
    let y = d3 as int;
    if d1 == 0 && d2 == 0 && d3 == 0 && d4 == 0 {
        // no-op / padding
        Ok(s)
    } else if d1 == 0 && d2 == 0 && d3 == 0xE && d4 == 0 {
        // clear display
        Ok(MachineView { display: blank_display(), ..s })
    } else if d1 == 0 && d2 == 0 && d3 == 0xE && d4 == 0xE {
        // return from subroutine
        match stack_pop(s) {
            Ok(popped) => Ok(MachineView { pc: popped.1, ..popped.0 }),
            Err(e) => Err(e),
        }
    } else if d1 == 1 {
        // jump
        Ok(MachineView { pc: op_nnn(op), ..s })
    } else if d1 == 2 {
        // call subroutine
        match stack_push(s, s.pc) {
            Ok(pushed) => Ok(MachineView { pc: op_nnn(op), ..pushed }),
            Err(e) => Err(e),
        }
    } else if d1 == 3 {
        // skip if register equals immediate
        Ok(if s.reg[x] == op_kk(op) { skip_next(s) } else { s })
    } else if d1 == 4 {
        // skip if register differs from immediate
        Ok(if s.reg[x] != op_kk(op) { skip_next(s) } else { s })
    } else if d1 == 5 && d4 == 0 {
        // skip if registers are equal
        Ok(if s.reg[x] == s.reg[y] { skip_next(s) } else { s })
    } else if d1 == 6 {
        // load immediate
        Ok(MachineView { reg: s.reg.update(x, op_kk(op)), ..s })
    } else if d1 == 7 {
        // add immediate, wrapping, no flag effect
        Ok(MachineView { reg: s.reg.update(x, ((s.reg[x] + op_kk(op)) % 0x100) as u8), ..s })
    } else if d1 == 8 && d4 == 0 {
        // move
        Ok(MachineView { reg: s.reg.update(x, s.reg[y]), ..s })
    } else if d1 == 8 && d4 == 1 {
        // bitwise or
        Ok(MachineView { reg: s.reg.update(x, s.reg[x] | s.reg[y]), ..s })
    } else if d1 == 8 && d4 == 2 {
        // bitwise and
        Ok(MachineView { reg: s.reg.update(x, s.reg[x] & s.reg[y]), ..s })
    } else if d1 == 8 && d4 == 3 {
        // bitwise xor
        Ok(MachineView { reg: s.reg.update(x, s.reg[x] ^ s.reg[y]), ..s })
    } else if d1 == 8 && d4 == 4 {
        // add with carry: the flag register reports the carry, written
        // before the sum so that a sum into the flag register wins
        let sum = s.reg[x] + s.reg[y];
        let flag: u8 = if sum >= 0x100 { 1 } else { 0 };
        Ok(MachineView {
            reg: s.reg.update(FLAG_REG as int, flag).update(x, (sum % 0x100) as u8),
            ..s
        })
    } else {
        Err(CpuError::UnknownOpcode(op))
    }
}

/// Whether the program counter leaves room to fetch a full 2-byte
/// instruction word from memory.
pub open spec fn can_fetch(s: MachineView) -> bool {
    s.pc + 1 < RAM_SIZE
}

/// The instruction word at the program counter: the byte at `pc` is the low
/// byte of the word and the byte at `pc + 1` the high byte.
pub open spec fn fetched_word(s: MachineView) -> u16 {
    (s.memory[s.pc + 1] * 0x100 + s.memory[s.pc as int]) as u16
}

/// A machine whose program counter was advanced past the fetched word.
pub open spec fn after_fetch(s: MachineView) -> MachineView {
    MachineView { pc: (s.pc + 2) as u16, ..s }
}

/// The effect of one full cycle on machine `s`: fetch the word at the
/// program counter, advance the counter by two, then execute the word.
pub open spec fn cycle(s: MachineView) -> Result<MachineView, CpuError> {
    if can_fetch(s) {
        step(after_fetch(s), fetched_word(s))
    } else {
        Err(CpuError::OutOfBounds)
    }
}

/// The machine itself. The interpreter exclusively owns and mutates all
/// regions; the display is read, and the key-state array written, directly
/// by external collaborators between cycles.
pub struct Cpu {
    /// Memory, `RAM_SIZE` bytes; the glyph table occupies the low prefix.
    pub memory: Vec<u8>,
    /// Program counter.
    pub pc: u16,
    /// General-purpose registers, `REG_COUNT` cells.
    pub reg: Vec<u8>,
    /// Display buffer, `DISPLAY_WIDTH * DISPLAY_HEIGHT` pixels, row-major.
    pub display: Vec<bool>,
    /// Key states, `NUM_KEYS` cells, written by the external input layer.
    pub keys: Vec<bool>,
    /// Index register.
    pub i_reg: u16,
    /// Stack pointer.
    pub sp: u16,
    /// Call stack storage, `STACK_SIZE` cells.
    pub stack: Vec<u16>,
    /// Delay timer.
    pub dt: u8,
    /// Sound timer.
    pub st: u8,
}

impl View for Cpu {
    type V = MachineView;

    open spec fn view(&self) -> MachineView {
        MachineView {
            memory: self.memory@,
            pc: self.pc,
            reg: self.reg@,
            display: self.display@,
            keys: self.keys@,
            i_reg: self.i_reg,
            sp: self.sp,
            stack: self.stack@,
            dt: self.dt,
            st: self.st,
        }
    }
}

/// A vector of `n` copies of `value`.
fn filled<T: Copy>(n: usize, value: T) -> (r: Vec<T>)
    ensures
        r@ == Seq::new(n as nat, |i: int| value),
{
    let mut r: Vec<T> = Vec::new();
    let mut i: usize = 0;
    while i < n
        invariant
            i <= n,
            r@.len() == i,
            forall|k: int| 0 <= k < i ==> r@[k] == value,
        decreases n - i,
    {
        r.push(value);
        i = i + 1;
    }
    proof {
        assert(r@ =~= Seq::new(n as nat, |i: int| value));
    }
    r
}

impl Cpu {
    /// Well-formedness of the machine: the sizes of its regions.
    pub open spec fn wf(&self) -> bool {
        self@.wf()
    }

    /// Builds a machine in its initial state: zeroed memory with the glyph
    /// table written into the low prefix, the program counter at the program
    /// origin, and all other regions zeroed. This is the only place the
    /// glyph table is written.
    pub fn new() -> (cpu: Cpu)
        ensures
            cpu.wf(),
            cpu@ == initial_state(),
    {
        let mut memory = filled(RAM_SIZE, 0u8);
        let mut i: usize = 0;
        while i < FONTSET_SIZE
            invariant
                i <= FONTSET_SIZE,
                memory@.len() == RAM_SIZE,
                forall|k: int| 0 <= k < i ==> memory@[k] == FONTSET@[k],
                forall|k: int| i <= k < RAM_SIZE ==> memory@[k] == 0u8,
            decreases FONTSET_SIZE - i,
        {
            memory.set(i, FONTSET[i]);
            i = i + 1;
        }
        let cpu = Cpu {
            memory,
            pc: START_ADDR,
            reg: filled(REG_COUNT, 0u8),
            display: filled(DISPLAY_WIDTH * DISPLAY_HEIGHT, false),
            keys: filled(NUM_KEYS, false),
            i_reg: 0,
            sp: 0,
            stack: filled(STACK_SIZE, 0u16),
            dt: 0,
            st: 0,
        };
        proof {
            assert(cpu@.memory =~= initial_state().memory);
            assert(cpu@.reg =~= initial_state().reg);
            assert(cpu@.display =~= initial_state().display);
            assert(cpu@.keys =~= initial_state().keys);
            assert(cpu@.stack =~= initial_state().stack);
            assert(cpu@ =~= initial_state());
        }
        cpu
    }

    /// Copies a program image into memory starting at the program origin,
    /// leaving the glyph table and the rest of memory unchanged. An image
    /// that would run past the end of memory is rejected before any write.
    pub fn load(&mut self, program: &Vec<u8>) -> (r: Result<(), CpuError>)
        requires
            old(self).wf(),
        ensures
            final(self).wf(),
            program@.len() <= RAM_SIZE - START_ADDR ==> r is Ok
                && final(self)@ == (MachineView {
                    memory: loaded_memory(old(self)@.memory, program@),
                    ..old(self)@
                }),
            program@.len() > RAM_SIZE - START_ADDR ==> r == Err::<(), CpuError>(
                CpuError::OutOfBounds,
            ) && final(self)@ == old(self)@,
    {
        if program.len() > RAM_SIZE - START_ADDR as usize {
            return Err(CpuError::OutOfBounds);
        }
        let mut j: usize = 0;
        while j < program.len()
            invariant
                old(self).wf(),
                j <= program@.len(),
                program@.len() <= RAM_SIZE - START_ADDR,
                self.memory@.len() == RAM_SIZE,
                self.pc == old(self).pc,
                self.reg@ == old(self).reg@,
                self.display@ == old(self).display@,
                self.keys@ == old(self).keys@,
                self.i_reg == old(self).i_reg,
                self.sp == old(self).sp,
                self.stack@ == old(self).stack@,
                self.dt == old(self).dt,
                self.st == old(self).st,
                forall|k: int|
                    START_ADDR <= k < START_ADDR + j ==> self.memory@[k] == program@[k
                        - START_ADDR],
                forall|k: int|
                    0 <= k < RAM_SIZE && !(START_ADDR <= k < START_ADDR + j)
                        ==> self.memory@[k] == old(self).memory@[k],
            decreases program@.len() - j,
        {
            self.memory.set(START_ADDR as usize + j, program[j]);
            j = j + 1;
        }
        proof {
            assert(self@.memory =~= loaded_memory(old(self)@.memory, program@));
            assert(self@ =~= (MachineView {
                memory: loaded_memory(old(self)@.memory, program@),
                ..old(self)@
            }));
        }
        Ok(())
    }

    /// Stores a return address at the stack pointer and advances it, or
    /// reports overflow, leaving the machine unchanged, when the stack is
    /// already full.
    pub fn push(&mut self, val: u16) -> (r: Result<(), CpuError>)
        requires
            old(self).wf(),
        ensures
            final(self).wf(),
            match stack_push(old(self)@, val) {
                Ok(t) => r is Ok && final(self)@ == t,
                Err(e) => r == Err::<(), CpuError>(e) && final(self)@ == old(self)@,
            },
    {
        if self.sp < STACK_SIZE as u16 {
            self.stack.set(self.sp as usize, val);
            self.sp = self.sp + 1;
            Ok(())
        } else {
            Err(CpuError::StackOverflow)
        }
    }

    /// Removes and returns the most recently pushed return address, or
    /// reports underflow, leaving the machine unchanged, when the stack is
    /// empty. An empty stack never fabricates an address.
    pub fn pop(&mut self) -> (r: Result<u16, CpuError>)
        requires
            old(self).wf(),
        ensures
            final(self).wf(),
            match stack_pop(old(self)@) {
                Ok(t) => r == Ok::<u16, CpuError>(t.1) && final(self)@ == t.0,
                Err(e) => r == Err::<u16, CpuError>(e) && final(self)@ == old(self)@,
            },
    {
        if self.sp > 0 {
            self.sp = self.sp - 1;
            Ok(self.stack[self.sp as usize])
        } else {
            Err(CpuError::StackUnderflow)
        }
    }

    /// Reads the two bytes at the program counter, combines them into an
    /// instruction word (the byte at the lower address is the low byte of
    /// the word), and advances the counter by two. A counter that does not
    /// leave room for both bytes is rejected before any access.
    pub fn fetch(&mut self) -> (r: Result<u16, CpuError>)
        requires
            old(self).wf(),
        ensures
            final(self).wf(),
            can_fetch(old(self)@) ==> r == Ok::<u16, CpuError>(fetched_word(old(self)@))
                && final(self)@ == after_fetch(old(self)@),
            !can_fetch(old(self)@) ==> r == Err::<u16, CpuError>(CpuError::OutOfBounds)
                && final(self)@ == old(self)@,
    {
        if (self.pc as usize) + 1 < RAM_SIZE {
            let lower_byte = self.memory[self.pc as usize] as u16;
            let upper_byte = self.memory[self.pc as usize + 1] as u16;
            let op_code = upper_byte * 0x100 + lower_byte;
            self.pc = self.pc + 2;
            Ok(op_code)
        } else {
            Err(CpuError::OutOfBounds)
        }
    }

    /// Decodes `opcode` into its four nibble fields and dispatches to the
    /// matching operation of the opcode table [`step`]. A failing instruction
    /// reports its error and leaves the machine unchanged.
    pub fn execute(&mut self, opcode: u16) -> (r: Result<(), CpuError>)
        requires
            old(self).wf(),
        ensures
            final(self).wf(),
            match step(old(self)@, opcode) {
                Ok(t) => r is Ok && final(self)@ == t,
                Err(e) => r == Err::<(), CpuError>(e) && final(self)@ == old(self)@,
            },
    {
        let d1: u16 = opcode / 0x1000;
        let d2: u16 = (opcode / 0x100) % 0x10;
        let d3: u16 = (opcode / 0x10) % 0x10;
        let d4: u16 = opcode % 0x10;
        let x = d2 as usize;
        let y = d3 as usize;

        match (d1, d2, d3, d4) {
            (0, 0, 0, 0) => Ok(()),

            (0, 0, 0xE, 0) => {
                self.display = filled(DISPLAY_WIDTH * DISPLAY_HEIGHT, false);
                proof {
                    assert(self.display@ =~= blank_display());
                }
                Ok(())
            },

            (0, 0, 0xE, 0xE) => {
                match self.pop() {
                    Ok(ret_addr) => {
                        self.pc = ret_addr;
                        Ok(())
                    },
                    Err(e) => Err(e),
                }
            },

            (1, _, _, _) => {
                self.pc = opcode % 0x1000;
                Ok(())
            },

            (2, _, _, _) => {
                let ret_addr = self.pc;
                match self.push(ret_addr) {
                    Ok(()) => {
                        self.pc = opcode % 0x1000;
                        Ok(())
                    },
                    Err(e) => Err(e),
                }
            },

            (3, _, _, _) => {
                let val = (opcode % 0x100) as u8;
                if self.reg[x] == val {
                    self.pc = ((self.pc as u32 + 2) % 0x10000) as u16;
                }
                Ok(())
            },

            (4, _, _, _) => {
                let val = (opcode % 0x100) as u8;
                if self.reg[x] != val {
                    self.pc = ((self.pc as u32 + 2) % 0x10000) as u16;
                }
                Ok(())
            },

            (5, _, _, 0) => {
                if self.reg[x] == self.reg[y] {
                    self.pc = ((self.pc as u32 + 2) % 0x10000) as u16;
                }
                Ok(())
            },

            (6, _, _, _) => {
                let val = (opcode % 0x100) as u8;
                self.reg.set(x, val);
                Ok(())
            },

            (7, _, _, _) => {
                let val = (opcode % 0x100) as u8;
                let sum: u16 = self.reg[x] as u16 + val as u16;
                self.reg.set(x, (sum % 0x100) as u8);
                Ok(())
            },

            (8, _, _, 0) => {
                self.reg.set(x, self.reg[y]);
                Ok(())
            },

            (8, _, _, 1) => {
                self.reg.set(x, self.reg[x] | self.reg[y]);
                Ok(())
            },

            (8, _, _, 2) => {
                self.reg.set(x, self.reg[x] & self.reg[y]);
                Ok(())
            },

            (8, _, _, 3) => {
                self.reg.set(x, self.reg[x] ^ self.reg[y]);
                Ok(())
            },

            (8, _, _, 4) => {
                let sum: u16 = self.reg[x] as u16 + self.reg[y] as u16;
                let flag: u8 = if sum >= 0x100 { 1 } else { 0 };
                self.reg.set(FLAG_REG, flag);
                self.reg.set(x, (sum % 0x100) as u8);
                Ok(())
            },

            (_, _, _, _) => Err(CpuError::UnknownOpcode(opcode)),
        }
    }

    /// Runs one cycle: fetch the instruction word at the program counter,
    /// then execute it. A failing cycle reports its error and leaves the
    /// machine unchanged.
    pub fn run(&mut self) -> (r: Result<(), CpuError>)
        requires
            old(self).wf(),
        ensures
            final(self).wf(),
            match cycle(old(self)@) {
                Ok(t) => r is Ok && final(self)@ == t,
                Err(e) => r == Err::<(), CpuError>(e) && final(self)@ == old(self)@,
            },
    {
        let pc_before = self.pc;
        let op_code = match self.fetch() {
            Ok(op) => op,
            Err(e) => {
                return Err(e);
            },
        };
        match self.execute(op_code) {
            Ok(()) => Ok(()),
            Err(e) => {
                self.pc = pc_before;
                Err(e)
            },
        }
    }

    /// Decrements the delay timer by one, saturating at zero. Invoked by the
    /// external driver at its own fixed rate.
    pub fn tick_delay_timer(&mut self)
        ensures
            final(self)@ == (MachineView { dt: sat_dec(old(self).dt), ..old(self)@ }),
    {
        if self.dt > 0 {
            self.dt = self.dt - 1;
        }
    }

    /// Decrements the sound timer by one, saturating at zero. Invoked by the
    /// external driver at its own fixed rate.
    pub fn tick_sound_timer(&mut self)
        ensures
            final(self)@ == (MachineView { st: sat_dec(old(self).st), ..old(self)@ }),
    {
        if self.st > 0 {
            self.st = self.st - 1;
        }
    }
}

/// A timer value decremented by one, saturating at zero.
pub open spec fn sat_dec(t: u8) -> u8 {
    if t > 0 { (t - 1) as u8 } else { 0 }
}

/// Memory `mem` with program image `prog` copied in at the program origin
/// and every other byte unchanged.
pub open spec fn loaded_memory(mem: Seq<u8>, prog: Seq<u8>) -> Seq<u8> {
    Seq::new(
        mem.len(),
        |i: int|
            if START_ADDR <= i < START_ADDR + prog.len() {
                prog[i - START_ADDR]
            } else {
                mem[i]
            },
    )
}

/// The state of a machine at construction: memory all zero but for the glyph
/// table in its low prefix, the program counter at the program origin, and
/// every register, stack cell, timer, pixel and key zeroed.
pub open spec fn initial_state() -> MachineView {
    MachineView {
        memory: Seq::new(
            RAM_SIZE as nat,
            |i: int| if i < FONTSET_SIZE { FONTSET@[i] } else { 0u8 },
        ),
        pc: START_ADDR,
        reg: Seq::new(REG_COUNT as nat, |i: int| 0u8),
        display: blank_display(),
        keys: Seq::new(NUM_KEYS as nat, |i: int| false),
        i_reg: 0,
        sp: 0,
        stack: Seq::new(STACK_SIZE as nat, |i: int| 0u16),
        dt: 0,
        st: 0,
    }
}

} // verus!
