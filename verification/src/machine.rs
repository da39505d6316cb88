//! The abstract machine: a mathematical model of the interpreter's state and
//! of what every instruction does to it.
//!
//! The executable interpreter is specified against this model. A [`Machine`]
//! holds the operand stack (its top is the last element), the memory and the
//! program counter. Each instruction is a function from a machine to the
//! machine it leaves behind, paired with the instruction's result. On failure
//! the machine left behind keeps whatever the instruction had already
//! consumed: nothing is rolled back.

use vstd::prelude::*;
use crate::error::VMError;
use crate::opcode::Opcode;

verus! {

/// The value of a 32-bit two's-complement integer that holds the low 32 bits
/// of `x`: the one integer in `i32`'s range that differs from `x` by a
/// multiple of 2^32.
pub open spec fn wrap32(x: int) -> i32 {
    let low = x % 0x1_0000_0000;
    if low > i32::MAX {
        (low - 0x1_0000_0000) as i32
    } else {
        low as i32
    }
}

/// The exact integer result of the arithmetic instruction `op`, one of `Add`,
/// `Sub` and `Mul`, on the left operand `a` and the right operand `b`.
pub open spec fn arith_value(op: Opcode, a: int, b: int) -> int
    recommends
        op == Opcode::Add || op == Opcode::Sub || op == Opcode::Mul,
{
    match op {
        Opcode::Add => a + b,
        Opcode::Sub => a - b,
        Opcode::Mul => a * b,
        _ => 0,
    }
}

/// Whether an operation succeeded, and the failure if it did not: the result
/// with the value of a success forgotten.
pub open spec fn status<T>(result: Result<T, VMError>) -> Result<(), VMError> {
    match result {
        Ok(_) => Ok(()),
        Err(e) => Err(e),
    }
}

/// An instruction's successful effect followed by the move to the next
/// instruction; a failed instruction leaves the program counter alone.
pub open spec fn proceed(effect: (Machine, Result<(), VMError>)) -> (Machine, Result<(), VMError>) {
    if effect.1 is Ok {
        (effect.0.advance(1), effect.1)
    } else {
        effect
    }
}

/// The state of the interpreter.
#[verifier::ext_equal]
pub struct Machine {
    /// The operand stack; the top is the last element.
    pub stack: Seq<i32>,
    /// The memory cells, addressed from 0.
    pub memory: Seq<i32>,
    /// The position in the program of the next instruction.
    pub pc: nat,
}

impl Machine {
    /// The number of values on the stack.
    pub open spec fn depth(self) -> nat {
        self.stack.len()
    }

    /// The value `k` places below the top of the stack; `top(0)` is the top.
    pub open spec fn top(self, k: int) -> i32
        recommends
            0 <= k < self.depth(),
    {
        self.stack[self.stack.len() - 1 - k]
    }

    /// The stack without its top `n` values. Popping more values than the
    /// stack holds leaves it empty.
    pub open spec fn below(self, n: nat) -> Seq<i32> {
        if n <= self.stack.len() {
            self.stack.take(self.stack.len() - n)
        } else {
            Seq::empty()
        }
    }

    /// This machine with another stack.
    pub open spec fn with_stack(self, stack: Seq<i32>) -> Machine {
        Machine { stack, ..self }
    }

    /// This machine with the program counter moved forward by `n`.
    pub open spec fn advance(self, n: nat) -> Machine {
        Machine { pc: self.pc + n, ..self }
    }

    /// The machine with `value` pushed on the stack.
    pub open spec fn push(self, value: i32) -> Machine {
        self.with_stack(self.stack.push(value))
    }

    /// Removes the top value and yields it; `StackUnderflow` on an empty
    /// stack.
    pub open spec fn pop(self) -> (Machine, Result<i32, VMError>) {
        if self.depth() >= 1 {
            (self.with_stack(self.below(1)), Ok(self.top(0)))
        } else {
            (self, Err(VMError::StackUnderflow))
        }
    }

    /// `Add`, `Sub` and `Mul`: the top two values are replaced by the result
    /// of the operation, wrapped to 32 bits; the top value is the right
    /// operand. With fewer than two values the instruction fails with
    /// `StackUnderflow` and the stack is left empty.
    pub open spec fn arith(self, op: Opcode) -> (Machine, Result<(), VMError>) {
        if self.depth() >= 2 {
            let value = wrap32(arith_value(op, self.top(1) as int, self.top(0) as int));
            (self.with_stack(self.below(2).push(value)), Ok(()))
        } else {
            (self.with_stack(Seq::empty()), Err(VMError::StackUnderflow))
        }
    }

    /// `Store`: the top value is the address, the one below it the value to
    /// write. Both are consumed before the address is checked.
    pub open spec fn store(self) -> (Machine, Result<(), VMError>) {
        let rest = self.with_stack(self.below(2));
        if self.depth() < 2 {
            (rest, Err(VMError::StackUnderflow))
        } else if !(0 <= self.top(0) < self.memory.len()) {
            (rest, Err(VMError::MemoryOutOfBounds))
        } else {
            (Machine { memory: self.memory.update(self.top(0) as int, self.top(1)), ..rest }, Ok(()))
        }
    }

    /// `Load`: the top value is the address; it is replaced by the content of
    /// that memory cell.
    pub open spec fn load(self) -> (Machine, Result<(), VMError>) {
        let rest = self.with_stack(self.below(1));
        if self.depth() < 1 {
            (rest, Err(VMError::StackUnderflow))
        } else if !(0 <= self.top(0) < self.memory.len()) {
            (rest, Err(VMError::MemoryOutOfBounds))
        } else {
            (rest.push(self.memory[self.top(0) as int]), Ok(()))
        }
    }

    /// `Jmp` in a program of `program_len` bytes: the top value is the
    /// target. It is consumed, and the program counter is set to it if it
    /// lies inside the program.
    pub open spec fn jump(self, program_len: nat) -> (Machine, Result<(), VMError>) {
        let rest = self.with_stack(self.below(1));
        if self.depth() < 1 {
            (rest, Err(VMError::StackUnderflow))
        } else if !(0 <= self.top(0) < program_len) {
            (rest, Err(VMError::InvalidJumpTarget))
        } else {
            (Machine { pc: self.top(0) as nat, ..rest }, Ok(()))
        }
    }

    /// `JumpIf` in a program of `program_len` bytes: the top value is the
    /// condition, the one below it the target. Both are consumed and the
    /// target is checked whatever the condition is. The result tells whether
    /// the branch was taken, which it is when the condition is not zero.
    pub open spec fn jump_if(self, program_len: nat) -> (Machine, Result<bool, VMError>) {
        let rest = self.with_stack(self.below(2));
        if self.depth() < 2 {
            (rest, Err(VMError::StackUnderflow))
        } else if !(0 <= self.top(1) < program_len) {
            (rest, Err(VMError::InvalidJumpTarget))
        } else if self.top(0) != 0 {
            (Machine { pc: self.top(1) as nat, ..rest }, Ok(true))
        } else {
            (rest, Ok(false))
        }
    }

    /// `Dup`: a copy of the top value is pushed.
    pub open spec fn dup(self) -> (Machine, Result<(), VMError>) {
        if self.depth() >= 1 {
            (self.push(self.top(0)), Ok(()))
        } else {
            (self, Err(VMError::StackIsEmpty))
        }
    }

    /// `Swap`: the top two values change places.
    pub open spec fn swap(self) -> (Machine, Result<(), VMError>) {
        if self.depth() >= 2 {
            (self.with_stack(self.below(2).push(self.top(0)).push(self.top(1))), Ok(()))
        } else {
            (self, Err(VMError::NotEnoughItemsInStack))
        }
    }

    /// `Rot`: the third value from the top moves to the top; the two above it
    /// keep their order.
    pub open spec fn rot(self) -> (Machine, Result<(), VMError>) {
        if self.depth() >= 3 {
            (
                self.with_stack(
                    self.below(3).push(self.top(1)).push(self.top(0)).push(self.top(2)),
                ),
                Ok(()),
            )
        } else {
            (self, Err(VMError::NotEnoughItemsInStack))
        }
    }

    /// `Over`: a copy of the second value from the top is pushed.
    pub open spec fn over(self) -> (Machine, Result<(), VMError>) {
        if self.depth() >= 2 {
            (self.push(self.top(1)), Ok(()))
        } else {
            (self, Err(VMError::NotEnoughItemsInStack))
        }
    }

    /// `Pick`: the top value `n` is consumed, and a copy of the value at
    /// position `n` of what remains is pushed, where position 0 is the bottom
    /// of the stack. It fails with `NotEnoughItemsInStack` unless `n` is such
    /// a position.
    pub open spec fn pick(self) -> (Machine, Result<(), VMError>) {
        let rest = self.with_stack(self.below(1));
        if self.depth() < 1 {
            (rest, Err(VMError::StackUnderflow))
        } else if !(0 <= self.top(0) < rest.depth()) {
            (rest, Err(VMError::NotEnoughItemsInStack))
        } else {
            (rest.push(rest.stack[self.top(0) as int]), Ok(()))
        }
    }

    /// `Push` in the program `code`: the byte after the instruction is pushed
    /// and the program counter moves onto it. If the program ends with the
    /// instruction, the program counter still moves and the instruction fails
    /// with `InvalidProgramCounter`.
    pub open spec fn push_operand(self, code: Seq<u8>) -> (Machine, Result<(), VMError>) {
        if self.pc + 1 < code.len() {
            (self.push(code[(self.pc + 1) as int] as i32).advance(1), Ok(()))
        } else {
            (self.advance(1), Err(VMError::InvalidProgramCounter))
        }
    }

    /// Whether the program counter has left the program `code`.
    pub open spec fn halted(self, code: Seq<u8>) -> bool {
        self.pc >= code.len()
    }

    /// The instruction `op` executed as part of the program `code`, the move
    /// to the next instruction included: after a success the program counter
    /// stands behind the instruction and its operand, or on the target of a
    /// jump that was taken.
    pub open spec fn perform(self, op: Opcode, code: Seq<u8>) -> (Machine, Result<(), VMError>) {
        match op {
            Opcode::Push => proceed(self.push_operand(code)),
            Opcode::Pop => proceed((self.pop().0, status(self.pop().1))),
            Opcode::Add | Opcode::Sub | Opcode::Mul => proceed(self.arith(op)),
            Opcode::Store => proceed(self.store()),
            Opcode::Load => proceed(self.load()),
            Opcode::Jmp => self.jump(code.len()),
            Opcode::JumpIf => {
                let (rest, jumped) = self.jump_if(code.len());
                match jumped {
                    Ok(taken) => (if taken { rest } else { rest.advance(1) }, Ok(())),
                    Err(e) => (rest, Err(e)),
                }
            },
            Opcode::Dup => proceed(self.dup()),
            Opcode::Swap => proceed(self.swap()),
            Opcode::Rot => proceed(self.rot()),
            Opcode::Over => proceed(self.over()),
            Opcode::Pick => proceed(self.pick()),
        }
    }

    /// One step of the program `code`: the byte under the program counter is
    /// decoded and the instruction performed. A byte that encodes no
    /// instruction fails with `InvalidOpcode` and changes nothing. A halted
    /// machine stays as it is.
    pub open spec fn step(self, code: Seq<u8>) -> (Machine, Result<(), VMError>) {
        if self.halted(code) {
            (self, Ok(()))
        } else {
            match Opcode::decode(code[self.pc as int]) {
                Some(op) => self.perform(op, code),
                None => (self, Err(VMError::InvalidOpcode)),
            }
        }
    }

    /// At most `fuel` steps of the program `code`, stopping early when the
    /// machine halts or a step fails.
    pub open spec fn run(self, code: Seq<u8>, fuel: nat) -> (Machine, Result<(), VMError>)
        decreases fuel,
    {
        if fuel == 0 || self.halted(code) {
            (self, Ok(()))
        } else {
            let (next, result) = self.step(code);
            if result is Err {
                (next, result)
            } else {
                next.run(code, (fuel - 1) as nat)
            }
        }
    }

    /// Whether `fuel` steps are enough for the program to come to an end:
    /// within them the machine halts or a step fails.
    pub open spec fn settles_within(self, code: Seq<u8>, fuel: nat) -> bool {
        let (last, result) = self.run(code, fuel);
        result is Err || last.halted(code)
    }

    /// Whether the program `code`, started on this machine, comes to an end.
    pub open spec fn terminates(self, code: Seq<u8>) -> bool {
        exists|fuel: nat| self.settles_within(code, fuel)
    }

    /// Where a terminating program ends: the machine it leaves behind and
    /// either success, when the machine halted, or the failure that stopped
    /// it.
    pub open spec fn outcome(self, code: Seq<u8>) -> (Machine, Result<(), VMError>)
        recommends
            self.terminates(code),
    {
        self.run(code, choose|fuel: nat| self.settles_within(code, fuel))
    }

    /// Fuel beyond what the program needs changes nothing: once the program
    /// has come to an end within `fuel` steps, running it with `more` gives
    /// the same machine and the same result.
    pub proof fn lemma_run_is_stable(self, code: Seq<u8>, fuel: nat, more: nat)
        requires
            self.settles_within(code, fuel),
            fuel <= more,
        ensures
            self.run(code, more) == self.run(code, fuel),
        decreases fuel,
    {
        if fuel > 0 && !self.halted(code) {
            let (next, result) = self.step(code);
            if result is Ok {
                next.lemma_run_is_stable(code, (fuel - 1) as nat, (more - 1) as nat);
            }
        }
    }

    /// The outcome of a terminating program is what any run long enough to
    /// reach the end gives.
    pub proof fn lemma_outcome_is_settled_run(self, code: Seq<u8>, fuel: nat)
        requires
            self.settles_within(code, fuel),
        ensures
            self.terminates(code),
            self.outcome(code) == self.run(code, fuel),
    {
        let chosen = choose|n: nat| self.settles_within(code, n);
        if chosen <= fuel {
            self.lemma_run_is_stable(code, chosen, fuel);
        } else {
            self.lemma_run_is_stable(code, fuel, chosen);
        }
    }

    /// A run of `first + second` steps is a run of `first` steps followed,
    /// unless it failed, by a run of `second` steps from where it stopped.
    pub proof fn lemma_run_splits(self, code: Seq<u8>, first: nat, second: nat)
        ensures
            self.run(code, first + second) == if self.run(code, first).1 is Err {
                self.run(code, first)
            } else {
                self.run(code, first).0.run(code, second)
            },
        decreases first,
    {
        if first > 0 && !self.halted(code) {
            let (next, result) = self.step(code);
            if result is Ok {
                next.lemma_run_splits(code, (first - 1) as nat, second);
            }
        }
    }

    /// No rollback across instructions: if the program runs `fuel` steps
    /// without failing and the next instruction fails, the program ends with
    /// that failure on the machine that those steps built and the failing
    /// instruction then left behind.
    pub proof fn lemma_failure_keeps_progress(self, code: Seq<u8>, fuel: nat)
        requires
            self.run(code, fuel).1 is Ok,
            !self.run(code, fuel).0.halted(code),
            self.run(code, fuel).0.step(code).1 is Err,
        ensures
            self.terminates(code),
            self.outcome(code) == self.run(code, fuel).0.step(code),
    {
        let reached = self.run(code, fuel).0;
        self.lemma_run_splits(code, fuel, 1);
        assert(reached.run(code, 1) == reached.step(code)) by {
            reveal_with_fuel(Machine::run, 2);
        }
        self.lemma_outcome_is_settled_run(code, fuel + 1);
    }

    /// No rollback within an instruction: a step that fails leaves the memory
    /// as it found it and leaves of the stack a bottom part, without the
    /// values that the instruction had consumed. The program counter stays,
    /// or stands one further where `Push` looked for its operand.
    pub proof fn lemma_failed_step_only_consumes(self, code: Seq<u8>)
        requires
            self.step(code).1 is Err,
        ensures
            self.step(code).0.memory == self.memory,
            self.step(code).0.depth() <= self.depth(),
            self.step(code).0.stack == self.stack.take(self.step(code).0.depth() as int),
            self.step(code).0.pc == self.pc || self.step(code).0.pc == self.pc + 1,
    {
        let left = self.step(code).0;
        assert(left.stack =~= self.stack.take(left.depth() as int));
    }

    /// A successful step that is not a taken jump moves the program counter
    /// forward by the length of the instruction: two bytes for `Push`, one
    /// for every other instruction.
    pub proof fn lemma_step_advances(self, code: Seq<u8>, op: Opcode)
        requires
            !self.halted(code),
            code[self.pc as int] == op.encoding(),
            self.step(code).1 is Ok,
            op != Opcode::Jmp,
            op != Opcode::JumpIf || self.top(0) == 0,
        ensures
            self.step(code).0.pc == self.pc + if op == Opcode::Push { 2nat } else { 1nat },
    {
        Opcode::lemma_decode_inverts_encoding(code[self.pc as int], op);
    }

    /// Arithmetic is exact whenever the exact result fits in 32 bits: the
    /// instruction then pushes the sum, difference or product itself. In any
    /// case what it pushes differs from the exact result by a multiple of
    /// 2^32.
    pub proof fn lemma_arith_is_exact_unless_it_overflows(self, op: Opcode)
        requires
            self.depth() >= 2,
            op == Opcode::Add || op == Opcode::Sub || op == Opcode::Mul,
        ensures
            self.arith(op).1 is Ok,
            self.arith(op).0.depth() == self.depth() - 1,
            ({
                let exact = arith_value(op, self.top(1) as int, self.top(0) as int);
                let pushed = self.arith(op).0.top(0);
                &&& (pushed - exact) % 0x1_0000_0000 == 0
                &&& i32::MIN <= exact <= i32::MAX ==> pushed == exact
            }),
    {
    }

    /// `Store` and `Load` with enough operands and an address that is
    /// negative or not below the number of memory cells fail with
    /// `MemoryOutOfBounds` and leave the memory unchanged.
    pub proof fn lemma_address_out_of_bounds(self)
        requires
            self.depth() >= 1,
            self.top(0) < 0 || self.top(0) >= self.memory.len(),
        ensures
            self.load().1 == Err::<(), VMError>(VMError::MemoryOutOfBounds),
            self.load().0.memory == self.memory,
            self.depth() >= 2 ==> self.store().1 == Err::<(), VMError>(VMError::MemoryOutOfBounds),
            self.store().0.memory == self.memory,
    {
    }

    /// `Jmp` and `JumpIf` with enough operands and a target that is negative
    /// or not below the length of the program fail with `InvalidJumpTarget`
    /// and leave the program counter unchanged, whatever the condition of
    /// `JumpIf` is.
    pub proof fn lemma_jump_target_out_of_bounds(self, program_len: nat)
        ensures
            self.depth() >= 1 && !(0 <= self.top(0) < program_len) ==> self.jump(program_len)
                == (self.with_stack(self.below(1)), Err::<(), VMError>(VMError::InvalidJumpTarget)),
            self.depth() >= 2 && !(0 <= self.top(1) < program_len) ==> self.jump_if(program_len)
                == (
                self.with_stack(self.below(2)),
                Err::<bool, VMError>(VMError::InvalidJumpTarget),
            ),
    {
    }

    /// A `JumpIf` whose condition is zero and whose target lies inside the
    /// program consumes both operands and otherwise only moves on to the next
    /// instruction.
    pub proof fn lemma_jump_if_not_taken(self, code: Seq<u8>)
        requires
            !self.halted(code),
            code[self.pc as int] == Opcode::JumpIf.encoding(),
            self.depth() >= 2,
            self.top(0) == 0,
            0 <= self.top(1) < code.len(),
        ensures
            self.step(code) == (
                Machine { stack: self.below(2), memory: self.memory, pc: self.pc + 1 },
                Ok::<(), VMError>(()),
            ),
    {
        Opcode::lemma_decode_inverts_encoding(code[self.pc as int], Opcode::JumpIf);
    }

    /// A `Push` that is the last byte of the program has no operand and fails
    /// with `InvalidProgramCounter`.
    pub proof fn lemma_push_without_operand(self, code: Seq<u8>)
        requires
            self.pc + 1 == code.len(),
            code[self.pc as int] == Opcode::Push.encoding(),
        ensures
            self.step(code) == (
                self.advance(1),
                Err::<(), VMError>(VMError::InvalidProgramCounter),
            ),
    {
        Opcode::lemma_decode_inverts_encoding(code[self.pc as int], Opcode::Push);
    }

    /// A byte that encodes no instruction stops the program with
    /// `InvalidOpcode` and changes nothing.
    pub proof fn lemma_unknown_byte_fails(self, code: Seq<u8>)
        requires
            !self.halted(code),
            !Opcode::is_encoding(code[self.pc as int]),
        ensures
            self.step(code) == (self, Err::<(), VMError>(VMError::InvalidOpcode)),
    {
    }
}

} // verus!
