//! The executable interpreter.

use vstd::prelude::*;
use crate::error::VMError;
use crate::machine::{status, Machine};
use crate::opcode::Opcode;

verus! {

/// A stack machine: an operand stack, 256 memory cells and a program counter.
///
/// The fields are public: after a program has run, or failed, the caller
/// reads the result from them.
pub struct StackVM {
    /// The operand stack; the top is the last element.
    pub stack: Vec<i32>,
    /// The memory cells.
    pub memory: [i32; 256],
    /// The position in the program of the next instruction.
    pub pc: usize,
}

impl View for StackVM {
    type V = Machine;

    open spec fn view(&self) -> Machine {
        Machine { stack: self.stack@, memory: self.memory@, pc: self.pc as nat }
    }
}

impl StackVM {
    /// A fresh machine: empty stack, all memory cells zero, program counter
    /// at the start.
    pub fn new() -> (vm: Self)
        ensures
            vm@.stack == Seq::<i32>::empty(),
            vm@.memory == Seq::new(256, |i: int| 0i32),
            vm@.pc == 0,
    {
        Self { stack: Vec::new(), memory: [0;256], pc: 0 }
    }

    /// Pushes `value` on the stack.
    pub fn push(&mut self, value: i32)
        ensures
            final(self)@ == old(self)@.push(value),
    {
        self.stack.push(value);
    }

    /// Removes the top value and returns it, or fails with `StackUnderflow`
    /// on an empty stack.
    pub fn pop(&mut self) -> (r: Result<i32, VMError>)
        ensures
            final(self)@ == old(self)@.pop().0,
            r == old(self)@.pop().1,
    {
        match self.stack.pop() {
            Some(value) => Ok(value),
            None => Err(VMError::StackUnderflow),
        }
    }

    /// `Dup`: pushes a copy of the top value, or fails with `StackIsEmpty`
    /// and changes nothing.
    pub fn dup(&mut self) -> (r: Result<(), VMError>)
        ensures
            final(self)@ == old(self)@.dup().0,
            r == old(self)@.dup().1,
    {
        if self.stack.len() == 0 {
            return Err(VMError::StackIsEmpty);
        }
        let value = self.stack[self.stack.len() - 1];
        self.push(value);
        Ok(())
    }

    /// `Swap`: exchanges the top two values, or fails with
    /// `NotEnoughItemsInStack` and changes nothing.
    pub fn swap(&mut self) -> (r: Result<(), VMError>)
        ensures
            final(self)@ == old(self)@.swap().0,
            r == old(self)@.swap().1,
    {
        if self.stack.len() < 2 {
            return Err(VMError::NotEnoughItemsInStack);
        }
        let nth = self.pop()?;
        let nth_1 = self.pop()?;
        self.push(nth);
        self.push(nth_1);
        Ok(())
    }

    /// `Rot`: moves the third value from the top to the top, or fails with
    /// `NotEnoughItemsInStack` and changes nothing.
    pub fn rot(&mut self) -> (r: Result<(), VMError>)
        ensures
            final(self)@ == old(self)@.rot().0,
            r == old(self)@.rot().1,
    {
        if self.stack.len() < 3 {
            return Err(VMError::NotEnoughItemsInStack);
        }
        let c = self.pop()?;
        let b = self.pop()?;
        let a = self.pop()?;
        self.push(b);
        self.push(c);
        self.push(a);
        Ok(())
    }

    /// `Over`: pushes a copy of the second value from the top, or fails with
    /// `NotEnoughItemsInStack` and changes nothing.
    pub fn over(&mut self) -> (r: Result<(), VMError>)
        ensures
            final(self)@ == old(self)@.over().0,
            r == old(self)@.over().1,
    {
        if self.stack.len() < 2 {
            return Err(VMError::NotEnoughItemsInStack);
        }
        let value = self.stack[self.stack.len() - 2];
        self.push(value);
        Ok(())
    }

    /// `Pick`: pops a position and pushes a copy of the value that the
    /// remaining stack holds there, counted from the bottom. Fails with
    /// `StackUnderflow` on an empty stack, and with `NotEnoughItemsInStack`,
    /// the position consumed, when the remaining stack has no such position.
    pub fn pick(&mut self) -> (r: Result<(), VMError>)
        ensures
            final(self)@ == old(self)@.pick().0,
            r == old(self)@.pick().1,
    {
        let n = self.pop()?;
        if n < 0 || self.stack.len() <= n as usize {
            return Err(VMError::NotEnoughItemsInStack);
        }
        let value = self.stack[n as usize];
        self.push(value);
        Ok(())
    }

    /// `Add`: replaces the top two values by their sum, wrapped to 32 bits.
    /// Fails with `StackUnderflow`, the stack left empty, when it holds fewer
    /// than two values.
    pub fn add(&mut self) -> (r: Result<(), VMError>)
        ensures
            final(self)@ == old(self)@.arith(Opcode::Add).0,
            r == old(self)@.arith(Opcode::Add).1,
    {
        let b = self.pop()?;
        let a = self.pop()?;
        self.push(a.wrapping_add(b));
        Ok(())
    }

    /// `Sub`: replaces the top two values by the lower one minus the top one,
    /// wrapped to 32 bits. Fails with `StackUnderflow`, the stack left empty,
    /// when it holds fewer than two values.
    pub fn sub(&mut self) -> (r: Result<(), VMError>)
        ensures
            final(self)@ == old(self)@.arith(Opcode::Sub).0,
            r == old(self)@.arith(Opcode::Sub).1,
    {
        let b = self.pop()?;
        let a = self.pop()?;
        self.push(a.wrapping_sub(b));
        Ok(())
    }

    /// `Mul`: replaces the top two values by their product, wrapped to 32
    /// bits. Fails with `StackUnderflow`, the stack left empty, when it holds
    /// fewer than two values.
    pub fn mul(&mut self) -> (r: Result<(), VMError>)
        ensures
            final(self)@ == old(self)@.arith(Opcode::Mul).0,
            r == old(self)@.arith(Opcode::Mul).1,
    {
        let b = self.pop()?;
        let a = self.pop()?;
        self.push(a.wrapping_mul(b));
        Ok(())
    }

    /// `Store`: pops an address, then a value, and writes the value to that
    /// memory cell. Fails with `StackUnderflow` when the stack runs out, and
    /// with `MemoryOutOfBounds` when the address is not below 256 or is
    /// negative; what was popped stays popped.
    pub fn store(&mut self) -> (r: Result<(), VMError>)
        ensures
            final(self)@ == old(self)@.store().0,
            r == old(self)@.store().1,
            old(self)@.depth() >= 2 && !(0 <= old(self)@.top(0) < 256) ==> r == Err::<(), VMError>(
                VMError::MemoryOutOfBounds,
            ),
    {
        let addr = self.pop()?;
        let value = self.pop()?;
        if addr < 0 || addr as usize >= self.memory.len() {
            return Err(VMError::MemoryOutOfBounds);
        }
        self.memory[addr as usize] = value;
        Ok(())
    }

    /// `Load`: pops an address and pushes the content of that memory cell.
    /// Fails with `StackUnderflow` on an empty stack, and with
    /// `MemoryOutOfBounds`, the address consumed, when the address is not
    /// below 256 or is negative.
    pub fn load(&mut self) -> (r: Result<(), VMError>)
        ensures
            final(self)@ == old(self)@.load().0,
            r == old(self)@.load().1,
            old(self)@.depth() >= 1 && !(0 <= old(self)@.top(0) < 256) ==> r == Err::<(), VMError>(
                VMError::MemoryOutOfBounds,
            ),
    {
        let addr = self.pop()?;
        if addr < 0 || addr as usize >= self.memory.len() {
            return Err(VMError::MemoryOutOfBounds);
        }
        let value = self.memory[addr as usize];
        self.push(value);
        Ok(())
    }

    /// `Jmp` in a program of `bytecode_len` bytes: pops a target and sets the
    /// program counter to it. Fails with `StackUnderflow` on an empty stack,
    /// and with `InvalidJumpTarget`, the target consumed, when the target is
    /// negative or not below `bytecode_len`.
    pub fn jump(&mut self, bytecode_len: usize) -> (r: Result<(), VMError>)
        ensures
            final(self)@ == old(self)@.jump(bytecode_len as nat).0,
            r == old(self)@.jump(bytecode_len as nat).1,
    {
        let target = self.pop()?;
        if target < 0 || target as usize >= bytecode_len {
            return Err(VMError::InvalidJumpTarget);
        }
        self.pc = target as usize;
        Ok(())
    }

    /// `JumpIf` in a program of `bytecode_len` bytes: pops a condition, then
    /// a target, and sets the program counter to the target if the condition
    /// is not zero. Returns whether it did; if not, only the two values have
    /// left the stack. Fails with `StackUnderflow` when the stack runs out,
    /// and with `InvalidJumpTarget`, whatever the condition, when the target
    /// is negative or not below `bytecode_len`.
    pub fn jump_if(&mut self, bytecode_len: usize) -> (r: Result<bool, VMError>)
        ensures
            final(self)@ == old(self)@.jump_if(bytecode_len as nat).0,
            r == old(self)@.jump_if(bytecode_len as nat).1,
    {
        let cond = self.pop()?;
        let target = self.pop()?;
        if target < 0 || target as usize >= bytecode_len {
            return Err(VMError::InvalidJumpTarget);
        }
        if cond != 0 {
            self.pc = target as usize;
            return Ok(true);
        }
        Ok(false)
    }

    /// Executes the instruction under the program counter and moves the
    /// program counter to the instruction that follows, or to the target of a
    /// jump that was taken. On failure the machine keeps what the instruction
    /// had done before it failed. A machine whose program counter has left
    /// the program is not changed.
    pub fn step(&mut self, bytecode: &[u8]) -> (r: Result<(), VMError>)
        ensures
            final(self)@ == old(self)@.step(bytecode@).0,
            r == old(self)@.step(bytecode@).1,
    {
        if self.pc >= bytecode.len() {
            return Ok(());
        }
        let opcode = Opcode::try_from(bytecode[self.pc])?;
        match opcode {
            Opcode::Push => {
                self.pc += 1;
                if self.pc >= bytecode.len() {
                    return Err(VMError::InvalidProgramCounter);
                }
                self.push(bytecode[self.pc] as i32);
            },
            Opcode::Pop => {
                self.pop()?;
            },
            Opcode::Add => {
                self.add()?;
            },
            Opcode::Sub => {
                self.sub()?;
            },
            Opcode::Store => {
                self.store()?;
            },
            Opcode::Load => {
                self.load()?;
            },
            Opcode::Jmp => {
                self.jump(bytecode.len())?;
                return Ok(());
            },
            Opcode::JumpIf => {
                if self.jump_if(bytecode.len())? {
                    return Ok(());
                }
            },
            Opcode::Dup => {
                self.dup()?;
            },
            Opcode::Swap => {
                self.swap()?;
            },
            Opcode::Rot => {
                self.rot()?;
            },
            Opcode::Over => {
                self.over()?;
            },
            Opcode::Pick => {
                self.pick()?;
            },
            Opcode::Mul => {
                self.mul()?;
            },
        }
        self.pc += 1;
        Ok(())
    }

    /// Runs the program from the current state until the program counter
    /// leaves the program or an instruction fails. Returns a copy of the
    /// stack in the first case and the failure in the second; either way the
    /// machine is left as the last instruction left it.
    ///
    /// The program must come to an end from the current state: on a program
    /// that runs for ever there is nothing to return. For programs of which
    /// that is not known, see [`StackVM::execute_within`].
    pub fn execute(&mut self, bytecode: &[u8]) -> (r: Result<Vec<i32>, VMError>)
        requires
            old(self)@.terminates(bytecode@),
        ensures
            final(self)@ == old(self)@.outcome(bytecode@).0,
            status(r) == old(self)@.outcome(bytecode@).1,
            r matches Ok(stack) ==> stack@ == final(self)@.stack && final(self)@.halted(bytecode@),
            forall|fuel: nat| #[trigger]
                old(self)@.settles_within(bytecode@, fuel) ==> old(self)@.run(bytecode@, fuel) == (
                    final(self)@,
                    status(r),
                ),
    {
        let ghost start = self@;
        let ghost total = choose|fuel: nat| start.settles_within(bytecode@, fuel);
        let ghost spent: nat = 0;
        proof {
            assert forall|fuel: nat| #[trigger]
                start.settles_within(bytecode@, fuel) implies start.run(bytecode@, fuel)
                == start.outcome(bytecode@) by {
                start.lemma_outcome_is_settled_run(bytecode@, fuel);
            }
        }
        while self.pc < bytecode.len()
            invariant
                start == old(self)@,
                spent <= total,
                start.outcome(bytecode@) == self@.run(bytecode@, (total - spent) as nat),
                self@.settles_within(bytecode@, (total - spent) as nat),
                forall|fuel: nat| #[trigger]
                    start.settles_within(bytecode@, fuel) ==> start.run(bytecode@, fuel)
                        == start.outcome(bytecode@),
            decreases total - spent,
        {
            self.step(bytecode)?;
            proof {
                spent = spent + 1;
            }
        }
        Ok(self.stack.clone())
    }

    /// Runs the program from the current state for at most `max_steps`
    /// instructions. Returns a copy of the stack if the program counter left
    /// the program within them, `None` if the program was still running when
    /// they were used up, and the failure if an instruction failed. The
    /// machine is left as the last instruction left it, so a program that was
    /// still running can be continued by a further call.
    ///
    /// Unlike [`StackVM::execute`] this asks nothing of the program; whenever
    /// it does not return `None`, it has found what `execute` returns.
    pub fn execute_within(&mut self, bytecode: &[u8], max_steps: usize) -> (r: Result<
        Option<Vec<i32>>,
        VMError,
    >)
        ensures
            final(self)@ == old(self)@.run(bytecode@, max_steps as nat).0,
            status(r) == old(self)@.run(bytecode@, max_steps as nat).1,
            r matches Ok(Some(stack)) ==> stack@ == final(self)@.stack,
            r matches Ok(returned) ==> (returned is Some <==> final(self)@.halted(bytecode@)),
            !(r matches Ok(None)) ==> old(self)@.terminates(bytecode@),
            !(r matches Ok(None)) ==> old(self)@.outcome(bytecode@) == old(self)@.run(
                bytecode@,
                max_steps as nat,
            ),
    {
        let mut steps: usize = 0;
        while self.pc < bytecode.len() && steps < max_steps
            invariant
                steps <= max_steps,
                old(self)@.run(bytecode@, max_steps as nat) == self@.run(
                    bytecode@,
                    (max_steps - steps) as nat,
                ),
            decreases max_steps - steps,
        {
            let stepped = self.step(bytecode);
            if let Err(e) = stepped {
                proof {
                    old(self)@.lemma_outcome_is_settled_run(bytecode@, max_steps as nat);
                }
                return Err(e);
            }
            steps += 1;
        }
        if self.pc < bytecode.len() {
            Ok(None)
        } else {
            proof {
                old(self)@.lemma_outcome_is_settled_run(bytecode@, max_steps as nat);
            }
            Ok(Some(self.stack.clone()))
        }
    }
}

} // verus!
