//! A test that is enough to know that a program comes to an end: a program
//! without jumps only ever moves forward.

use vstd::prelude::*;
use crate::machine::Machine;
use crate::opcode::Opcode;

verus! {

/// Whether the program `code`, read instruction by instruction from position
/// `pc`, holds no `Jmp` and no `JumpIf` up to its end or to the first byte
/// that encodes no instruction. The operand of a `Push` is data and is
/// skipped.
pub open spec fn jump_free_from(code: Seq<u8>, pc: nat) -> bool
    decreases code.len() - pc,
{
    if pc >= code.len() {
        true
    } else {
        match Opcode::decode(code[pc as int]) {
            None => true,
            Some(Opcode::Jmp) | Some(Opcode::JumpIf) => false,
            Some(Opcode::Push) => pc + 1 >= code.len() || jump_free_from(code, pc + 2),
            Some(_) => jump_free_from(code, pc + 1),
        }
    }
}

/// A program without jumps comes to an end: started anywhere, it halts or
/// fails within as many steps as bytes are left.
pub proof fn lemma_jump_free_terminates(machine: Machine, code: Seq<u8>)
    requires
        jump_free_from(code, machine.pc),
    ensures
        machine.settles_within(code, (code.len() - machine.pc) as nat),
        machine.terminates(code),
    decreases code.len() - machine.pc,
{
    if !machine.halted(code) {
        let fuel = (code.len() - machine.pc) as nat;
        let (next, result) = machine.step(code);
        if result is Ok {
            let left = (code.len() - next.pc) as nat;
            lemma_jump_free_terminates(next, code);
            next.lemma_run_is_stable(code, left, (fuel - 1) as nat);
        }
    }
}

/// Whether `bytecode` holds no jump from position `from` on, so that a
/// machine whose program counter stands there is certain to come to an end.
pub fn is_jump_free(bytecode: &[u8], from: usize) -> (free: bool)
    ensures
        free == jump_free_from(bytecode@, from as nat),
{
    let mut pc = from;
    while pc < bytecode.len()
        invariant
            jump_free_from(bytecode@, from as nat) == jump_free_from(bytecode@, pc as nat),
        decreases bytecode.len() - pc,
    {
        match Opcode::try_from(bytecode[pc]) {
            Err(_) => {
                return true;
            },
            Ok(Opcode::Jmp) | Ok(Opcode::JumpIf) => {
                return false;
            },
            Ok(Opcode::Push) => {
                if pc + 1 >= bytecode.len() {
                    return true;
                }
                pc += 2;
            },
            Ok(_) => {
                pc += 1;
            },
        }
    }
    true
}

} // verus!
