use simple_stack_vm::{Opcode, StackVM, VMError};

const PUSH: u8 = 0x01;
const POP: u8 = 0x02;
const ADD: u8 = 0x03;
const SUB: u8 = 0x04;
const STORE: u8 = 0x05;
const LOAD: u8 = 0x06;
const JMP: u8 = 0x07;
const JUMP_IF: u8 = 0x08;
const DUP: u8 = 0x09;
const MUL: u8 = 0x14;

#[test]
fn the_empty_program_returns_the_stack_as_it_is() {
    let mut vm = StackVM::new();
    vm.push(3);
    assert_eq!(vm.execute(&[]), Ok(vec![3]));
    assert_eq!(vm.pc, 0);
}

#[test]
fn execute_returns_a_copy_of_the_final_stack() {
    let mut vm = StackVM::new();
    let out = vm.execute(&[PUSH, 200, PUSH, 255, ADD]).unwrap();
    assert_eq!(out, vec![455]);
    assert_eq!(vm.stack, vec![455]);
    assert_eq!(vm.pc, 5);
}

#[test]
fn store_program_leaves_the_cell_and_an_empty_stack() {
    let mut vm = StackVM::new();
    let bytecode = [PUSH, 5, PUSH, 3, ADD, PUSH, 2, SUB, PUSH, 0, STORE];
    assert_eq!(vm.execute(&bytecode), Ok(vec![]));
    assert_eq!(vm.memory[0], 6);
    assert!(vm.stack.is_empty());
    assert_eq!(vm.pc, bytecode.len());
}

#[test]
fn push_widens_its_operand_without_sign() {
    let mut vm = StackVM::new();
    assert_eq!(vm.execute(&[PUSH, 0xff, PUSH, 0x80]), Ok(vec![255, 128]));
}

#[test]
fn push_reads_its_operand_as_data() {
    let mut vm = StackVM::new();
    assert_eq!(vm.execute(&[PUSH, JMP, PUSH, 0xee]), Ok(vec![7, 0xee]));
}

#[test]
fn push_as_the_last_byte_has_no_operand() {
    let mut vm = StackVM::new();
    assert_eq!(vm.execute(&[PUSH, 1, PUSH]), Err(VMError::InvalidProgramCounter));
    assert_eq!(vm.stack, vec![1]);
    assert_eq!(vm.pc, 3);

    let mut vm = StackVM::new();
    assert_eq!(vm.execute(&[Opcode::Push.to_byte()]), Err(VMError::InvalidProgramCounter));
}

#[test]
fn an_unknown_byte_stops_the_program() {
    let mut vm = StackVM::new();
    assert_eq!(vm.execute(&[PUSH, 1, 0x0a, PUSH, 2]), Err(VMError::InvalidOpcode));
    assert_eq!(vm.stack, vec![1]);
    assert_eq!(vm.pc, 2);

    let mut vm = StackVM::new();
    assert_eq!(vm.execute(&[0x00]), Err(VMError::InvalidOpcode));
}

#[test]
fn pop_in_a_program_underflows_on_an_empty_stack() {
    let mut vm = StackVM::new();
    assert_eq!(vm.execute(&[PUSH, 1, POP, POP]), Err(VMError::StackUnderflow));
    assert_eq!(vm.pc, 3);
}

#[test]
fn dup_in_a_program_fails_on_an_empty_stack() {
    let mut vm = StackVM::new();
    assert_eq!(vm.execute(&[DUP]), Err(VMError::StackIsEmpty));
}

#[test]
fn shuffles_in_a_program_fail_on_a_shallow_stack() {
    for op in [Opcode::Swap, Opcode::Rot, Opcode::Over, Opcode::Pick] {
        let mut vm = StackVM::new();
        let r = vm.execute(&[PUSH, 9, op.to_byte()]);
        assert_eq!(r, Err(VMError::NotEnoughItemsInStack));
        assert_eq!(vm.pc, 2);
    }
}

#[test]
fn a_failure_keeps_what_was_done_before() {
    let mut vm = StackVM::new();
    let bytecode = [PUSH, 7, PUSH, 0, STORE, PUSH, 9, PUSH, 4, ADD, ADD];
    assert_eq!(vm.execute(&bytecode), Err(VMError::StackUnderflow));
    assert_eq!(vm.memory[0], 7);
    assert!(vm.stack.is_empty());
    assert_eq!(vm.pc, 10);
}

#[test]
fn a_store_out_of_bounds_keeps_earlier_writes() {
    let mut vm = StackVM::new();
    // 255 + 1 is the first address beyond the memory.
    let bytecode = [
        PUSH, 11, PUSH, 1, STORE, PUSH, 22, PUSH, 255, PUSH, 1, ADD, STORE, PUSH, 33,
    ];
    assert_eq!(vm.execute(&bytecode), Err(VMError::MemoryOutOfBounds));
    assert_eq!(vm.memory[1], 11);
    assert!(vm.stack.is_empty());
    assert_eq!(vm.pc, 12);
}

#[test]
fn a_load_out_of_bounds_fails_in_a_program() {
    let mut vm = StackVM::new();
    let bytecode = [PUSH, 16, DUP, MUL, LOAD];
    assert_eq!(vm.execute(&bytecode), Err(VMError::MemoryOutOfBounds));
    assert!(vm.stack.is_empty());
}

#[test]
fn a_negative_address_is_out_of_bounds() {
    let mut vm = StackVM::new();
    let bytecode = [PUSH, 0, PUSH, 1, SUB, LOAD];
    assert_eq!(vm.execute(&bytecode), Err(VMError::MemoryOutOfBounds));
}

#[test]
fn jmp_continues_at_the_target() {
    let mut vm = StackVM::new();
    // Jumps over the push of 99.
    let bytecode = [PUSH, 5, JMP, PUSH, 99, PUSH, 42];
    assert_eq!(vm.execute(&bytecode), Ok(vec![42]));
}

#[test]
fn jmp_beyond_the_program_is_rejected() {
    let mut vm = StackVM::new();
    assert_eq!(vm.execute(&[PUSH, 3, JMP]), Err(VMError::InvalidJumpTarget));
    assert!(vm.stack.is_empty());
    assert_eq!(vm.pc, 2);

    let mut vm = StackVM::new();
    assert_eq!(vm.execute(&[PUSH, 200, JMP]), Err(VMError::InvalidJumpTarget));
}

#[test]
fn jump_if_beyond_the_program_is_rejected() {
    for cond in [0u8, 1] {
        let mut vm = StackVM::new();
        let bytecode = [PUSH, 5, PUSH, cond, JUMP_IF];
        assert_eq!(vm.execute(&bytecode), Err(VMError::InvalidJumpTarget));
        assert!(vm.stack.is_empty());
        assert_eq!(vm.pc, 4);
    }
}

#[test]
fn jump_if_with_zero_falls_through_to_the_next_instruction() {
    let mut vm = StackVM::new();
    // Target 0 would restart the program; the zero condition must not.
    let bytecode = [PUSH, 0, PUSH, 0, JUMP_IF, PUSH, 8];
    assert_eq!(vm.execute(&bytecode), Ok(vec![8]));
    assert_eq!(vm.pc, 7);

    let mut vm = StackVM::new();
    assert_eq!(vm.execute_within(&bytecode, 3), Ok(None));
    assert!(vm.stack.is_empty());
    assert_eq!(vm.pc, 5);
}

#[test]
fn jump_if_with_non_zero_takes_the_branch() {
    let mut vm = StackVM::new();
    let bytecode = [PUSH, 7, PUSH, 1, JUMP_IF, PUSH, 8, PUSH, 9];
    assert_eq!(vm.execute(&bytecode), Ok(vec![9]));
}

#[test]
fn a_loop_counts_down_to_zero() {
    // cell 0 holds the counter, cell 1 the sum of the values it went through
    let bytecode = [
        PUSH, 5, PUSH, 0, STORE, // counter = 5
        // 5: sum += counter
        PUSH, 1, LOAD, PUSH, 0, LOAD, ADD, PUSH, 1, STORE,
        // 15: counter -= 1
        PUSH, 0, LOAD, PUSH, 1, SUB, PUSH, 0, STORE,
        // 24: if counter != 0 goto 5
        PUSH, 5, PUSH, 0, LOAD, JUMP_IF,
    ];
    let mut vm = StackVM::new();
    assert_eq!(vm.execute(&bytecode), Ok(vec![]));
    assert_eq!(vm.memory[0], 0);
    assert_eq!(vm.memory[1], 15);
    assert_eq!(vm.pc, bytecode.len());
}

#[test]
fn a_jump_to_itself_is_a_jump() {
    // The jump at position 4 targets position 4, where the stack is empty.
    let mut vm = StackVM::new();
    let bytecode = [PUSH, 4, PUSH, 4, JMP];
    assert_eq!(vm.execute(&bytecode), Err(VMError::StackUnderflow));
    assert!(vm.stack.is_empty());
    assert_eq!(vm.pc, 4);
}

#[test]
fn step_executes_one_instruction() {
    let bytecode = [PUSH, 5, DUP, 0x0f];
    let mut vm = StackVM::new();
    assert_eq!(vm.step(&bytecode), Ok(()));
    assert_eq!((vm.pc, vm.stack.clone()), (2, vec![5]));
    assert_eq!(vm.step(&bytecode), Ok(()));
    assert_eq!((vm.pc, vm.stack.clone()), (3, vec![5, 5]));
    assert_eq!(vm.step(&bytecode), Err(VMError::InvalidOpcode));
    assert_eq!((vm.pc, vm.stack.clone()), (3, vec![5, 5]));
}

#[test]
fn step_leaves_a_halted_machine_alone() {
    let bytecode = [PUSH, 5];
    let mut vm = StackVM::new();
    vm.pc = 2;
    vm.push(1);
    assert_eq!(vm.step(&bytecode), Ok(()));
    assert_eq!((vm.pc, vm.stack.clone()), (2, vec![1]));
    vm.pc = 10;
    assert_eq!(vm.step(&bytecode), Ok(()));
    assert_eq!(vm.pc, 10);
}

#[test]
fn execute_on_a_halted_machine_returns_its_stack() {
    let bytecode = [PUSH, 5];
    let mut vm = StackVM::new();
    assert_eq!(vm.execute(&bytecode), Ok(vec![5]));
    assert_eq!(vm.execute(&bytecode), Ok(vec![5]));
    assert_eq!(vm.stack, vec![5]);
}

#[test]
fn execute_within_stops_when_the_steps_are_used_up() {
    // Pushes 0 and jumps to it, for ever.
    let bytecode = [PUSH, 0, JMP];
    let mut vm = StackVM::new();
    assert_eq!(vm.execute_within(&bytecode, 1000), Ok(None));
    assert!(vm.stack.is_empty());
    assert_eq!(vm.pc, 0);
    assert_eq!(vm.execute_within(&bytecode, 1), Ok(None));
    assert_eq!(vm.stack, vec![0]);
    assert_eq!(vm.pc, 2);
}

#[test]
fn execute_within_agrees_with_execute_when_steps_suffice() {
    let bytecode = [PUSH, 3, DUP, PUSH, 4, MUL, ADD];
    let mut plain = StackVM::new();
    let expected = plain.execute(&bytecode);
    assert_eq!(expected, Ok(vec![15]));
    for budget in [5usize, 6, 1000] {
        let mut vm = StackVM::new();
        assert_eq!(vm.execute_within(&bytecode, budget), Ok(Some(vec![15])));
        assert_eq!(vm.pc, plain.pc);
    }
    let mut vm = StackVM::new();
    assert_eq!(vm.execute_within(&bytecode, 4), Ok(None));
    assert_eq!(vm.stack, vec![3, 12]);
    assert_eq!(vm.execute_within(&bytecode, 1), Ok(Some(vec![15])));
}

#[test]
fn execute_within_with_no_steps_does_nothing() {
    let mut vm = StackVM::new();
    assert_eq!(vm.execute_within(&[PUSH, 1], 0), Ok(None));
    assert!(vm.stack.is_empty());
    assert_eq!(vm.execute_within(&[], 0), Ok(Some(vec![])));
}

#[test]
fn execute_within_reports_a_failure() {
    let mut vm = StackVM::new();
    assert_eq!(vm.execute_within(&[PUSH, 1, ADD], 10), Err(VMError::StackUnderflow));
    assert!(vm.stack.is_empty());
    assert_eq!(vm.pc, 2);
}
