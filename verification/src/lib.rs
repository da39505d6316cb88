//! A bytecode interpreter for a small stack machine, with every instruction's
//! effect stated as a contract and proved.

pub mod error;
pub mod machine;
pub mod opcode;
pub mod stack_vm;
pub mod termination;

pub use error::VMError;
pub use machine::Machine;
pub use opcode::Opcode;
pub use stack_vm::StackVM;
