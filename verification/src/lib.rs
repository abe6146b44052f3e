//! A verified, embeddable stack-machine interpreter.
//!
//! The machine executes a linear instruction sequence against an operand
//! stack, a scratch stack, a return stack, a loop stack and a growable
//! cell memory, under an explicit gas budget, with host-registered trap
//! handlers as the only extension point.  The exact semantics of every
//! instruction are stated by the spec transition function
//! [`step::step_opcode`] over [`MachineView`], the dispatch loop and its
//! gas accounting by [`machine::run`], and the executable machine is
//! proved to realize them.  The laws the instruction set obeys are
//! proved in [`laws`].

pub mod errors;
pub mod laws;
pub mod machine;
pub mod opcode;
pub mod state;
pub mod step;

pub use errors::GasLimit;
pub use errors::StackMachineError;
pub use errors::TrapHandled;
pub use machine::HandleTrap;
pub use machine::StackMachine;
pub use machine::TrapHandler;
pub use opcode::Opcode;
pub use state::MachineView;
pub use state::StackMachineState;
