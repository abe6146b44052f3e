use vstd::prelude::*;

use crate::opcode::Opcode;

verus! {

/// The execution budget of a single run: either unbounded, or at most the
/// given number of dispatched instructions.
///
/// The gas counter itself is a `u64`, so even an `Unlimited` run cannot
/// dispatch more than `u64::MAX` instructions; reaching that ceiling is
/// reported as gas exhaustion.
#[derive(Debug, Clone, PartialEq, Eq, Structural)]
pub enum GasLimit {
    Unlimited,
    Limited(u64),
}

/// Every way a run of the machine can fail.  Each is returned to the
/// caller of `execute`; none aborts the process.
#[derive(Debug, Clone, PartialEq, Eq, Structural)]
pub enum StackMachineError {
    /// `DIV` popped a zero divisor (or the one quotient that does not fit
    /// in 64 bits, `i64::MIN / -1`).
    DivisionByZero { failing_opcode: Opcode },
    /// An arithmetic instruction produced a value outside the 64-bit
    /// signed range.
    NumericOverflow { failing_opcode: Opcode },
    /// A value taken from a stack does not fit the program-counter range.
    TryFromIntError,
    /// A pop or peek on an empty operand stack.
    NumberStackUnderflow,
    /// A loop instruction found too few entries on the loop stack.
    LoopStackUnderflow,
    /// A pop or peek on an empty scratch stack.
    ScratchStackUnderflow,
    /// A cell instruction was given a non-positive or oversized count, or
    /// a range that leaves the allocated cell memory.
    InvalidCellOperation,
    /// `TRAP` popped an identifier that no registered handler claimed.
    UnhandledTrap { unhandled_trap_id: i64 },
    /// The run dispatched more instructions than its budget allows.
    RanOutOfGas { gas_used: u64, gas_limit: GasLimit },
    /// The program counter left the instruction sequence.
    UnknownError,
}

/// What a trap handler reports back to the dispatch loop.
#[derive(Debug, Clone, PartialEq, Eq, Structural)]
pub enum TrapHandled {
    Handled,
    NotHandled,
}

} // verus!
