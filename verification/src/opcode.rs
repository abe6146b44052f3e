use vstd::prelude::*;

verus! {

/// The closed instruction set of the stack machine.
///
/// Every variant is a bare tag except `LDI`, which carries the immediate
/// value it loads onto the operand stack.  The mnemonics follow the usual
/// concatenative conventions: `GtR` and `RGt` move values between the
/// operand ("number") stack and the scratch stack, `RAt` copies without
/// popping, and the `*2` forms act on pairs of values.
#[derive(Debug, Clone, Copy, PartialEq, Eq, Structural)]
pub enum Opcode {
    /// Pop a target address and jump to it.
    JMP,
    /// Pop a signed offset and jump relative to the current instruction.
    JR,
    /// Pop an offset, then a value; jump relative when the value is zero.
    JRZ,
    /// Pop an offset, then a value; jump relative when the value is nonzero.
    JRNZ,
    /// Push the next program counter on the return stack, pop a target
    /// address and jump to it.
    CALL,
    /// Pop a value; push -1 when it is zero, 0 otherwise.
    CMPZ,
    /// Pop a value; push 0 when it is zero, -1 otherwise.
    CMPNZ,
    /// Push the carried immediate value.
    LDI(i64),
    /// Pop a value and discard it.
    DROP,
    /// Exchange the top two values of the operand stack.
    SWAP,
    /// Exchange the top two pairs of the operand stack.
    SWAP2,
    /// Pop the return stack and resume there; with an empty return stack,
    /// end the run successfully.
    RET,
    /// Pop two values and push their checked sum.
    ADD,
    /// Pop two values and push their checked difference (top minus second).
    SUB,
    /// Pop two values and push their checked product.
    MUL,
    /// Pop the divisor, then the dividend; push the truncating quotient.
    DIV,
    /// Pop a value; push 1 when it is zero, 0 otherwise.
    NOT,
    /// Duplicate the top value of the operand stack.
    DUP,
    /// Duplicate the top pair of the operand stack.
    DUP2,
    /// Pop a trap identifier and offer it to the registered trap handlers.
    TRAP,
    /// Do nothing.
    NOP,
    /// Pop a current index, then a maximum index; push the pair on the
    /// loop stack.
    PUSHLP,
    /// Add one to the current index of the innermost loop entry.
    INCLP,
    /// Pop an increment and add it to the current index of the innermost
    /// loop entry.
    ADDLP,
    /// Push the current index of the innermost loop entry.
    GETLP,
    /// Push the current index of the next enclosing loop entry.
    GETLP2,
    /// Pop and discard the innermost loop entry.
    DROPLP,
    /// Push 1 when the innermost loop entry has reached its maximum index,
    /// 0 otherwise.
    CMPLOOP,
    /// Copy the second pair from the top over the top pair.
    OVER2,
    /// Move the top operand value to the scratch stack.
    GtR,
    /// Move the top scratch value to the operand stack.
    RGt,
    /// Copy the top scratch value to the operand stack.
    RAt,
    /// Move the top operand pair to the scratch stack.
    GtR2,
    /// Move the top scratch pair to the operand stack.
    RGt2,
    /// Copy the top scratch pair to the operand stack.
    RAt2,
    /// Pop two values and push their bitwise conjunction.
    AND,
    /// Pop a count and grow the cell memory by that many zeroed cells.
    NEWCELLS,
    /// Pop a count and an address; move that many operand values into the
    /// cells starting at the address.
    MOVETOCELLS,
    /// Pop a count and an address; push that many cell values from the
    /// range starting at the address.
    MOVEFROMCELLS,
}

} // verus!
