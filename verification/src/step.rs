use vstd::prelude::*;

use crate::errors::StackMachineError;
use crate::opcode::Opcode;
use crate::state::MachineView;
use crate::state::StackMachineState;

verus! {

/// What a single dispatched instruction did, before gas is charged.
pub enum StepResult {
    /// The instruction completed; the new view has the program counter
    /// already advanced, or redirected by a jump.
    Next(MachineView),
    /// `RET` found the return stack empty: the run ends successfully.
    Halt(MachineView),
    /// `TRAP` popped this identifier; the trap chain decides the rest.
    Trap(i64, MachineView),
    /// The instruction failed; the view keeps the partial effects of the
    /// pops that preceded the failure.
    Fail(StackMachineError, MachineView),
}

/// Whether a mathematical integer is a representable instruction address.
pub open spec fn fits_addr(x: int) -> bool {
    0 <= x && x <= usize::MAX as int
}

/// The view with the program counter advanced past the current
/// instruction.
pub open spec fn advanced(v: MachineView) -> MachineView {
    MachineView { pc: (v.pc + 1) as usize, ..v }
}

/// The view with the top of the operand stack removed.
pub open spec fn num_popped(v: MachineView) -> MachineView {
    MachineView { number: v.number.drop_last(), ..v }
}

/// The view with a value pushed on the operand stack.
pub open spec fn num_pushed(v: MachineView, x: i64) -> MachineView {
    MachineView { number: v.number.push(x), ..v }
}

/// The view with the top of the scratch stack removed.
pub open spec fn scratch_popped(v: MachineView) -> MachineView {
    MachineView { scratch: v.scratch.drop_last(), ..v }
}

/// The operand-stack underflow outcome.
pub open spec fn num_underflow(v: MachineView) -> StepResult {
    StepResult::Fail(StackMachineError::NumberStackUnderflow, v)
}

/// The scratch-stack underflow outcome.
pub open spec fn scratch_underflow(v: MachineView) -> StepResult {
    StepResult::Fail(StackMachineError::ScratchStackUnderflow, v)
}

/// The loop-stack underflow outcome.
pub open spec fn loop_underflow(v: MachineView) -> StepResult {
    StepResult::Fail(StackMachineError::LoopStackUnderflow, v)
}

/// A jump to a computed target: the target must fit the address range,
/// else the instruction fails with the conversion error.
pub open spec fn jump_to(v: MachineView, target: int) -> StepResult {
    if fits_addr(target) {
        StepResult::Next(MachineView { pc: target as usize, ..v })
    } else {
        StepResult::Fail(StackMachineError::TryFromIntError, v)
    }
}

/// The shared semantics of `JR`, `JRZ` and `JRNZ`.
///
/// An offset is popped first.  With `want_zero` present a condition value
/// is popped next and the jump is taken only when `(value == 0)` agrees
/// with `want_zero`; without it the jump is unconditional.  The offset is
/// added to the program counter of the jump instruction itself in
/// unbounded integers and the sum is then checked against the address
/// range.
pub open spec fn relative_jump(v: MachineView, want_zero: Option<bool>) -> StepResult {
    if v.number.len() == 0 {
        num_underflow(v)
    } else {
        let off: i64 = v.number.last();
        let v1 = num_popped(v);
        match want_zero {
            Option::None => jump_to(v1, v.pc as int + off as int),
            Option::Some(w) => {
                if v1.number.len() == 0 {
                    num_underflow(v1)
                } else {
                    let cond: i64 = v1.number.last();
                    let v2 = num_popped(v1);
                    if (cond == 0) == w {
                        jump_to(v2, v.pc as int + off as int)
                    } else {
                        StepResult::Next(advanced(v2))
                    }
                }
            },
        }
    }
}

/// The checked result of a binary arithmetic instruction.  `first` is the
/// deeper operand and `second` the former top of the stack; `SUB`
/// computes top minus second-from-top.
pub open spec fn arith_result(op: Opcode, first: i64, second: i64) -> Option<i64> {
    match op {
        Opcode::ADD => first.checked_add(second),
        Opcode::SUB => second.checked_sub(first),
        Opcode::MUL => first.checked_mul(second),
        _ => Option::None,
    }
}

/// The shared semantics of `ADD`, `SUB` and `MUL`: two pops, a checked
/// operation, one push.  Overflow reports the offending opcode, with both
/// operands already consumed.
pub open spec fn binary_arith(v: MachineView, op: Opcode) -> StepResult {
    if v.number.len() == 0 {
        num_underflow(v)
    } else if v.number.len() == 1 {
        num_underflow(num_popped(v))
    } else {
        let second: i64 = v.number.last();
        let first: i64 = v.number[v.number.len() - 2];
        let v2 = num_popped(num_popped(v));
        match arith_result(op, first, second) {
            Option::Some(x) => StepResult::Next(advanced(num_pushed(v2, x))),
            Option::None => StepResult::Fail(
                StackMachineError::NumericOverflow { failing_opcode: op },
                v2,
            ),
        }
    }
}

/// The semantics of `DIV`: pop the divisor, then the dividend, and push
/// the truncating quotient.  A zero divisor — or the one overflowing
/// quotient, `i64::MIN / -1` — is the division-by-zero error, with both
/// operands already consumed.
pub open spec fn division(v: MachineView) -> StepResult {
    if v.number.len() == 0 {
        num_underflow(v)
    } else if v.number.len() == 1 {
        num_underflow(num_popped(v))
    } else {
        let divisor: i64 = v.number.last();
        let dividend: i64 = v.number[v.number.len() - 2];
        let v2 = num_popped(num_popped(v));
        match dividend.checked_div(divisor) {
            Option::Some(q) => StepResult::Next(advanced(num_pushed(v2, q))),
            Option::None => StepResult::Fail(
                StackMachineError::DivisionByZero { failing_opcode: Opcode::DIV },
                v2,
            ),
        }
    }
}

/// The values that `count` pops remove from the top of `stack`, in pop
/// order: element `j` is the `j`-th value popped.
pub open spec fn popped_values(stack: Seq<i64>, count: int) -> Seq<i64> {
    Seq::new(count as nat, |j: int| stack[stack.len() - 1 - j])
}

/// `cells` with `vals` written at `addr`, `addr + 1`, and so on: the
/// first value popped lands at the lowest address.
pub open spec fn cells_written(cells: Seq<i64>, addr: int, vals: Seq<i64>) -> Seq<i64> {
    Seq::new(
        cells.len(),
        |i: int| if addr <= i < addr + vals.len() {
            vals[i - addr]
        } else {
            cells[i]
        },
    )
}

/// The values `MOVEFROMCELLS` pushes: the cells of the range in
/// descending address order, so the value at `addr` ends on top.
pub open spec fn cells_read(cells: Seq<i64>, addr: int, count: int) -> Seq<i64> {
    Seq::new(count as nat, |j: int| cells[addr + count - 1 - j])
}

/// Whether a popped `i64` is acceptable as a cell count or address.
pub open spec fn fits_cell_arg(x: i64) -> bool {
    0 <= x && x as int <= usize::MAX as int
}

/// The semantics of `NEWCELLS`: pop a count and grow the cell memory by
/// that many zeroed cells.  A negative count, or one that would grow the
/// memory past the addressable range, is an invalid cell operation.
pub open spec fn new_cells(v: MachineView) -> StepResult {
    if v.number.len() == 0 {
        num_underflow(v)
    } else {
        let count: i64 = v.number.last();
        let v1 = num_popped(v);
        if !fits_cell_arg(count) {
            StepResult::Fail(StackMachineError::InvalidCellOperation, v1)
        } else if v.cells.len() + count as int > usize::MAX as int {
            StepResult::Fail(StackMachineError::InvalidCellOperation, v1)
        } else {
            StepResult::Next(
                advanced(
                    MachineView { cells: v1.cells + Seq::new(count as nat, |j: int| 0i64), ..v1 },
                ),
            )
        }
    }
}

/// The semantics of `MOVETOCELLS`: pop a count, then an address; require
/// a positive count and a range within the allocated cells; then pop one
/// value per cell of the range, the first landing at `addr`.  An operand
/// stack that runs dry mid-transfer keeps the cells already written.
pub open spec fn move_to_cells(v: MachineView) -> StepResult {
    if v.number.len() == 0 {
        num_underflow(v)
    } else {
        let count: i64 = v.number.last();
        let v1 = num_popped(v);
        if !fits_cell_arg(count) {
            StepResult::Fail(StackMachineError::InvalidCellOperation, v1)
        } else if v1.number.len() == 0 {
            num_underflow(v1)
        } else {
            let addr: i64 = v1.number.last();
            let v2 = num_popped(v1);
            if !fits_cell_arg(addr) {
                StepResult::Fail(StackMachineError::InvalidCellOperation, v2)
            } else if count < 1 || v.cells.len() < addr as int + count as int {
                StepResult::Fail(StackMachineError::InvalidCellOperation, v2)
            } else if v2.number.len() < count as int {
                StepResult::Fail(
                    StackMachineError::NumberStackUnderflow,
                    MachineView {
                        number: Seq::<i64>::empty(),
                        cells: cells_written(
                            v.cells,
                            addr as int,
                            popped_values(v2.number, v2.number.len() as int),
                        ),
                        ..v2
                    },
                )
            } else {
                StepResult::Next(
                    advanced(
                        MachineView {
                            number: v2.number.take(v2.number.len() - count as int),
                            cells: cells_written(
                                v.cells,
                                addr as int,
                                popped_values(v2.number, count as int),
                            ),
                            ..v2
                        },
                    ),
                )
            }
        }
    }
}

/// The semantics of `MOVEFROMCELLS`: pop a count, then an address, with
/// the same checks as `MOVETOCELLS`; then push the cells of the range in
/// descending address order, leaving the value at `addr` on top.
pub open spec fn move_from_cells(v: MachineView) -> StepResult {
    if v.number.len() == 0 {
        num_underflow(v)
    } else {
        let count: i64 = v.number.last();
        let v1 = num_popped(v);
        if !fits_cell_arg(count) {
            StepResult::Fail(StackMachineError::InvalidCellOperation, v1)
        } else if v1.number.len() == 0 {
            num_underflow(v1)
        } else {
            let addr: i64 = v1.number.last();
            let v2 = num_popped(v1);
            if !fits_cell_arg(addr) {
                StepResult::Fail(StackMachineError::InvalidCellOperation, v2)
            } else if count < 1 || v.cells.len() < addr as int + count as int {
                StepResult::Fail(StackMachineError::InvalidCellOperation, v2)
            } else {
                StepResult::Next(
                    advanced(
                        MachineView {
                            number: v2.number + cells_read(v.cells, addr as int, count as int),
                            ..v2
                        },
                    ),
                )
            }
        }
    }
}

/// The exact semantics of one instruction, acting on the view `v` whose
/// program counter addresses that instruction.  This function is the
/// authoritative statement of the instruction set; `StackMachineState::
/// step_exec` is proved to realize it.
pub open spec fn step_opcode(v: MachineView, op: Opcode) -> StepResult {
    match op {
        Opcode::JMP => {
            if v.number.len() == 0 {
                num_underflow(v)
            } else {
                let t: i64 = v.number.last();
                jump_to(num_popped(v), t as int)
            }
        },
        Opcode::JR => relative_jump(v, Option::None),
        Opcode::JRZ => relative_jump(v, Option::Some(true)),
        Opcode::JRNZ => relative_jump(v, Option::Some(false)),
        Opcode::CALL => {
            let v1 = MachineView { ret: v.ret.push((v.pc + 1) as usize), ..v };
            if v1.number.len() == 0 {
                num_underflow(v1)
            } else {
                let t: i64 = v1.number.last();
                jump_to(num_popped(v1), t as int)
            }
        },
        Opcode::CMPZ => {
            if v.number.len() == 0 {
                num_underflow(v)
            } else {
                let x: i64 = v.number.last();
                StepResult::Next(
                    advanced(num_pushed(num_popped(v), if x == 0 { -1i64 } else { 0i64 })),
                )
            }
        },
        Opcode::CMPNZ => {
            if v.number.len() == 0 {
                num_underflow(v)
            } else {
                let x: i64 = v.number.last();
                StepResult::Next(
                    advanced(num_pushed(num_popped(v), if x == 0 { 0i64 } else { -1i64 })),
                )
            }
        },
        Opcode::LDI(x) => StepResult::Next(advanced(num_pushed(v, x))),
        Opcode::DROP => {
            if v.number.len() == 0 {
                num_underflow(v)
            } else {
                StepResult::Next(advanced(num_popped(v)))
            }
        },
        Opcode::SWAP => {
            if v.number.len() == 0 {
                num_underflow(v)
            } else if v.number.len() == 1 {
                num_underflow(num_popped(v))
            } else {
                let x: i64 = v.number.last();
                let y: i64 = v.number[v.number.len() - 2];
                StepResult::Next(advanced(num_pushed(num_pushed(num_popped(num_popped(v)), x), y)))
            }
        },
        Opcode::SWAP2 => {
            if v.number.len() < 4 {
                num_underflow(MachineView { number: Seq::<i64>::empty(), ..v })
            } else {
                let x1: i64 = v.number[v.number.len() - 4];
                let x2: i64 = v.number[v.number.len() - 3];
                let x3: i64 = v.number[v.number.len() - 2];
                let x4: i64 = v.number[v.number.len() - 1];
                let base = MachineView { number: v.number.take(v.number.len() - 4), ..v };
                StepResult::Next(
                    advanced(
                        num_pushed(num_pushed(num_pushed(num_pushed(base, x3), x4), x1), x2),
                    ),
                )
            }
        },
        Opcode::OVER2 => {
            if v.number.len() < 4 {
                num_underflow(MachineView { number: Seq::<i64>::empty(), ..v })
            } else {
                let x1: i64 = v.number[v.number.len() - 4];
                let x2: i64 = v.number[v.number.len() - 3];
                StepResult::Next(advanced(num_pushed(num_pushed(v, x1), x2)))
            }
        },
        Opcode::RET => {
            if v.ret.len() == 0 {
                StepResult::Halt(v)
            } else {
                StepResult::Next(
                    MachineView { ret: v.ret.drop_last(), pc: v.ret.last(), ..v },
                )
            }
        },
        Opcode::ADD => binary_arith(v, Opcode::ADD),
        Opcode::SUB => binary_arith(v, Opcode::SUB),
        Opcode::MUL => binary_arith(v, Opcode::MUL),
        Opcode::DIV => division(v),
        Opcode::NOT => {
            if v.number.len() == 0 {
                num_underflow(v)
            } else {
                let x: i64 = v.number.last();
                StepResult::Next(
                    advanced(num_pushed(num_popped(v), if x == 0 { 1i64 } else { 0i64 })),
                )
            }
        },
        Opcode::DUP => {
            if v.number.len() == 0 {
                num_underflow(v)
            } else {
                let x: i64 = v.number.last();
                StepResult::Next(advanced(num_pushed(num_pushed(num_popped(v), x), x)))
            }
        },
        Opcode::DUP2 => {
            if v.number.len() == 0 {
                num_underflow(v)
            } else if v.number.len() == 1 {
                num_underflow(num_popped(v))
            } else {
                let x: i64 = v.number.last();
                let y: i64 = v.number[v.number.len() - 2];
                let base = num_popped(num_popped(v));
                StepResult::Next(
                    advanced(
                        num_pushed(num_pushed(num_pushed(num_pushed(base, y), x), y), x),
                    ),
                )
            }
        },
        Opcode::TRAP => {
            if v.number.len() == 0 {
                num_underflow(v)
            } else {
                StepResult::Trap(v.number.last(), num_popped(v))
            }
        },
        Opcode::NOP => StepResult::Next(advanced(v)),
        Opcode::PUSHLP => {
            if v.number.len() == 0 {
                num_underflow(v)
            } else if v.number.len() == 1 {
                num_underflow(num_popped(v))
            } else {
                let current: i64 = v.number.last();
                let max: i64 = v.number[v.number.len() - 2];
                let base = num_popped(num_popped(v));
                StepResult::Next(
                    advanced(MachineView { loops: base.loops.push((current, max)), ..base }),
                )
            }
        },
        Opcode::INCLP => {
            if v.loops.len() == 0 {
                loop_underflow(v)
            } else {
                let entry: (i64, i64) = v.loops.last();
                match entry.0.checked_add(1) {
                    Option::Some(c) => StepResult::Next(
                        advanced(
                            MachineView {
                                loops: v.loops.update(v.loops.len() - 1, (c, entry.1)),
                                ..v
                            },
                        ),
                    ),
                    Option::None => StepResult::Fail(
                        StackMachineError::NumericOverflow { failing_opcode: Opcode::INCLP },
                        v,
                    ),
                }
            }
        },
        Opcode::ADDLP => {
            if v.number.len() == 0 {
                num_underflow(v)
            } else {
                let inc: i64 = v.number.last();
                let v1 = num_popped(v);
                if v1.loops.len() == 0 {
                    loop_underflow(v1)
                } else {
                    let entry: (i64, i64) = v1.loops.last();
                    match entry.0.checked_add(inc) {
                        Option::Some(c) => StepResult::Next(
                            advanced(
                                MachineView {
                                    loops: v1.loops.update(v1.loops.len() - 1, (c, entry.1)),
                                    ..v1
                                },
                            ),
                        ),
                        Option::None => StepResult::Fail(
                            StackMachineError::NumericOverflow { failing_opcode: Opcode::ADDLP },
                            v1,
                        ),
                    }
                }
            }
        },
        Opcode::GETLP => {
            if v.loops.len() == 0 {
                loop_underflow(v)
            } else {
                StepResult::Next(advanced(num_pushed(v, v.loops.last().0)))
            }
        },
        Opcode::GETLP2 => {
            if v.loops.len() < 2 {
                loop_underflow(v)
            } else {
                StepResult::Next(advanced(num_pushed(v, v.loops[v.loops.len() - 2].0)))
            }
        },
        Opcode::DROPLP => {
            if v.loops.len() == 0 {
                loop_underflow(v)
            } else {
                StepResult::Next(advanced(MachineView { loops: v.loops.drop_last(), ..v }))
            }
        },
        Opcode::CMPLOOP => {
            if v.loops.len() == 0 {
                loop_underflow(v)
            } else {
                let entry: (i64, i64) = v.loops.last();
                StepResult::Next(
                    advanced(num_pushed(v, if entry.0 >= entry.1 { 1i64 } else { 0i64 })),
                )
            }
        },
        Opcode::GtR => {
            if v.number.len() == 0 {
                num_underflow(v)
            } else {
                let x: i64 = v.number.last();
                let v1 = num_popped(v);
                StepResult::Next(
                    advanced(MachineView { scratch: v1.scratch.push(x), ..v1 }),
                )
            }
        },
        Opcode::RGt => {
            if v.scratch.len() == 0 {
                scratch_underflow(v)
            } else {
                let x: i64 = v.scratch.last();
                StepResult::Next(advanced(num_pushed(scratch_popped(v), x)))
            }
        },
        Opcode::RAt => {
            if v.scratch.len() == 0 {
                scratch_underflow(v)
            } else {
                StepResult::Next(advanced(num_pushed(v, v.scratch.last())))
            }
        },
        Opcode::GtR2 => {
            if v.number.len() == 0 {
                num_underflow(v)
            } else if v.number.len() == 1 {
                num_underflow(num_popped(v))
            } else {
                let x: i64 = v.number.last();
                let y: i64 = v.number[v.number.len() - 2];
                let base = num_popped(num_popped(v));
                StepResult::Next(
                    advanced(
                        MachineView { scratch: base.scratch.push(y).push(x), ..base },
                    ),
                )
            }
        },
        Opcode::RGt2 => {
            if v.scratch.len() == 0 {
                scratch_underflow(v)
            } else if v.scratch.len() == 1 {
                scratch_underflow(scratch_popped(v))
            } else {
                let x: i64 = v.scratch.last();
                let y: i64 = v.scratch[v.scratch.len() - 2];
                let base = scratch_popped(scratch_popped(v));
                StepResult::Next(advanced(num_pushed(num_pushed(base, y), x)))
            }
        },
        Opcode::RAt2 => {
            if v.scratch.len() == 0 {
                scratch_underflow(v)
            } else if v.scratch.len() == 1 {
                scratch_underflow(scratch_popped(v))
            } else {
                let x: i64 = v.scratch.last();
                let y: i64 = v.scratch[v.scratch.len() - 2];
                let base = scratch_popped(scratch_popped(v));
                StepResult::Next(
                    advanced(
                        num_pushed(
                            num_pushed(
                                MachineView { scratch: base.scratch.push(y).push(x), ..base },
                                y,
                            ),
                            x,
                        ),
                    ),
                )
            }
        },
        Opcode::AND => {
            if v.number.len() == 0 {
                num_underflow(v)
            } else if v.number.len() == 1 {
                num_underflow(num_popped(v))
            } else {
                let x: i64 = v.number.last();
                let y: i64 = v.number[v.number.len() - 2];
                let base = num_popped(num_popped(v));
                StepResult::Next(advanced(num_pushed(base, x & y)))
            }
        },
        Opcode::NEWCELLS => new_cells(v),
        Opcode::MOVETOCELLS => move_to_cells(v),
        Opcode::MOVEFROMCELLS => move_from_cells(v),
    }
}

/// One instruction fetched and executed: a program counter outside the
/// instruction sequence is the malformed-program error, and charges no
/// gas; otherwise the addressed instruction's semantics apply.
pub open spec fn step(v: MachineView) -> StepResult {
    if v.pc >= v.code.len() {
        StepResult::Fail(StackMachineError::UnknownError, v)
    } else {
        step_opcode(v, v.code[v.pc as int])
    }
}

/// The machine view that [`step_opcode`] leaves, whichever way the
/// instruction ended.
pub open spec fn step_view(v: MachineView) -> MachineView {
    match step_opcode(v, v.code[v.pc as int]) {
        StepResult::Next(v1) => v1,
        StepResult::Halt(v1) => v1,
        StepResult::Trap(_, v1) => v1,
        StepResult::Fail(_, v1) => v1,
    }
}

/// How the dispatch loop reacts to a completed instruction.
pub(crate) enum StepEvent {
    /// Keep fetching.
    Next,
    /// `RET` on an empty return stack: the run succeeded.
    Halt,
    /// `TRAP` popped this identifier; consult the trap chain.
    Trap(i64),
}

impl StackMachineState {
    /// The shared body of `JR`, `JRZ` and `JRNZ`, realizing
    /// [`relative_jump`].  The target is computed in 128-bit arithmetic
    /// and range-checked back to the address type.
    pub(crate) fn execute_jump_relative(&mut self, want_zero: Option<bool>) -> (r: Result<
        (),
        StackMachineError,
    >)
        requires
            old(self)@.pc < old(self)@.code.len(),
        ensures
            (match relative_jump(old(self)@, want_zero) {
                StepResult::Next(v) => r == Ok::<(), StackMachineError>(()) && final(self)@ == v,
                StepResult::Fail(e, v) => r == Err::<(), StackMachineError>(e) && final(self)@
                    == v,
                _ => false,
            }),
    {
        let _code_len: usize = self.opcodes.len();
        let off: i64 = self.pop_number_stack()?;
        let should_jump: bool = match want_zero {
            Option::Some(w) => {
                let value: i64 = self.pop_number_stack()?;
                (value == 0) == w
            },
            Option::None => true,
        };
        if should_jump {
            let wide: i128 = self.pc as i128 + off as i128;
            if wide < 0 || wide > usize::MAX as i128 {
                return Err(StackMachineError::TryFromIntError);
            }
            self.pc = wide as usize;
        } else {
            self.pc = self.pc + 1;
        }
        Ok(())
    }

    /// The shared body of `ADD`, `SUB` and `MUL`, realizing
    /// [`binary_arith`].
    pub(crate) fn execute_binary_op(&mut self, op: Opcode) -> (r: Result<(), StackMachineError>)
        requires
            old(self)@.pc < old(self)@.code.len(),
            op == Opcode::ADD || op == Opcode::SUB || op == Opcode::MUL,
        ensures
            (match binary_arith(old(self)@, op) {
                StepResult::Next(v) => r == Ok::<(), StackMachineError>(()) && final(self)@ == v,
                StepResult::Fail(e, v) => r == Err::<(), StackMachineError>(e) && final(self)@
                    == v,
                _ => false,
            }),
    {
        let _code_len: usize = self.opcodes.len();
        let second: i64 = self.pop_number_stack()?;
        let first: i64 = self.pop_number_stack()?;
        let result: Option<i64> = match op {
            Opcode::ADD => first.checked_add(second),
            Opcode::SUB => second.checked_sub(first),
            _ => first.checked_mul(second),
        };
        match result {
            Option::Some(x) => {
                self.push_number_stack(x);
                self.pc = self.pc + 1;
                Ok(())
            },
            Option::None => Err(StackMachineError::NumericOverflow { failing_opcode: op }),
        }
    }

    /// The body of `DIV`, realizing [`division`].
    pub(crate) fn execute_division(&mut self) -> (r: Result<(), StackMachineError>)
        requires
            old(self)@.pc < old(self)@.code.len(),
        ensures
            (match division(old(self)@) {
                StepResult::Next(v) => r == Ok::<(), StackMachineError>(()) && final(self)@ == v,
                StepResult::Fail(e, v) => r == Err::<(), StackMachineError>(e) && final(self)@
                    == v,
                _ => false,
            }),
    {
        let _code_len: usize = self.opcodes.len();
        let divisor: i64 = self.pop_number_stack()?;
        let dividend: i64 = self.pop_number_stack()?;
        match dividend.checked_div(divisor) {
            Option::Some(q) => {
                self.push_number_stack(q);
                self.pc = self.pc + 1;
                Ok(())
            },
            Option::None => Err(
                StackMachineError::DivisionByZero { failing_opcode: Opcode::DIV },
            ),
        }
    }

    /// The body of `NEWCELLS`, realizing [`new_cells`].
    #[verifier::loop_isolation(false)]
    pub(crate) fn execute_new_cells(&mut self) -> (r: Result<(), StackMachineError>)
        requires
            old(self)@.pc < old(self)@.code.len(),
        ensures
            (match new_cells(old(self)@) {
                StepResult::Next(v) => r == Ok::<(), StackMachineError>(()) && final(self)@ == v,
                StepResult::Fail(e, v) => r == Err::<(), StackMachineError>(e) && final(self)@
                    == v,
                _ => false,
            }),
    {
        let _code_len: usize = self.opcodes.len();
        let count_value: i64 = self.pop_number_stack()?;
        if count_value < 0 || (count_value as u128) > (usize::MAX as u128) {
            return Err(StackMachineError::InvalidCellOperation);
        }
        let count: usize = count_value as usize;
        if count > usize::MAX - self.cells.len() {
            return Err(StackMachineError::InvalidCellOperation);
        }
        let ghost base = self@;
        let mut j: usize = 0;
        while j < count
            invariant
                j <= count,
                self@ == (MachineView {
                    cells: base.cells + Seq::new(j as nat, |k: int| 0i64),
                    ..base
                }),
            decreases count - j,
        {
            self.cells.push(0);
            j = j + 1;
            proof {
                assert(self@.cells =~= base.cells + Seq::new(j as nat, |k: int| 0i64));
                assert(self@ =~= (MachineView {
                    cells: base.cells + Seq::new(j as nat, |k: int| 0i64),
                    ..base
                }));
            }
        }
        self.pc = self.pc + 1;
        Ok(())
    }

    /// The body of `MOVETOCELLS`, realizing [`move_to_cells`].
    #[verifier::loop_isolation(false)]
    pub(crate) fn execute_move_to_cells(&mut self) -> (r: Result<(), StackMachineError>)
        requires
            old(self)@.pc < old(self)@.code.len(),
        ensures
            (match move_to_cells(old(self)@) {
                StepResult::Next(v) => r == Ok::<(), StackMachineError>(()) && final(self)@ == v,
                StepResult::Fail(e, v) => r == Err::<(), StackMachineError>(e) && final(self)@
                    == v,
                _ => false,
            }),
    {
        let _code_len: usize = self.opcodes.len();
        let count_value: i64 = self.pop_number_stack()?;
        if count_value < 0 || (count_value as u128) > (usize::MAX as u128) {
            return Err(StackMachineError::InvalidCellOperation);
        }
        let count: usize = count_value as usize;
        let addr_value: i64 = self.pop_number_stack()?;
        if addr_value < 0 || (addr_value as u128) > (usize::MAX as u128) {
            return Err(StackMachineError::InvalidCellOperation);
        }
        let addr: usize = addr_value as usize;
        let cell_len: usize = self.cells.len();
        if count < 1 || count > cell_len || addr > cell_len - count {
            return Err(StackMachineError::InvalidCellOperation);
        }
        let ghost base = self@;
        let mut i: usize = addr;
        while i < addr + count
            invariant
                addr <= i <= addr + count,
                addr + count <= self@.cells.len(),
                i - addr <= base.number.len(),
                self@ == (MachineView {
                    number: base.number.take(base.number.len() - (i - addr)),
                    cells: cells_written(
                        base.cells,
                        addr as int,
                        popped_values(base.number, (i - addr) as int),
                    ),
                    ..base
                }),
            decreases addr + count - i,
        {
            let popped = self.pop_number_stack();
            let val: i64 = match popped {
                Ok(x) => x,
                Err(e) => {
                    proof {
                        assert(self@.number =~= Seq::<i64>::empty());
                        assert(popped_values(base.number, (i - addr) as int) =~= popped_values(
                            base.number,
                            base.number.len() as int,
                        ));
                        assert(self@ =~= (MachineView {
                            number: Seq::<i64>::empty(),
                            cells: cells_written(
                                base.cells,
                                addr as int,
                                popped_values(base.number, base.number.len() as int),
                            ),
                            ..base
                        }));
                    }
                    return Err(e);
                },
            };
            self.cells[i] = val;
            i = i + 1;
            proof {
                assert(self@.number =~= base.number.take(base.number.len() - (i - addr)));
                assert(self@.cells =~= cells_written(
                    base.cells,
                    addr as int,
                    popped_values(base.number, (i - addr) as int),
                ));
                assert(self@ =~= (MachineView {
                    number: base.number.take(base.number.len() - (i - addr)),
                    cells: cells_written(
                        base.cells,
                        addr as int,
                        popped_values(base.number, (i - addr) as int),
                    ),
                    ..base
                }));
            }
        }
        self.pc = self.pc + 1;
        Ok(())
    }

    /// The body of `MOVEFROMCELLS`, realizing [`move_from_cells`].
    #[verifier::loop_isolation(false)]
    pub(crate) fn execute_move_from_cells(&mut self) -> (r: Result<(), StackMachineError>)
        requires
            old(self)@.pc < old(self)@.code.len(),
        ensures
            (match move_from_cells(old(self)@) {
                StepResult::Next(v) => r == Ok::<(), StackMachineError>(()) && final(self)@ == v,
                StepResult::Fail(e, v) => r == Err::<(), StackMachineError>(e) && final(self)@
                    == v,
                _ => false,
            }),
    {
        let _code_len: usize = self.opcodes.len();
        let count_value: i64 = self.pop_number_stack()?;
        if count_value < 0 || (count_value as u128) > (usize::MAX as u128) {
            return Err(StackMachineError::InvalidCellOperation);
        }
        let count: usize = count_value as usize;
        let addr_value: i64 = self.pop_number_stack()?;
        if addr_value < 0 || (addr_value as u128) > (usize::MAX as u128) {
            return Err(StackMachineError::InvalidCellOperation);
        }
        let addr: usize = addr_value as usize;
        let cell_len: usize = self.cells.len();
        if count < 1 || count > cell_len || addr > cell_len - count {
            return Err(StackMachineError::InvalidCellOperation);
        }
        let ghost base = self@;
        let mut i: usize = addr + count;
        while i > addr
            invariant
                addr <= i <= addr + count,
                addr + count <= self@.cells.len(),
                self@ == (MachineView {
                    number: base.number + cells_read(base.cells, addr as int, count as int).take(
                        (addr + count - i) as int,
                    ),
                    ..base
                }),
            decreases i,
        {
            i = i - 1;
            let val: i64 = self.cells[i];
            self.push_number_stack(val);
            proof {
                assert(self@.number =~= base.number + cells_read(
                    base.cells,
                    addr as int,
                    count as int,
                ).take((addr + count - i) as int));
                assert(self@ =~= (MachineView {
                    number: base.number + cells_read(base.cells, addr as int, count as int).take(
                        (addr + count - i) as int,
                    ),
                    ..base
                }));
            }
        }
        proof {
            assert(cells_read(base.cells, addr as int, count as int).take(count as int)
                =~= cells_read(base.cells, addr as int, count as int));
        }
        self.pc = self.pc + 1;
        Ok(())
    }

    /// Fetch the instruction at the program counter and execute it: the
    /// verified realization of [`step_opcode`], instruction by
    /// instruction.  Gas is not charged here; the dispatch loop does
    /// that.
    pub(crate) fn step_exec(&mut self) -> (r: Result<StepEvent, StackMachineError>)
        requires
            old(self)@.pc < old(self)@.code.len(),
        ensures
            (match step_opcode(old(self)@, old(self)@.code[old(self)@.pc as int]) {
                StepResult::Next(v) => r == Ok::<StepEvent, StackMachineError>(StepEvent::Next)
                    && final(self)@ == v,
                StepResult::Halt(v) => r == Ok::<StepEvent, StackMachineError>(StepEvent::Halt)
                    && final(self)@ == v,
                StepResult::Trap(id, v) => r == Ok::<StepEvent, StackMachineError>(
                    StepEvent::Trap(id),
                ) && final(self)@ == v,
                StepResult::Fail(e, v) => r == Err::<StepEvent, StackMachineError>(e)
                    && final(self)@ == v,
            }),
    {
        let _code_len: usize = self.opcodes.len();
        let op: Opcode = self.opcodes[self.pc];
        match op {
            Opcode::JMP => {
                let target: i64 = self.pop_number_stack()?;
                if target < 0 || (target as u128) > (usize::MAX as u128) {
                    return Err(StackMachineError::TryFromIntError);
                }
                self.pc = target as usize;
                Ok(StepEvent::Next)
            },
            Opcode::JR => {
                self.execute_jump_relative(None)?;
                Ok(StepEvent::Next)
            },
            Opcode::JRZ => {
                self.execute_jump_relative(Some(true))?;
                Ok(StepEvent::Next)
            },
            Opcode::JRNZ => {
                self.execute_jump_relative(Some(false))?;
                Ok(StepEvent::Next)
            },
            Opcode::CALL => {
                let next_pc: usize = self.pc + 1;
                self.return_stack.push(next_pc);
                let target: i64 = self.pop_number_stack()?;
                if target < 0 || (target as u128) > (usize::MAX as u128) {
                    return Err(StackMachineError::TryFromIntError);
                }
                self.pc = target as usize;
                Ok(StepEvent::Next)
            },
            Opcode::CMPZ => {
                let x: i64 = self.pop_number_stack()?;
                self.push_number_stack(if x == 0 { -1 } else { 0 });
                self.pc = self.pc + 1;
                Ok(StepEvent::Next)
            },
            Opcode::CMPNZ => {
                let x: i64 = self.pop_number_stack()?;
                self.push_number_stack(if x == 0 { 0 } else { -1 });
                self.pc = self.pc + 1;
                Ok(StepEvent::Next)
            },
            Opcode::LDI(x) => {
                self.push_number_stack(x);
                self.pc = self.pc + 1;
                Ok(StepEvent::Next)
            },
            Opcode::DROP => {
                let _ = self.pop_number_stack()?;
                self.pc = self.pc + 1;
                Ok(StepEvent::Next)
            },
            Opcode::SWAP => {
                let x: i64 = self.pop_number_stack()?;
                let y: i64 = self.pop_number_stack()?;
                self.push_number_stack(x);
                self.push_number_stack(y);
                self.pc = self.pc + 1;
                Ok(StepEvent::Next)
            },
            Opcode::SWAP2 => {
                let x4: i64 = self.pop_number_stack()?;
                let x3: i64 = self.pop_number_stack()?;
                let x2: i64 = self.pop_number_stack()?;
                let x1: i64 = self.pop_number_stack()?;
                self.push_number_stack(x3);
                self.push_number_stack(x4);
                self.push_number_stack(x1);
                self.push_number_stack(x2);
                self.pc = self.pc + 1;
                proof {
                    assert(self@.number =~= old(self)@.number.take(old(self)@.number.len() - 4)
                        .push(x3).push(x4).push(x1).push(x2));
                }
                Ok(StepEvent::Next)
            },
            Opcode::OVER2 => {
                let x4: i64 = self.pop_number_stack()?;
                let x3: i64 = self.pop_number_stack()?;
                let x2: i64 = self.pop_number_stack()?;
                let x1: i64 = self.pop_number_stack()?;
                self.push_number_stack(x1);
                self.push_number_stack(x2);
                self.push_number_stack(x3);
                self.push_number_stack(x4);
                self.push_number_stack(x1);
                self.push_number_stack(x2);
                self.pc = self.pc + 1;
                proof {
                    assert(self@.number =~= old(self)@.number.push(x1).push(x2));
                }
                Ok(StepEvent::Next)
            },
            Opcode::RET => {
                match self.return_stack.pop() {
                    Option::Some(return_address) => {
                        self.pc = return_address;
                        Ok(StepEvent::Next)
                    },
                    Option::None => Ok(StepEvent::Halt),
                }
            },
            Opcode::ADD => {
                self.execute_binary_op(Opcode::ADD)?;
                Ok(StepEvent::Next)
            },
            Opcode::SUB => {
                self.execute_binary_op(Opcode::SUB)?;
                Ok(StepEvent::Next)
            },
            Opcode::MUL => {
                self.execute_binary_op(Opcode::MUL)?;
                Ok(StepEvent::Next)
            },
            Opcode::DIV => {
                self.execute_division()?;
                Ok(StepEvent::Next)
            },
            Opcode::NOT => {
                let x: i64 = self.pop_number_stack()?;
                self.push_number_stack(if x == 0 { 1 } else { 0 });
                self.pc = self.pc + 1;
                Ok(StepEvent::Next)
            },
            Opcode::DUP => {
                let x: i64 = self.pop_number_stack()?;
                self.push_number_stack(x);
                self.push_number_stack(x);
                self.pc = self.pc + 1;
                Ok(StepEvent::Next)
            },
            Opcode::DUP2 => {
                let x: i64 = self.pop_number_stack()?;
                let y: i64 = self.pop_number_stack()?;
                self.push_number_stack(y);
                self.push_number_stack(x);
                self.push_number_stack(y);
                self.push_number_stack(x);
                self.pc = self.pc + 1;
                Ok(StepEvent::Next)
            },
            Opcode::TRAP => {
                let trap_id: i64 = self.pop_number_stack()?;
                Ok(StepEvent::Trap(trap_id))
            },
            Opcode::NOP => {
                self.pc = self.pc + 1;
                Ok(StepEvent::Next)
            },
            Opcode::PUSHLP => {
                let current_index: i64 = self.pop_number_stack()?;
                let max_index: i64 = self.pop_number_stack()?;
                self.loop_stack.push((current_index, max_index));
                self.pc = self.pc + 1;
                Ok(StepEvent::Next)
            },
            Opcode::INCLP => {
                let len: usize = self.loop_stack.len();
                if len == 0 {
                    return Err(StackMachineError::LoopStackUnderflow);
                }
                let entry: (i64, i64) = self.loop_stack[len - 1];
                match entry.0.checked_add(1) {
                    Option::Some(c) => {
                        self.loop_stack[len - 1] = (c, entry.1);
                        self.pc = self.pc + 1;
                        Ok(StepEvent::Next)
                    },
                    Option::None => Err(
                        StackMachineError::NumericOverflow { failing_opcode: Opcode::INCLP },
                    ),
                }
            },
            Opcode::ADDLP => {
                let increment: i64 = self.pop_number_stack()?;
                let len: usize = self.loop_stack.len();
                if len == 0 {
                    return Err(StackMachineError::LoopStackUnderflow);
                }
                let entry: (i64, i64) = self.loop_stack[len - 1];
                match entry.0.checked_add(increment) {
                    Option::Some(c) => {
                        self.loop_stack[len - 1] = (c, entry.1);
                        self.pc = self.pc + 1;
                        Ok(StepEvent::Next)
                    },
                    Option::None => Err(
                        StackMachineError::NumericOverflow { failing_opcode: Opcode::ADDLP },
                    ),
                }
            },
            Opcode::GETLP => {
                let len: usize = self.loop_stack.len();
                if len == 0 {
                    return Err(StackMachineError::LoopStackUnderflow);
                }
                let entry: (i64, i64) = self.loop_stack[len - 1];
                self.push_number_stack(entry.0);
                self.pc = self.pc + 1;
                Ok(StepEvent::Next)
            },
            Opcode::GETLP2 => {
                let len: usize = self.loop_stack.len();
                if len < 2 {
                    return Err(StackMachineError::LoopStackUnderflow);
                }
                let entry: (i64, i64) = self.loop_stack[len - 2];
                self.push_number_stack(entry.0);
                self.pc = self.pc + 1;
                Ok(StepEvent::Next)
            },
            Opcode::DROPLP => {
                match self.loop_stack.pop() {
                    Option::Some(_) => {
                        self.pc = self.pc + 1;
                        Ok(StepEvent::Next)
                    },
                    Option::None => Err(StackMachineError::LoopStackUnderflow),
                }
            },
            Opcode::CMPLOOP => {
                let len: usize = self.loop_stack.len();
                if len == 0 {
                    return Err(StackMachineError::LoopStackUnderflow);
                }
                let entry: (i64, i64) = self.loop_stack[len - 1];
                self.push_number_stack(if entry.0 >= entry.1 { 1 } else { 0 });
                self.pc = self.pc + 1;
                Ok(StepEvent::Next)
            },
            Opcode::GtR => {
                let x: i64 = self.pop_number_stack()?;
                self.push_scratch_stack(x);
                self.pc = self.pc + 1;
                Ok(StepEvent::Next)
            },
            Opcode::RGt => {
                let x: i64 = self.pop_scratch_stack()?;
                self.push_number_stack(x);
                self.pc = self.pc + 1;
                Ok(StepEvent::Next)
            },
            Opcode::RAt => {
                let x: i64 = self.peek_scratch_stack()?;
                self.push_number_stack(x);
                self.pc = self.pc + 1;
                Ok(StepEvent::Next)
            },
            Opcode::GtR2 => {
                let x: i64 = self.pop_number_stack()?;
                let y: i64 = self.pop_number_stack()?;
                self.push_scratch_stack(y);
                self.push_scratch_stack(x);
                self.pc = self.pc + 1;
                Ok(StepEvent::Next)
            },
            Opcode::RGt2 => {
                let x: i64 = self.pop_scratch_stack()?;
                let y: i64 = self.pop_scratch_stack()?;
                self.push_number_stack(y);
                self.push_number_stack(x);
                self.pc = self.pc + 1;
                Ok(StepEvent::Next)
            },
            Opcode::RAt2 => {
                let x: i64 = self.pop_scratch_stack()?;
                let y: i64 = self.pop_scratch_stack()?;
                self.push_scratch_stack(y);
                self.push_scratch_stack(x);
                self.push_number_stack(y);
                self.push_number_stack(x);
                self.pc = self.pc + 1;
                Ok(StepEvent::Next)
            },
            Opcode::AND => {
                let x: i64 = self.pop_number_stack()?;
                let y: i64 = self.pop_number_stack()?;
                self.push_number_stack(x & y);
                self.pc = self.pc + 1;
                Ok(StepEvent::Next)
            },
            Opcode::NEWCELLS => {
                self.execute_new_cells()?;
                Ok(StepEvent::Next)
            },
            Opcode::MOVETOCELLS => {
                self.execute_move_to_cells()?;
                Ok(StepEvent::Next)
            },
            Opcode::MOVEFROMCELLS => {
                self.execute_move_from_cells()?;
                Ok(StepEvent::Next)
            },
        }
    }
}

} // verus!
