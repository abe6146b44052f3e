use vstd::prelude::*;

use crate::errors::StackMachineError;
use crate::opcode::Opcode;

verus! {

/// The mathematical model of the machine: each stack as a sequence whose
/// last element is the top, the cell memory and the instruction sequence
/// as sequences, and the two counters.  Every contract in this crate
/// speaks about this view.
#[verifier::ext_equal]
pub struct MachineView {
    /// Operand ("number") stack.
    pub number: Seq<i64>,
    /// Scratch stack.
    pub scratch: Seq<i64>,
    /// Return stack of program-counter values.
    pub ret: Seq<usize>,
    /// Loop stack of `(current_index, max_index)` pairs.
    pub loops: Seq<(i64, i64)>,
    /// Cell memory.
    pub cells: Seq<i64>,
    /// Instruction sequence.
    pub code: Seq<Opcode>,
    /// Program counter.
    pub pc: usize,
    /// Instructions dispatched so far in the current run.
    pub gas: u64,
}

/// The mutable execution state of one machine instance.
///
/// The operand stack, scratch stack, loop stack, cell memory and
/// instruction sequence are public so the embedding host can seed and
/// inspect them between runs.  The return stack and the two counters are
/// managed by the dispatch loop alone.
pub struct StackMachineState {
    pub number_stack: Vec<i64>,
    pub scratch_stack: Vec<i64>,
    pub(crate) return_stack: Vec<usize>,
    pub loop_stack: Vec<(i64, i64)>,
    pub cells: Vec<i64>,
    pub opcodes: Vec<Opcode>,
    pub(crate) pc: usize,
    pub(crate) gas_used: u64,
}

impl View for StackMachineState {
    type V = MachineView;

    open(crate) spec fn view(&self) -> MachineView {
        MachineView {
            number: self.number_stack@,
            scratch: self.scratch_stack@,
            ret: self.return_stack@,
            loops: self.loop_stack@,
            cells: self.cells@,
            code: self.opcodes@,
            pc: self.pc,
            gas: self.gas_used,
        }
    }
}

/// The view of a machine with empty stacks, no cells, no program, and
/// both counters at zero.
pub open spec fn empty_view() -> MachineView {
    MachineView {
        number: Seq::<i64>::empty(),
        scratch: Seq::<i64>::empty(),
        ret: Seq::<usize>::empty(),
        loops: Seq::<(i64, i64)>::empty(),
        cells: Seq::<i64>::empty(),
        code: Seq::<Opcode>::empty(),
        pc: 0,
        gas: 0,
    }
}

impl Default for StackMachineState {
    /// A machine state with nothing installed.
    fn default() -> (r: StackMachineState)
        ensures
            r@ == empty_view(),
    {
        let r = StackMachineState {
            number_stack: Vec::new(),
            scratch_stack: Vec::new(),
            return_stack: Vec::new(),
            loop_stack: Vec::new(),
            cells: Vec::new(),
            opcodes: Vec::new(),
            pc: 0,
            gas_used: 0,
        };
        proof {
            assert(r@ =~= empty_view());
        }
        r
    }
}

impl StackMachineState {
    /// How many instructions the most recent run dispatched.
    pub fn gas_used(&self) -> (r: u64)
        ensures
            r == self@.gas,
    {
        self.gas_used
    }

    /// Pop the operand stack, reporting underflow on empty.
    pub(crate) fn pop_number_stack(&mut self) -> (r: Result<i64, StackMachineError>)
        ensures
            old(self)@.number.len() == 0 ==> {
                &&& r == Err::<i64, StackMachineError>(StackMachineError::NumberStackUnderflow)
                &&& final(self)@ == old(self)@
            },
            old(self)@.number.len() > 0 ==> {
                &&& r == Ok::<i64, StackMachineError>(old(self)@.number.last())
                &&& final(self)@ == (MachineView { number: old(self)@.number.drop_last(), ..old(self)@ })
            },
    {
        match self.number_stack.pop() {
            Some(v) => Ok(v),
            None => Err(StackMachineError::NumberStackUnderflow),
        }
    }

    /// Push a value on the operand stack.
    pub(crate) fn push_number_stack(&mut self, value: i64)
        ensures
            final(self)@ == (MachineView { number: old(self)@.number.push(value), ..old(self)@ }),
    {
        self.number_stack.push(value);
    }

    /// Pop the scratch stack, reporting underflow on empty.
    pub(crate) fn pop_scratch_stack(&mut self) -> (r: Result<i64, StackMachineError>)
        ensures
            old(self)@.scratch.len() == 0 ==> {
                &&& r == Err::<i64, StackMachineError>(StackMachineError::ScratchStackUnderflow)
                &&& final(self)@ == old(self)@
            },
            old(self)@.scratch.len() > 0 ==> {
                &&& r == Ok::<i64, StackMachineError>(old(self)@.scratch.last())
                &&& final(self)@ == (MachineView { scratch: old(self)@.scratch.drop_last(), ..old(self)@ })
            },
    {
        match self.scratch_stack.pop() {
            Some(v) => Ok(v),
            None => Err(StackMachineError::ScratchStackUnderflow),
        }
    }

    /// Push a value on the scratch stack.
    pub(crate) fn push_scratch_stack(&mut self, value: i64)
        ensures
            final(self)@ == (MachineView { scratch: old(self)@.scratch.push(value), ..old(self)@ }),
    {
        self.scratch_stack.push(value);
    }

    /// Read the top of the scratch stack without popping it.
    pub(crate) fn peek_scratch_stack(&self) -> (r: Result<i64, StackMachineError>)
        ensures
            self@.scratch.len() == 0 ==> r == Err::<i64, StackMachineError>(
                StackMachineError::ScratchStackUnderflow,
            ),
            self@.scratch.len() > 0 ==> r == Ok::<i64, StackMachineError>(self@.scratch.last()),
    {
        if self.scratch_stack.len() == 0 {
            Err(StackMachineError::ScratchStackUnderflow)
        } else {
            Ok(self.scratch_stack[self.scratch_stack.len() - 1])
        }
    }
}

} // verus!
