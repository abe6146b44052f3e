use vstd::prelude::*;

use crate::errors::GasLimit;
use crate::errors::StackMachineError;
use crate::machine::charged_gas;
use crate::machine::loop_iteration;
use crate::machine::run;
use crate::machine::RunOutcome;
use crate::machine::RunState;
use crate::opcode::Opcode;
use crate::state::MachineView;
use crate::step::advanced;
use crate::step::arith_result;
use crate::step::cells_read;
use crate::step::cells_written;
use crate::step::fits_addr;
use crate::step::fits_cell_arg;
use crate::step::num_pushed;
use crate::step::popped_values;
use crate::step::step;
use crate::step::step_opcode;
use crate::step::StepResult;

verus! {

/// Loading an immediate and then dropping it leaves the operand stack —
/// and every other part of the machine except the program counter —
/// exactly as it was, whatever the stack held before.
pub proof fn lemma_load_then_drop_restores(v: MachineView, x: i64)
    requires
        v.pc + 1 < usize::MAX,
        v.pc + 1 < v.code.len(),
        v.code[v.pc as int] == Opcode::LDI(x),
        v.code[v.pc as int + 1] == Opcode::DROP,
    ensures
        (step(v) matches StepResult::Next(v1) && step(v1) matches StepResult::Next(v2) && {
            &&& v2.number == v.number
            &&& v2.scratch == v.scratch
            &&& v2.ret == v.ret
            &&& v2.loops == v.loops
            &&& v2.cells == v.cells
            &&& v2.code == v.code
            &&& v2.pc == v.pc + 2
        }),
{
    assert(v.number.push(x).drop_last() =~= v.number);
}

/// `DUP` then `SWAP` leaves the machine exactly as `DUP` alone does, one
/// instruction further along: swapping two equal values is observably
/// the identity.
pub proof fn lemma_dup_then_swap_is_dup(v: MachineView)
    requires
        v.number.len() > 0,
    ensures
        (step_opcode(v, Opcode::DUP) matches StepResult::Next(v1) && step_opcode(
            v1,
            Opcode::SWAP,
        ) matches StepResult::Next(v2) && v2 == advanced(v1)),
{
    let x = v.number.last();
    let n1 = v.number.drop_last().push(x).push(x);
    assert(n1.drop_last().drop_last().push(n1.last()).push(n1[n1.len() - 2]) =~= n1);
    match step_opcode(v, Opcode::DUP) {
        StepResult::Next(v1) => match step_opcode(v1, Opcode::SWAP) {
            StepResult::Next(v2) => {
                assert(v2 =~= advanced(v1));
            },
            _ => {},
        },
        _ => {},
    }
}

/// `ADD` is commutative on the operand stack: pushing `a` then `b` and
/// adding ends exactly as pushing `b` then `a` and adding, overflow
/// included.
pub proof fn lemma_add_commutes(v: MachineView, a: i64, b: i64)
    ensures
        step_opcode(num_pushed(num_pushed(v, a), b), Opcode::ADD) == step_opcode(
            num_pushed(num_pushed(v, b), a),
            Opcode::ADD,
        ),
{
    let vab = num_pushed(num_pushed(v, a), b);
    let vba = num_pushed(num_pushed(v, b), a);
    assert(vab.number.drop_last().drop_last() =~= v.number);
    assert(vba.number.drop_last().drop_last() =~= v.number);
    assert(vab.number.drop_last().drop_last() =~= vba.number.drop_last().drop_last());
    match (step_opcode(vab, Opcode::ADD), step_opcode(vba, Opcode::ADD)) {
        (StepResult::Next(r1), StepResult::Next(r2)) => {
            assert(r1 =~= r2);
        },
        (StepResult::Fail(_, r1), StepResult::Fail(_, r2)) => {
            assert(r1 =~= r2);
        },
        _ => {},
    }
}

/// `ADD` is associative within non-overflowing ranges: summing three
/// values in either grouping gives the same result.
pub proof fn lemma_add_associates(a: i64, b: i64, c: i64)
    requires
        i64::MIN <= a + b <= i64::MAX,
        i64::MIN <= b + c <= i64::MAX,
        i64::MIN <= a + b + c <= i64::MAX,
    ensures
        (arith_result(Opcode::ADD, a, b) matches Some(ab) && arith_result(Opcode::ADD, ab, c)
            == Some((a + b + c) as i64)),
        (arith_result(Opcode::ADD, b, c) matches Some(bc) && arith_result(Opcode::ADD, a, bc)
            == Some((a + b + c) as i64)),
{
}

/// `SUB` on a stack holding `a` below `b` (so `b` on top) pushes exactly
/// `b - a`.
pub proof fn lemma_sub_computes(v: MachineView, a: i64, b: i64)
    requires
        i64::MIN <= b - a <= i64::MAX,
    ensures
        step_opcode(num_pushed(num_pushed(v, a), b), Opcode::SUB) == StepResult::Next(
            advanced(num_pushed(v, (b - a) as i64)),
        ),
{
    let vab = num_pushed(num_pushed(v, a), b);
    assert(vab.number.drop_last().drop_last() =~= v.number);
    match step_opcode(vab, Opcode::SUB) {
        StepResult::Next(r) => {
            assert(r =~= advanced(num_pushed(v, (b - a) as i64)));
        },
        _ => {},
    }
}

/// `DIV` with a zero divisor always fails with the division-by-zero
/// error, and the dispatch loop still charges the unit of gas for the
/// failing instruction.
pub proof fn lemma_div_by_zero_charges_gas(v: MachineView, limit: GasLimit)
    requires
        v.pc < v.code.len(),
        v.code[v.pc as int] == Opcode::DIV,
        v.number.len() >= 2,
        v.number.last() == 0,
    ensures
        (loop_iteration(v, limit) matches RunState::Ended(RunOutcome::Done(r, v1)) && {
            &&& r == Err::<(), StackMachineError>(
                StackMachineError::DivisionByZero { failing_opcode: Opcode::DIV },
            )
            &&& v1.gas == charged_gas(v.gas)
            &&& v1.number == v.number.drop_last().drop_last()
            &&& v1.cells == v.cells
        }),
{
}

/// Loop instructions on the innermost frame leave every enclosing frame
/// alone: `INCLP` raises only the top entry's current index, and
/// `GETLP2` still reads the next enclosing frame afterwards.
pub proof fn lemma_inner_loop_keeps_outer(v: MachineView)
    requires
        v.loops.len() >= 2,
        v.loops.last().0 < i64::MAX,
    ensures
        (step_opcode(v, Opcode::INCLP) matches StepResult::Next(v1) && {
            &&& v1.loops.len() == v.loops.len()
            &&& v1.loops.last().0 == v.loops.last().0 + 1
            &&& v1.loops.last().1 == v.loops.last().1
            &&& forall|k: int|
                0 <= k < v.loops.len() - 1 ==> v1.loops[k] == v.loops[k]
            &&& step_opcode(v1, Opcode::GETLP2) matches StepResult::Next(v2)
                && v2.number == v.number.push(v.loops[v.loops.len() - 2].0)
        }),
{
}

/// `CMPLOOP` pushes 1 exactly when the innermost frame's current index
/// has reached its maximum index, pushes 0 otherwise, and disturbs
/// neither the loop stack nor anything below the pushed flag.
pub proof fn lemma_cmploop_tests_completion(v: MachineView)
    requires
        v.loops.len() >= 1,
    ensures
        (step_opcode(v, Opcode::CMPLOOP) matches StepResult::Next(v1) && {
            &&& v1.loops == v.loops
            &&& v1.number.drop_last() == v.number
            &&& (v1.number.last() == 1i64 <==> v.loops.last().0 >= v.loops.last().1)
            &&& (v1.number.last() == 1i64 || v1.number.last() == 0i64)
        }),
{
    assert(v.number.push(if v.loops.last().0 >= v.loops.last().1 { 1i64 } else { 0i64 })
        .drop_last() =~= v.number);
}

/// While a run is still going, the gas counter counts exactly the
/// iterations dispatched so far.
pub proof fn lemma_gas_counts_iterations(init: MachineView, limit: GasLimit, n: nat)
    requires
        init.gas == 0,
        run(init, limit, n) matches RunState::Running(_),
    ensures
        (run(init, limit, n) matches RunState::Running(v) && v.gas == n),
    decreases n,
{
    if n > 0 {
        match run(init, limit, (n - 1) as nat) {
            RunState::Running(v1) => {
                lemma_gas_counts_iterations(init, limit, (n - 1) as nat);
            },
            _ => {
                assert(false);
            },
        }
    }
}

/// A budget that the iteration count stays within does not steer the
/// run: under `Limited(l)` the first `n <= l` iterations look exactly as
/// they do under `Unlimited`.
pub proof fn lemma_run_agrees_below_limit(init: MachineView, l: u64, n: nat)
    requires
        init.gas == 0,
        n <= l,
        run(init, GasLimit::Unlimited, n) matches RunState::Running(_),
    ensures
        run(init, GasLimit::Limited(l), n) == run(init, GasLimit::Unlimited, n),
    decreases n,
{
    if n > 0 {
        match run(init, GasLimit::Unlimited, (n - 1) as nat) {
            RunState::Running(v1) => {
                lemma_run_agrees_below_limit(init, l, (n - 1) as nat);
                lemma_gas_counts_iterations(init, GasLimit::Unlimited, (n - 1) as nat);
            },
            _ => {
                assert(false);
            },
        }
    }
}

/// The gas-budget boundary: a program that ends successfully after
/// exactly `n` dispatched instructions used exactly `n` units of gas,
/// still succeeds under a budget of `n`, and under a budget of `n - 1`
/// fails with gas exhaustion reporting `n` units used.
pub proof fn lemma_gas_budget_boundary(init: MachineView, n: nat, fin: MachineView)
    requires
        init.gas == 0,
        n >= 1,
        run(init, GasLimit::Unlimited, (n - 1) as nat) matches RunState::Running(_),
        run(init, GasLimit::Unlimited, n) == RunState::Ended(
            RunOutcome::Done(Ok(()), fin),
        ),
    ensures
        fin.gas == n,
        run(init, GasLimit::Limited(fin.gas), n) == RunState::Ended(
            RunOutcome::Done(Ok(()), fin),
        ),
        run(init, GasLimit::Limited((n - 1) as u64), n) == RunState::Ended(
            RunOutcome::Done(
                Err(
                    StackMachineError::RanOutOfGas {
                        gas_used: fin.gas,
                        gas_limit: GasLimit::Limited((n - 1) as u64),
                    },
                ),
                fin,
            ),
        ),
{
    match run(init, GasLimit::Unlimited, (n - 1) as nat) {
        RunState::Running(v1) => {
            lemma_gas_counts_iterations(init, GasLimit::Unlimited, (n - 1) as nat);
            lemma_run_agrees_below_limit(init, (n - 1) as u64, (n - 1) as nat);
            lemma_run_agrees_below_limit(init, n as u64, (n - 1) as nat);
        },
        _ => {
            assert(false);
        },
    }
}

/// Storing a run of operand values to cells and loading the same range
/// back restores the operand stack exactly as it stood below the two
/// control values — and the cells keep what was stored.
pub proof fn lemma_store_then_load_restores_stack(v: MachineView, addr: i64, count: i64)
    requires
        v.number.len() >= 2,
        v.number.last() == count,
        v.number[v.number.len() - 2] == addr,
        0 < count,
        fits_cell_arg(count),
        fits_cell_arg(addr),
        addr as int + count as int <= v.cells.len(),
        count as int <= v.number.len() - 2,
    ensures
        (step_opcode(v, Opcode::MOVETOCELLS) matches StepResult::Next(v1) && {
            let w = MachineView { number: v1.number.push(addr).push(count), ..v1 };
            step_opcode(w, Opcode::MOVEFROMCELLS) matches StepResult::Next(v2) && {
                &&& v2.number == v.number.drop_last().drop_last()
                &&& v2.cells == v1.cells
            }
        }),
{
    let s = v.number.drop_last().drop_last();
    match step_opcode(v, Opcode::MOVETOCELLS) {
        StepResult::Next(v1) => {
            let w = MachineView { number: v1.number.push(addr).push(count), ..v1 };
            assert(w.number.drop_last().drop_last() =~= v1.number);
            match step_opcode(w, Opcode::MOVEFROMCELLS) {
                StepResult::Next(v2) => {
                    let vals = popped_values(s, count as int);
                    let written = cells_written(v.cells, addr as int, vals);
                    assert(v1.cells =~= written);
                    let readback = cells_read(written, addr as int, count as int);
                    assert forall|k: int| 0 <= k < count as int implies readback[k] == s[s.len()
                        - count + k] by {
                        assert(written[addr as int + count as int - 1 - k] == vals[count as int
                            - 1 - k]);
                    }
                    assert(v2.number =~= s);
                    assert(v2.cells =~= v1.cells);
                },
                _ => {
                    assert(false);
                },
            }
        },
        _ => {
            assert(false);
        },
    }
}

/// `CALL` pushes the program counter of the next instruction on the
/// return stack and redirects execution to the popped target address.
pub proof fn lemma_call_pushes_return_address(v: MachineView)
    requires
        v.pc < usize::MAX,
        v.number.len() > 0,
        fits_addr(v.number.last() as int),
    ensures
        (step_opcode(v, Opcode::CALL) matches StepResult::Next(v1) && {
            &&& v1.pc == v.number.last() as usize
            &&& v1.ret == v.ret.push((v.pc + 1) as usize)
            &&& v1.number == v.number.drop_last()
            &&& v1.scratch == v.scratch
            &&& v1.loops == v.loops
            &&& v1.cells == v.cells
        }),
{
}

/// A `RET` that finds the frame a matching `CALL` pushed resumes at
/// exactly the instruction after that `CALL`, with the frame consumed.
pub proof fn lemma_matching_return_resumes(v: MachineView, w: MachineView)
    requires
        v.pc < usize::MAX,
        v.number.len() > 0,
        fits_addr(v.number.last() as int),
        (step_opcode(v, Opcode::CALL) matches StepResult::Next(v1) && w.ret == v1.ret),
    ensures
        (step_opcode(w, Opcode::RET) matches StepResult::Next(v2) && {
            &&& v2.pc == v.pc + 1
            &&& v2.ret == v.ret
            &&& v2.number == w.number
        }),
{
    assert(v.ret.push((v.pc + 1) as usize).drop_last() =~= v.ret);
}

/// A `RET` with an empty return stack ends the run successfully, leaving
/// the machine untouched.
pub proof fn lemma_return_at_top_level_halts(v: MachineView)
    requires
        v.ret.len() == 0,
    ensures
        step_opcode(v, Opcode::RET) == StepResult::Halt(v),
{
}

} // verus!
