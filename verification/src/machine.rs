use vstd::prelude::*;

use crate::errors::GasLimit;
use crate::errors::StackMachineError;
use crate::errors::TrapHandled;
use crate::state::MachineView;
use crate::state::StackMachineState;
use crate::step::step_opcode;
use crate::step::step_view;
use crate::step::StepEvent;
use crate::step::StepResult;

verus! {

/// A host-supplied trap handler.  `TRAP` offers the popped identifier to
/// every registered handler in registration order; the first to report
/// `Handled` ends the run successfully, an error from a handler ends the
/// run with that error, and a handler that reports `NotHandled` passes
/// the trap along.
///
/// A handler receives the machine state and may mutate the public stacks
/// and memory at will; nothing is promised about the state after a
/// handler has run.
pub trait HandleTrap {
    fn handle_trap(&mut self, trap_id: i64, st: &mut StackMachineState) -> Result<
        TrapHandled,
        StackMachineError,
    >;
}

/// A trap handler for one specific identifier: the callback runs only
/// when the popped identifier equals the registered one; any other
/// identifier is reported `NotHandled` without side effects.
pub struct TrapHandler<
    F: Fn(i64, &mut StackMachineState) -> Result<TrapHandled, StackMachineError>,
> {
    handled_trap: i64,
    to_run: F,
}

impl<F: Fn(i64, &mut StackMachineState) -> Result<TrapHandled, StackMachineError>> TrapHandler<
    F,
> {
    /// The identifier this handler claims.
    pub closed spec fn id(&self) -> i64 {
        self.handled_trap
    }

    /// The stored callback, so that contracts can tie `handle_trap`'s
    /// result to it.
    pub closed spec fn callback(&self) -> F {
        self.to_run
    }

    /// The stored callback can be called on any identifier and state.
    #[verifier::type_invariant]
    spec fn callback_callable(self) -> bool {
        forall|id: i64, st: &mut StackMachineState| self.to_run.requires((id, st))
    }

    /// A handler that runs `f` on the machine state when the popped
    /// identifier equals `handled_trap`.
    pub fn new(handled_trap: i64, f: F) -> (r: TrapHandler<F>)
        requires
            forall|id: i64, st: &mut StackMachineState| f.requires((id, st)),
        ensures
            r.id() == handled_trap,
            r.callback() == f,
    {
        TrapHandler { handled_trap, to_run: f }
    }
}

impl<
    F: Fn(i64, &mut StackMachineState) -> Result<TrapHandled, StackMachineError>,
> HandleTrap for TrapHandler<F> {
    /// A non-matching identifier is reported `NotHandled` and the
    /// machine state is left untouched; the matching identifier is
    /// handed to the stored callback, whose result is returned
    /// unchanged.  The handler itself is never altered.
    fn handle_trap(&mut self, trap_number: i64, st: &mut StackMachineState) -> (r: Result<
        TrapHandled,
        StackMachineError,
    >)
        ensures
            *final(self) == *old(self),
            trap_number != old(self).id() ==> r == Ok::<TrapHandled, StackMachineError>(
                TrapHandled::NotHandled,
            ) && final(st)@ == old(st)@,
            trap_number == old(self).id() ==> (exists|m: &mut StackMachineState|
                {
                    &&& #[trigger] call_ensures(old(self).callback(), (trap_number, m), r)
                    &&& *m == *old(st)
                    &&& *final(m) == *final(st)
                }),
    {
        proof {
            use_type_invariant(&*self);
        }
        if trap_number == self.handled_trap {
            let r = (self.to_run)(self.handled_trap, st);
            proof {
                assert(old(self).callback() == self.to_run);
            }
            r
        } else {
            proof {
                assert(trap_number != old(self).id());
            }
            Ok(TrapHandled::NotHandled)
        }
    }
}

/// The gas counter after charging one unit.  The counter is a `u64` and
/// sticks at `u64::MAX`, the most it can count.
pub open spec fn charged_gas(g: u64) -> u64 {
    if g < u64::MAX {
        (g + 1) as u64
    } else {
        u64::MAX
    }
}

/// Whether charging one more unit of gas breaks the budget `limit`, with
/// `g` the counter before the charge.  A limited budget is broken when
/// the charged counter passes the limit; any budget is broken once the
/// counter can count no further (it already reached `u64::MAX`).
pub open spec fn gas_exceeded(g: u64, limit: GasLimit) -> bool {
    g == u64::MAX || match limit {
        GasLimit::Limited(l) => charged_gas(g) > l,
        GasLimit::Unlimited => false,
    }
}

/// The view with the gas counter replaced.
pub open spec fn with_gas(v: MachineView, g: u64) -> MachineView {
    MachineView { gas: g, ..v }
}

/// How the deterministic part of a run can end.
pub enum RunOutcome {
    /// The run ended by itself: the result `execute` returns, and the
    /// machine view it leaves.
    Done(Result<(), StackMachineError>, MachineView),
    /// The run reached `TRAP`: the popped identifier, and the view handed
    /// to the trap chain, gas already charged.  The registered handlers
    /// decide how `execute` ends from here.
    Trapped(i64, MachineView),
}

/// The run after some number of dispatch-loop iterations.
pub enum RunState {
    Running(MachineView),
    Ended(RunOutcome),
}

/// One iteration of the dispatch loop: fetch the instruction at the
/// program counter, execute it, charge exactly one unit of gas, and
/// apply the budget.
///
/// - A program counter outside the instruction sequence is the malformed
///   program error; no instruction was dispatched, so no gas is charged.
/// - An instruction that fails ends the run with its own error; the unit
///   is still charged, and takes precedence over no budget check.
/// - `RET` on an empty return stack ends the run: with success when the
///   budget still holds after the charge, with gas exhaustion when not.
/// - `TRAP` charges its unit and hands the run to the trap chain.
/// - Any other completed instruction continues the run unless the budget
///   is now broken.
pub open spec fn loop_iteration(v: MachineView, limit: GasLimit) -> RunState {
    if v.pc >= v.code.len() {
        RunState::Ended(
            RunOutcome::Done(Err(StackMachineError::UnknownError), v),
        )
    } else {
        let g: u64 = charged_gas(v.gas);
        match step_opcode(v, v.code[v.pc as int]) {
            StepResult::Fail(e, v1) => RunState::Ended(
                RunOutcome::Done(Err(e), with_gas(v1, g)),
            ),
            StepResult::Trap(id, v1) => RunState::Ended(
                RunOutcome::Trapped(id, with_gas(v1, g)),
            ),
            StepResult::Halt(v1) => if gas_exceeded(v.gas, limit) {
                RunState::Ended(
                    RunOutcome::Done(
                        Err(StackMachineError::RanOutOfGas { gas_used: g, gas_limit: limit }),
                        with_gas(v1, g),
                    ),
                )
            } else {
                RunState::Ended(RunOutcome::Done(Ok(()), with_gas(v1, g)))
            },
            StepResult::Next(v1) => if gas_exceeded(v.gas, limit) {
                RunState::Ended(
                    RunOutcome::Done(
                        Err(StackMachineError::RanOutOfGas { gas_used: g, gas_limit: limit }),
                        with_gas(v1, g),
                    ),
                )
            } else {
                RunState::Running(with_gas(v1, g))
            },
        }
    }
}

/// The run after `n` iterations of the dispatch loop from `v` under
/// `limit`.  Once ended, the run stays ended.
pub open spec fn run(v: MachineView, limit: GasLimit, n: nat) -> RunState
    decreases n,
{
    if n == 0 {
        RunState::Running(v)
    } else {
        match run(v, limit, (n - 1) as nat) {
            RunState::Running(v1) => loop_iteration(v1, limit),
            ended => ended,
        }
    }
}

/// An ended run stays ended: past its end, every longer run of the same
/// machine is that same ending.
pub proof fn lemma_run_sticky(init: MachineView, limit: GasLimit, n: nat, m: nat)
    requires
        n <= m,
        run(init, limit, n) matches RunState::Ended(_),
    ensures
        run(init, limit, m) == run(init, limit, n),
    decreases m,
{
    if m > n {
        lemma_run_sticky(init, limit, n, (m - 1) as nat);
    }
}

/// A machine ends one way: any two witnessed endings of the same run are
/// the same, so the ending that `execute`'s contract exhibits is the
/// run's one true outcome.
pub proof fn lemma_run_ending_unique(init: MachineView, limit: GasLimit, a: nat, b: nat)
    requires
        run(init, limit, a) matches RunState::Ended(_),
        run(init, limit, b) matches RunState::Ended(_),
    ensures
        run(init, limit, a) == run(init, limit, b),
{
    if a <= b {
        lemma_run_sticky(init, limit, a, b);
    } else {
        lemma_run_sticky(init, limit, b, a);
    }
}

/// The view at the start of an `execute(start, _)` call: the program
/// counter at `start`, the gas counter cleared, everything else kept.
pub open spec fn start_view(v: MachineView, start: usize) -> MachineView {
    MachineView { pc: start, gas: 0, ..v }
}

/// How a finished `execute` call relates to the spec-level run: after `n`
/// iterations the run ended.
///
/// - When it ended by itself, `execute` returned exactly that result and
///   left exactly that view.
/// - When it reached a trap, the registered handlers decide the result
///   and may mutate the machine at will; but with no handler registered
///   the outcome is again exact: the unhandled-trap error, with the trap
///   view untouched.
pub open spec fn execute_outcome(
    init: MachineView,
    limit: GasLimit,
    n: nat,
    r: Result<(), StackMachineError>,
    fin: MachineView,
    handler_count: nat,
) -> bool {
    match run(init, limit, n) {
        RunState::Running(_) => false,
        RunState::Ended(RunOutcome::Done(result, v)) => r == result && fin == v,
        RunState::Ended(RunOutcome::Trapped(id, v)) => handler_count == 0 ==> (r == Err::<
            (),
            StackMachineError,
        >(StackMachineError::UnhandledTrap { unhandled_trap_id: id }) && fin == v),
    }
}

/// The machine: its mutable state together with the registered trap
/// handlers, kept in registration order.
pub struct StackMachine {
    pub st: StackMachineState,
    pub trap_handlers: Vec<Box<dyn HandleTrap>>,
}

impl Default for StackMachine {
    /// A machine with nothing installed and no trap handlers.
    fn default() -> (r: StackMachine)
        ensures
            r.st@ == crate::state::empty_view(),
            r.trap_handlers@.len() == 0,
    {
        StackMachine { st: StackMachineState::default(), trap_handlers: Vec::new() }
    }
}

impl StackMachine {
    /// Offer a popped trap identifier to the registered handlers in
    /// registration order.  The first handler to report `Handled` ends
    /// the run successfully; an error from a handler ends the run with
    /// that error; a chain that is exhausted — in particular, an empty
    /// one — is the unhandled-trap error, and an empty chain leaves the
    /// machine state untouched.
    fn dispatch_trap(&mut self, trap_id: i64) -> (r: Result<(), StackMachineError>)
        ensures
            final(self).trap_handlers@.len() == old(self).trap_handlers@.len(),
            old(self).trap_handlers@.len() == 0 ==> {
                &&& r == Err::<(), StackMachineError>(
                    StackMachineError::UnhandledTrap { unhandled_trap_id: trap_id },
                )
                &&& final(self).st@ == old(self).st@
            },
    {
        let handler_count: usize = self.trap_handlers.len();
        let mut i: usize = 0;
        while i < handler_count
            invariant
                i <= handler_count,
                self.trap_handlers@.len() == handler_count,
                handler_count == old(self).trap_handlers@.len(),
                handler_count == 0 ==> self.st@ == old(self).st@,
            decreases handler_count - i,
        {
            let h = vstd::std_specs::vec::vec_index_mut(&mut self.trap_handlers, i);
            let res = h.handle_trap(trap_id, &mut self.st);
            match res {
                Err(e) => {
                    return Err(e);
                },
                Ok(TrapHandled::Handled) => {
                    return Ok(());
                },
                Ok(TrapHandled::NotHandled) => {
                    i = i + 1;
                },
            }
        }
        Err(StackMachineError::UnhandledTrap { unhandled_trap_id: trap_id })
    }

    /// Run the machine from `starting_point` under `gas_limit` until a
    /// terminal condition: `RET` with an empty return stack (success), a
    /// handled trap (success), an error, or gas exhaustion.
    ///
    /// The contract: some number of iterations of the spec-level dispatch
    /// loop ([`run`]) ends the run, and the returned result and the final
    /// state are exactly the ones that [`execute_outcome`] ties to that
    /// ending.  Until the first trap the machine is fully deterministic,
    /// so with no handlers registered the whole run is pinned down.
    #[verifier::loop_isolation(false)]
    #[verifier::rlimit(80)]
    pub fn execute(&mut self, starting_point: usize, gas_limit: GasLimit) -> (r: Result<
        (),
        StackMachineError,
    >)
        ensures
            final(self).trap_handlers@.len() == old(self).trap_handlers@.len(),
            (exists|n: nat|
                #[trigger] execute_outcome(
                    start_view(old(self).st@, starting_point),
                    gas_limit,
                    n,
                    r,
                    final(self).st@,
                    old(self).trap_handlers@.len(),
                )),
    {
        self.st.gas_used = 0;
        self.st.pc = starting_point;
        let ghost init: MachineView = self.st@;
        let ghost mut steps: nat = 0nat;
        proof {
            assert(init =~= start_view(old(self).st@, starting_point));
        }
        loop
            invariant
                run(init, gas_limit, steps) == RunState::Running(self.st@),
                self.trap_handlers@ == old(self).trap_handlers@,
            decreases u64::MAX - self.st.gas_used,
        {
            let ghost cur: MachineView = self.st@;
            if self.st.pc >= self.st.opcodes.len() {
                proof {
                    assert(run(init, gas_limit, steps + 1) == RunState::Ended(
                        RunOutcome::Done(
                            Err::<(), StackMachineError>(StackMachineError::UnknownError),
                            cur,
                        ),
                    ));
                    assert(execute_outcome(
                        init,
                        gas_limit,
                        steps + 1,
                        Err::<(), StackMachineError>(StackMachineError::UnknownError),
                        cur,
                        old(self).trap_handlers@.len(),
                    ));
                }
                return Err(StackMachineError::UnknownError);
            }
            let stepped = self.st.step_exec();
            let gas_before: u64 = self.st.gas_used;
            let charged: u64 = if gas_before < u64::MAX {
                gas_before + 1
            } else {
                u64::MAX
            };
            let exceeded: bool = gas_before == u64::MAX || (match &gas_limit {
                GasLimit::Limited(l) => charged > *l,
                GasLimit::Unlimited => false,
            });
            self.st.gas_used = charged;
            proof {
                assert(charged == charged_gas(cur.gas));
                assert(exceeded == gas_exceeded(cur.gas, gas_limit));
                assert(self.st@ =~= with_gas(step_view(cur), charged));
            }
            match stepped {
                Err(e) => {
                    proof {
                        assert(execute_outcome(
                            init,
                            gas_limit,
                            steps + 1,
                            Err::<(), StackMachineError>(e),
                            self.st@,
                            old(self).trap_handlers@.len(),
                        ));
                    }
                    return Err(e);
                },
                Ok(StepEvent::Halt) => {
                    if exceeded {
                        let failure = StackMachineError::RanOutOfGas {
                            gas_used: charged,
                            gas_limit,
                        };
                        proof {
                            assert(execute_outcome(
                                init,
                                gas_limit,
                                steps + 1,
                                Err::<(), StackMachineError>(failure),
                                self.st@,
                                old(self).trap_handlers@.len(),
                            ));
                        }
                        return Err(failure);
                    }
                    proof {
                        assert(execute_outcome(
                            init,
                            gas_limit,
                            steps + 1,
                            Ok::<(), StackMachineError>(()),
                            self.st@,
                            old(self).trap_handlers@.len(),
                        ));
                    }
                    return Ok(());
                },
                Ok(StepEvent::Next) => {
                    if exceeded {
                        let failure = StackMachineError::RanOutOfGas {
                            gas_used: charged,
                            gas_limit,
                        };
                        proof {
                            assert(execute_outcome(
                                init,
                                gas_limit,
                                steps + 1,
                                Err::<(), StackMachineError>(failure),
                                self.st@,
                                old(self).trap_handlers@.len(),
                            ));
                        }
                        return Err(failure);
                    }
                    proof {
                        steps = steps + 1;
                        assert(run(init, gas_limit, steps) == RunState::Running(self.st@));
                    }
                },
                Ok(StepEvent::Trap(trap_id)) => {
                    let ghost trap_view: MachineView = self.st@;
                    proof {
                        assert(run(init, gas_limit, steps + 1) == RunState::Ended(
                            RunOutcome::Trapped(trap_id, trap_view),
                        ));
                    }
                    let res = self.dispatch_trap(trap_id);
                    proof {
                        assert(execute_outcome(
                            init,
                            gas_limit,
                            steps + 1,
                            res,
                            self.st@,
                            old(self).trap_handlers@.len(),
                        ));
                    }
                    return res;
                },
            }
        }
    }
}

} // verus!
