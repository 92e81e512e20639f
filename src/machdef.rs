use vstd::prelude::*;

use crate::lua::{
    compose_spec, compose_status, ErrCode, LuaCallInfoStatus, LuaStateStatus, LUA_MAX_CALLS,
    LUA_MIN_STACK, LUA_MUL_RET,
};
use crate::objdef::{DataType, TObject, BASIC_TYPE_BIT};
use crate::statedef::{
    can_grow, cleared_frame, fits_spec, CallInfo, GlobalState, LuaState, StkElem,
};

verus! {

/// What the host does next after asking for a call.
#[derive(Debug, Clone, Copy, PartialEq, Eq, Structural)]
pub enum CallStep {
    /// Run the native function registered under this handle on the thread,
    /// then resume the machine with the number of results it produced.
    Invoke(usize),
    /// The call is over, with this status: 0 for success, else a composite code.
    Done(i32),
}

/// How many result slots the reconciliation touches: the produced count, or
/// the requested count when that is a larger fixed count.
pub open spec fn results_needed(r: int, n: int) -> int {
    if n > r {
        n
    } else {
        r
    }
}

/// The top after reconciling `r` produced results with a request for `n`
/// results, the callee having been at slot `f`.
pub open spec fn result_top(f: int, r: int, n: int) -> int {
    if n == LUA_MUL_RET {
        f + r
    } else {
        f + n
    }
}

/// The stack after reconciliation: the slots a fixed request wants beyond what
/// was produced are nil; every other slot is kept.
pub open spec fn reconciled(stk: Seq<DataType>, f: int, r: int, n: int) -> Seq<DataType> {
    Seq::new(
        stk.len(),
        |i: int|
            if f + r <= i < f + n {
                DataType::ValNil
            } else {
                stk[i]
            },
    )
}

/// The stack once the element the native call path leaves on top is dropped.
pub open spec fn after_sentinel(s: LuaState) -> Seq<DataType> {
    if s.top() > 0 {
        s.stk().update(s.top() - 1, DataType::ValNil)
    } else {
        s.stk()
    }
}

/// The top once the element the native call path leaves on top is dropped.
pub open spec fn top_after_sentinel(s: LuaState) -> int {
    if s.top() > 0 {
        s.top() - 1
    } else {
        0
    }
}

/// Whether the value at `f` is a callable light native function.
pub open spec fn callee_ok(s: LuaState, f: int) -> bool {
    s.stk()[f] is ValRfunc
}

/// Whether the frame's reserved window fits on the stack, by growing it if needed.
pub open spec fn reserve_ok(s: LuaState) -> bool {
    s.top() + LUA_MIN_STACK <= s.last() || can_grow(s.stk().len() as int, LUA_MIN_STACK as int)
}

/// Whether a call of the value at `f` gets as far as invoking it.
pub open spec fn begin_ok(s: LuaState, f: int) -> bool {
    s.depth() < LUA_MAX_CALLS && callee_ok(s, f) && reserve_ok(s)
}

/// The thread status a call left when it failed before invoking its callee.
pub open spec fn begin_fail_status(s: LuaState, f: int) -> LuaStateStatus {
    if s.depth() >= LUA_MAX_CALLS {
        LuaStateStatus::LuaErrErr
    } else if !callee_ok(s, f) {
        LuaStateStatus::LuaErrRun
    } else {
        LuaStateStatus::LuaErrMem
    }
}

/// The composite code of a call that failed before invoking its callee: too
/// many calls, a callee that is not a native function, or no room for its frame.
pub open spec fn begin_fail_code(s: LuaState, f: int) -> int {
    if s.depth() >= LUA_MAX_CALLS {
        compose_spec(LuaStateStatus::LuaErrErr, LuaCallInfoStatus::TooManyCall, ErrCode::OverFlow)
    } else if !callee_ok(s, f) {
        compose_spec(LuaStateStatus::LuaErrRun, LuaCallInfoStatus::CallOk, ErrCode::MisMatch)
    } else {
        compose_spec(LuaStateStatus::LuaErrMem, LuaCallInfoStatus::StackOverFlow, ErrCode::OverFlow)
    }
}

/// The innermost open frame.
pub open spec fn top_frame(s: LuaState) -> CallInfo {
    s.frames()[s.depth() - 1]
}

/// Whether the results of the innermost call fit its frame's window.
pub open spec fn results_fit(s: LuaState, r: int) -> bool {
    fits_spec(top_frame(s), results_needed(r, top_frame(s).nresult as int))
}

/// The code of a call whose callee produced more results than its window holds.
pub open spec fn results_fail_code() -> int {
    compose_spec(LuaStateStatus::LuaErrErr, LuaCallInfoStatus::StackOverFlow, ErrCode::OverFlow)
}

/// The values on the stack once the innermost call's `r` results are
/// reconciled with its request.
pub open spec fn resumed_live(s: LuaState, r: int) -> Seq<DataType> {
    let f = top_frame(s).stack_func_index as int;
    let n = top_frame(s).nresult as int;
    reconciled(after_sentinel(s), f, r, n).subrange(0, result_top(f, r, n))
}

/// The values on the stack once a failed innermost call is rewound to its callee slot.
pub open spec fn rewound_live(s: LuaState) -> Seq<DataType> {
    after_sentinel(s).subrange(0, top_frame(s).stack_func_index as int)
}

/// The call engine; it keeps the status of the frame that failed last.
#[derive(Debug)]
pub struct Routine {
    cci_status: LuaCallInfoStatus,
}

impl Routine {
    pub closed spec fn err_status(&self) -> LuaCallInfoStatus {
        self.cci_status
    }

    pub fn new() -> (r: Routine)
        ensures
            r.err_status() == LuaCallInfoStatus::CallOk,
    {
        Routine { cci_status: LuaCallInfoStatus::CallOk }
    }

    /// Starts a call of the value at `func_index`: checks the depth, then
    /// prepares the callee. Returns the native function's handle.
    fn run(&mut self, state: &mut LuaState, func_index: usize, sresults: isize) -> (r: Result<
        usize,
        ErrCode,
    >)
        requires
            old(state).wf(),
            func_index < old(state).top(),
            sresults >= -1,
        ensures
            final(state).wf(),
            begin_ok(*old(state), func_index as int) ==> {
                &&& old(state).stk()[func_index as int] == DataType::ValRfunc(r->Ok_0)
                &&& r is Ok
                &&& final(state).depth() == old(state).depth() + 1
                &&& final(state).frames()[old(state).depth()] == (CallInfo {
                    stack_func_index: func_index,
                    stack_top_index: (old(state).top() + LUA_MIN_STACK) as usize,
                    nresult: sresults,
                    callstatus: LuaCallInfoStatus::CallOk,
                })
                &&& final(state).live() == old(state).live()
                &&& final(state).top() == old(state).top()
                &&& final(state).status_spec() == old(state).status_spec()
            },
            !begin_ok(*old(state), func_index as int) ==> {
                &&& r is Err
                &&& compose_spec(final(state).status_spec(), final(self).err_status(), r->Err_0)
                    == begin_fail_code(*old(state), func_index as int)
                &&& final(state).status_spec() == begin_fail_status(
                    *old(state),
                    func_index as int,
                )
                &&& final(state).same_stack(*old(state))
                &&& final(state).depth() == old(state).depth()
            },
    {
        if !state.calls_check() {
            self.cci_status = LuaCallInfoStatus::TooManyCall;
            state.set_status(LuaStateStatus::LuaErrErr);
            return Err(ErrCode::OverFlow);
        }
        self.pre_call(state, func_index, sresults)
    }

    /// Checks that the callee is a light native function, reserves its stack
    /// window and opens its frame.
    fn pre_call(&mut self, state: &mut LuaState, func_index: usize, sresults: isize) -> (r: Result<
        usize,
        ErrCode,
    >)
        requires
            old(state).wf(),
            old(state).depth() < LUA_MAX_CALLS,
            func_index < old(state).top(),
            sresults >= -1,
        ensures
            final(state).wf(),
            begin_ok(*old(state), func_index as int) ==> {
                &&& old(state).stk()[func_index as int] == DataType::ValRfunc(r->Ok_0)
                &&& r is Ok
                &&& final(state).depth() == old(state).depth() + 1
                &&& final(state).frames()[old(state).depth()] == (CallInfo {
                    stack_func_index: func_index,
                    stack_top_index: (old(state).top() + LUA_MIN_STACK) as usize,
                    nresult: sresults,
                    callstatus: LuaCallInfoStatus::CallOk,
                })
                &&& final(state).live() == old(state).live()
                &&& final(state).top() == old(state).top()
                &&& final(state).status_spec() == old(state).status_spec()
            },
            !begin_ok(*old(state), func_index as int) ==> {
                &&& r is Err
                &&& compose_spec(final(state).status_spec(), final(self).err_status(), r->Err_0)
                    == begin_fail_code(*old(state), func_index as int)
                &&& final(state).status_spec() == begin_fail_status(
                    *old(state),
                    func_index as int,
                )
                &&& final(state).same_stack(*old(state))
                &&& final(state).depth() == old(state).depth()
            },
    {
        let ghost s0 = *state;
        let obj = match state.read(func_index) {
            Some(o) => o,
            None => {
                return Err(ErrCode::NoneObject);
            },
        };
        let label = obj.get_type();
        proof {
            assert(23u8 >> 4u8 == 1u8) by (bit_vector);
        }
        if !TObject::is_function(label) || label >> BASIC_TYPE_BIT != 1 {
            self.cci_status = LuaCallInfoStatus::CallOk;
            state.set_status(LuaStateStatus::LuaErrRun);
            return Err(ErrCode::MisMatch);
        }
        let handle = match obj.to_rfunc() {
            Ok(h) => h,
            Err(e) => {
                return Err(e);
            },
        };
        match state.stack_check(LUA_MIN_STACK) {
            Ok(()) => {},
            Err(e) => {
                self.cci_status = LuaCallInfoStatus::StackOverFlow;
                state.set_status(LuaStateStatus::LuaErrMem);
                return Err(e);
            },
        }
        let ghost s1 = *state;
        let _ = state.add_next_ci(func_index, sresults);
        self.cci_status = LuaCallInfoStatus::CallOk;
        proof {
            assert(s1.live() =~= s0.live()) by {
                assert forall|i: int| 0 <= i < s0.top() implies s1.stk()[i] == s0.stk()[i] by {
                    assert(s1.stk().subrange(0, s0.stk().len() as int)[i] == s1.stk()[i]);
                }
            }
        }
        Ok(handle)
    }

    /// Reconciles `rresults` produced results, the callee having been at
    /// `func_index`, with a request for `sresults`: a fixed request pads the
    /// missing results with nil and drops the rest; -1 keeps them all.
    fn post_call(&self, state: &mut LuaState, func_index: usize, rresults: usize, sresults: isize)
        requires
            old(state).wf(),
            sresults >= -1,
            func_index + results_needed(rresults as int, sresults as int) < old(state).last(),
        ensures
            final(state).wf(),
            final(state).stack_changed(
                *old(state),
                reconciled(old(state).stk(), func_index as int, rresults as int, sresults as int),
                result_top(func_index as int, rresults as int, sresults as int),
            ),
    {
        let ghost s0 = *state;
        if sresults == LUA_MUL_RET {
            state.move_top_to(func_index + rresults);
            proof {
                assert(reconciled(s0.stk(), func_index as int, rresults as int, sresults as int)
                    =~= s0.stk());
            }
        } else {
            let wanted = sresults as usize;
            let mut i = rresults;
            proof {
                assert(reconciled(s0.stk(), func_index as int, rresults as int, i as int)
                    =~= s0.stk());
            }
            while i < wanted
                invariant
                    state.wf(),
                    rresults <= i,
                    i <= wanted || i == rresults,
                    func_index + results_needed(rresults as int, sresults as int) < s0.last(),
                    wanted == sresults,
                    state.stack_changed(
                        s0,
                        reconciled(s0.stk(), func_index as int, rresults as int, i as int),
                        s0.top(),
                    ),
                decreases wanted - i,
            {
                let _ = state.replace(func_index + i, StkElem::new_nil());
                i = i + 1;
                proof {
                    assert(state.stk() =~= reconciled(
                        s0.stk(),
                        func_index as int,
                        rresults as int,
                        i as int,
                    ));
                }
            }
            state.move_top_to(func_index + wanted);
            proof {
                assert(reconciled(s0.stk(), func_index as int, rresults as int, i as int)
                    =~= reconciled(s0.stk(), func_index as int, rresults as int, sresults as int));
            }
        }
    }

    /// Finishes the innermost call after its native function produced
    /// `rresults` results: drops the element the native call path leaves on
    /// top, checks that the results fit the frame's window, reconciles them
    /// with the request and closes the frame.
    fn finish(&mut self, state: &mut LuaState, rresults: usize) -> (r: Result<(), ErrCode>)
        requires
            old(state).wf(),
            old(state).depth() > 0,
        ensures
            final(state).wf(),
            final(state).depth() == old(state).depth() - 1,
            results_fit(*old(state), rresults as int) ==> {
                let f = top_frame(*old(state)).stack_func_index as int;
                let n = top_frame(*old(state)).nresult as int;
                &&& r is Ok
                &&& final(state).stk() == reconciled(after_sentinel(*old(state)), f, rresults as int, n)
                &&& final(state).top() == result_top(f, rresults as int, n)
                &&& final(state).last() == old(state).last()
                &&& final(state).frames() == old(state).frames().update(
                    old(state).depth() - 1,
                    cleared_frame(),
                )
                &&& final(state).status_spec() == old(state).status_spec()
            },
            !results_fit(*old(state), rresults as int) ==> {
                &&& r == Err::<(), ErrCode>(ErrCode::OverFlow)
                &&& final(self).err_status() == LuaCallInfoStatus::StackOverFlow
                &&& final(state).status_spec() == LuaStateStatus::LuaErrErr
                &&& final(state).stk() == after_sentinel(*old(state))
                &&& final(state).top() == top_after_sentinel(*old(state))
                &&& final(state).last() == old(state).last()
            },
    {
        let ghost s0 = *state;
        let fi = state.get_ncalls() - 1;
        let ci = state.get_ci(fi);
        let func_index = ci.stack_func_index;
        let sresults = ci.nresult;
        let _ = state.pop_stack();
        let need = if sresults > 0 && sresults as usize > rresults {
            sresults as usize
        } else {
            rresults
        };
        assert(need == results_needed(rresults as int, sresults as int));
        if !state.cci_check(fi, need) {
            self.cci_status = LuaCallInfoStatus::StackOverFlow;
            state.write_ci_status(fi, LuaCallInfoStatus::StackOverFlow);
            state.set_status(LuaStateStatus::LuaErrErr);
            state.change_ncalls(1, false);
            state.stack_shrink(fi);
            state.civ_shrink(fi);
            return Err(ErrCode::OverFlow);
        }
        proof {
            assert(crate::statedef::frame_ok(s0.frames()[fi as int], s0.last()));
        }
        self.post_call(state, func_index, rresults, sresults);
        state.change_ncalls(1, false);
        state.clear_ci(fi);
        Ok(())
    }
}

/// The runtime: the process-wide data with its main thread, and the call engine.
#[derive(Debug)]
pub struct Machine {
    dynamo: Routine,
    global: GlobalState,
}

impl Machine {
    /// The main thread.
    pub closed spec fn state(&self) -> LuaState {
        self.global.mainthread
    }

    pub open spec fn wf(&self) -> bool {
        self.state().wf()
    }

    /// A runtime with a fresh main thread.
    pub fn machine() -> (r: Machine)
        ensures
            r.wf(),
            r.state().top() == 0,
            r.state().depth() == 0,
            r.state().status_spec() == LuaStateStatus::LuaOk,
    {
        Machine { dynamo: Routine::new(), global: GlobalState::new(0) }
    }

    /// The main thread, for pushing and popping values.
    pub fn get_state(&mut self) -> (r: &mut LuaState)
        ensures
            *r == old(self).state(),
            final(self).state() == *final(r),
    {
        &mut self.global.mainthread
    }

    /// Rewinds the stack to `func_index` and pushes the composite code of error `e`.
    fn unwind(&mut self, func_index: usize, e: ErrCode) -> (r: i32)
        requires
            old(self).wf(),
            func_index < old(self).state().last(),
        ensures
            final(self).wf(),
            r as int == compose_spec(old(self).state().status_spec(), old(self).dynamo.err_status(), e),
            final(self).state().live() == old(self).state().stk().subrange(0, func_index as int).push(
                DataType::ValInt(r),
            ),
            final(self).state().top() == func_index + 1,
            final(self).state().depth() == old(self).state().depth(),
            final(self).state().frames() == old(self).state().frames(),
            final(self).state().status_spec() == old(self).state().status_spec(),
            final(self).dynamo == old(self).dynamo,
    {
        self.global.mainthread.move_top_to(func_index);
        let code = compose_status(self.global.mainthread.get_status(), self.dynamo.cci_status, e);
        let _ = self.global.mainthread.push_errcode(code);
        code
    }

    /// Starts a call of the value at `func_index` asking for `sresults` results
    /// (-1 for all). When the callee is a light native function and there is
    /// depth and stack room, its frame is opened and the host is asked to
    /// invoke it. Otherwise the stack is rewound to `func_index` and the
    /// composite code pushed there.
    pub fn execute_unprotected(&mut self, func_index: usize, sresults: isize) -> (r: CallStep)
        requires
            old(self).wf(),
            func_index < old(self).state().top(),
            sresults >= -1,
        ensures
            final(self).wf(),
            begin_ok(old(self).state(), func_index as int) ==> {
                &&& r is Invoke
                &&& old(self).state().stk()[func_index as int] == DataType::ValRfunc(r->Invoke_0)
                &&& final(self).state().depth() == old(self).state().depth() + 1
                &&& final(self).state().frames()[old(self).state().depth()] == (CallInfo {
                    stack_func_index: func_index,
                    stack_top_index: (old(self).state().top() + LUA_MIN_STACK) as usize,
                    nresult: sresults,
                    callstatus: LuaCallInfoStatus::CallOk,
                })
                &&& final(self).state().live() == old(self).state().live()
            },
            !begin_ok(old(self).state(), func_index as int) ==> {
                &&& r is Done
                &&& r->Done_0 as int == begin_fail_code(old(self).state(), func_index as int)
                &&& final(self).state().live() == old(self).state().live().subrange(
                    0,
                    func_index as int,
                ).push(DataType::ValInt(r->Done_0))
                &&& final(self).state().depth() == old(self).state().depth()
                &&& final(self).state().status_spec() == begin_fail_status(
                    old(self).state(),
                    func_index as int,
                )
            },
    {
        let ghost s0 = self.state();
        let res = self.dynamo.run(&mut self.global.mainthread, func_index, sresults);
        match res {
            Ok(h) => CallStep::Invoke(h),
            Err(e) => {
                let code = self.unwind(func_index, e);
                proof {
                    assert(s0.stk().subrange(0, func_index as int) =~= s0.live().subrange(
                        0,
                        func_index as int,
                    ));
                }
                CallStep::Done(code)
            },
        }
    }

    /// Pops the status that the unprotected path left on top.
    fn take_status(&mut self) -> (r: i32)
        requires
            old(self).wf(),
            old(self).state().top() > 0,
            old(self).state().stk()[old(self).state().top() - 1] is ValInt,
        ensures
            final(self).wf(),
            DataType::ValInt(r) == old(self).state().stk()[old(self).state().top() - 1],
            final(self).state().popped_from(old(self).state()),
    {
        match self.global.mainthread.pop_integer() {
            Ok(c) => c,
            Err(_) => {
                proof {
                    assert(false);
                }
                0
            },
        }
    }

    /// Like `execute_unprotected`, but a call that ends at once leaves its code
    /// consumed: the stack ends at `func_index`, and the code is returned.
    pub fn execute(&mut self, func_index: usize, sresults: isize) -> (r: CallStep)
        requires
            old(self).wf(),
            func_index < old(self).state().top(),
            sresults >= -1,
        ensures
            final(self).wf(),
            begin_ok(old(self).state(), func_index as int) ==> {
                &&& r is Invoke
                &&& old(self).state().stk()[func_index as int] == DataType::ValRfunc(r->Invoke_0)
                &&& final(self).state().depth() == old(self).state().depth() + 1
                &&& final(self).state().frames()[old(self).state().depth()] == (CallInfo {
                    stack_func_index: func_index,
                    stack_top_index: (old(self).state().top() + LUA_MIN_STACK) as usize,
                    nresult: sresults,
                    callstatus: LuaCallInfoStatus::CallOk,
                })
                &&& final(self).state().live() == old(self).state().live()
            },
            !begin_ok(old(self).state(), func_index as int) ==> {
                &&& r is Done
                &&& r->Done_0 as int == begin_fail_code(old(self).state(), func_index as int)
                &&& final(self).state().live() == old(self).state().live().subrange(
                    0,
                    func_index as int,
                )
                &&& final(self).state().top() == func_index
                &&& final(self).state().depth() == old(self).state().depth()
                &&& final(self).state().status_spec() == begin_fail_status(
                    old(self).state(),
                    func_index as int,
                )
            },
    {
        let ghost s0 = self.state();
        match self.execute_unprotected(func_index, sresults) {
            CallStep::Invoke(h) => CallStep::Invoke(h),
            CallStep::Done(c) => {
                let ghost s1 = self.state();
                proof {
                    assert(s1.live().len() == s1.top());
                    assert(s1.live()[s1.top() - 1] == s1.stk()[s1.top() - 1]);
                }
                let code = self.take_status();
                proof {
                    assert(self.state().live() =~= s0.live().subrange(0, func_index as int));
                }
                CallStep::Done(code)
            },
        }
    }

    /// Calls the value that sits below the `narg` arguments on top of the
    /// stack, asking for `sresults` results (-1 for all).
    pub fn call(&mut self, narg: usize, sresults: isize) -> (r: CallStep)
        requires
            old(self).wf(),
            narg < old(self).state().top(),
            sresults >= -1,
        ensures
            final(self).wf(),
            ({
                let f = old(self).state().top() - (narg + 1);
                &&& begin_ok(old(self).state(), f) ==> {
                    &&& r is Invoke
                    &&& old(self).state().stk()[f] == DataType::ValRfunc(r->Invoke_0)
                    &&& final(self).state().depth() == old(self).state().depth() + 1
                    &&& final(self).state().frames()[old(self).state().depth()] == (CallInfo {
                        stack_func_index: f as usize,
                        stack_top_index: (old(self).state().top() + LUA_MIN_STACK) as usize,
                        nresult: sresults,
                        callstatus: LuaCallInfoStatus::CallOk,
                    })
                    &&& final(self).state().live() == old(self).state().live()
                }
                &&& !begin_ok(old(self).state(), f) ==> {
                    &&& r is Done
                    &&& r->Done_0 as int == begin_fail_code(old(self).state(), f)
                    &&& final(self).state().live() == old(self).state().live().subrange(0, f)
                    &&& final(self).state().top() == f
                    &&& final(self).state().depth() == old(self).state().depth()
                }
            }),
    {
        let func_index = self.global.mainthread.get_top_index() - (narg + 1);
        self.execute(func_index, sresults)
    }

    /// Finishes the innermost call after its native function produced
    /// `rresults` results, and pushes its status: 0 on success, or, when the
    /// results overrun the frame's window, the composite code at the callee's
    /// slot with everything above it discarded.
    pub fn resume_unprotected(&mut self, rresults: usize)
        requires
            old(self).wf(),
            old(self).state().depth() > 0,
        ensures
            final(self).wf(),
            final(self).state().depth() == old(self).state().depth() - 1,
            results_fit(old(self).state(), rresults as int) ==> final(self).state().live()
                == resumed_live(old(self).state(), rresults as int).push(DataType::ValInt(0)),
            !results_fit(old(self).state(), rresults as int) ==> {
                &&& final(self).state().live() == rewound_live(old(self).state()).push(
                    DataType::ValInt(results_fail_code() as i32),
                )
                &&& final(self).state().status_spec() == LuaStateStatus::LuaErrErr
            },
    {
        let ghost s0 = self.state();
        let fi = self.global.mainthread.get_ncalls() - 1;
        let func_index = self.global.mainthread.get_ci(fi).stack_func_index;
        proof {
            assert(crate::statedef::frame_ok(s0.frames()[fi as int], s0.last()));
        }
        match self.dynamo.finish(&mut self.global.mainthread, rresults) {
            Ok(()) => {
                let ghost s1 = self.state();
                let _ = self.global.mainthread.push_errcode(0);
                proof {
                    assert(s1.live() =~= resumed_live(s0, rresults as int));
                }
            },
            Err(e) => {
                let ghost s1 = self.state();
                let _ = self.unwind(func_index, e);
                proof {
                    assert(s1.stk().subrange(0, func_index as int) =~= rewound_live(s0));
                }
            },
        }
    }

    /// Like `resume_unprotected`, but the status is consumed and returned: on
    /// success the reconciled results are left on top; on failure the stack
    /// ends at the callee's slot.
    pub fn resume(&mut self, rresults: usize) -> (r: i32)
        requires
            old(self).wf(),
            old(self).state().depth() > 0,
        ensures
            final(self).wf(),
            final(self).state().depth() == old(self).state().depth() - 1,
            results_fit(old(self).state(), rresults as int) ==> r == 0 && final(self).state().live()
                == resumed_live(old(self).state(), rresults as int) && final(self).state().top()
                == result_top(
                top_frame(old(self).state()).stack_func_index as int,
                rresults as int,
                top_frame(old(self).state()).nresult as int,
            ),
            !results_fit(old(self).state(), rresults as int) ==> {
                &&& r as int == results_fail_code()
                &&& final(self).state().live() == rewound_live(old(self).state())
                &&& final(self).state().top() == top_frame(old(self).state()).stack_func_index
                &&& final(self).state().status_spec() == LuaStateStatus::LuaErrErr
            },
    {
        self.resume_unprotected(rresults);
        let ghost s1 = self.state();
        proof {
            assert(s1.live().len() == s1.top());
            assert(s1.live()[s1.top() - 1] == s1.stk()[s1.top() - 1]);
        }
        let code = self.take_status();
        proof {
            assert(self.state().live() =~= s1.live().drop_last());
            assert(self.state().live().len() == self.state().top());
            assert(crate::statedef::frame_ok(top_frame(old(self).state()), old(self).state().last()));
        }
        code
    }
}

/// With a callable callee and room for its frame, a call starts exactly when
/// fewer than `LUA_MAX_CALLS` calls are in progress; at the ceiling it fails
/// with the too-many-calls code, and the depth stays as it was.
pub proof fn depth_ceiling(s: LuaState, f: int)
    requires
        s.wf(),
        0 <= f < s.top(),
        callee_ok(s, f),
        s.top() + LUA_MIN_STACK <= s.last(),
    ensures
        begin_ok(s, f) <==> s.depth() < LUA_MAX_CALLS,
        s.depth() == LUA_MAX_CALLS ==> begin_fail_code(s, f) == compose_spec(
            LuaStateStatus::LuaErrErr,
            LuaCallInfoStatus::TooManyCall,
            ErrCode::OverFlow,
        ),
{
}

/// A call that asked for no results ends with the top at the callee's slot,
/// whatever number of results the callee produced.
pub proof fn zero_results_rewind(s: LuaState, r: int)
    requires
        s.wf(),
        s.depth() > 0,
        top_frame(s).nresult == 0,
        results_fit(s, r),
        r >= 0,
    ensures
        resumed_live(s, r).len() == top_frame(s).stack_func_index,
{
    assert(crate::statedef::frame_ok(top_frame(s), s.last()));
}

/// A call that asked for one result from a callee that produced none ends
/// with nil at the callee's slot, which is then the top value.
pub proof fn single_result_padded(s: LuaState)
    requires
        s.wf(),
        s.depth() > 0,
        top_frame(s).nresult == 1,
        results_fit(s, 0),
    ensures
        resumed_live(s, 0) == after_sentinel(s).subrange(
            0,
            top_frame(s).stack_func_index as int,
        ).push(DataType::ValNil),
{
    let f = top_frame(s).stack_func_index as int;
    assert(crate::statedef::frame_ok(top_frame(s), s.last()));
    assert(resumed_live(s, 0) =~= after_sentinel(s).subrange(0, f).push(DataType::ValNil));
}

/// A call whose results overrun its frame's window fails with the overflow
/// code and leaves nothing above the callee's slot.
pub proof fn overflow_rollback(s: LuaState, r: int)
    requires
        s.wf(),
        s.depth() > 0,
        !results_fit(s, r),
    ensures
        rewound_live(s).len() == top_frame(s).stack_func_index,
        results_fail_code() == 3 * 256 + 2 * 16 + 1,
{
    assert(crate::statedef::frame_ok(top_frame(s), s.last()));
}

} // verus!
