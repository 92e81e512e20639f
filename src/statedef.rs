use vstd::prelude::*;

use crate::lua::{
    ErrCode, LuaCallInfoStatus, LuaStateStatus, LUA_CI_LEN, LUA_EXTRA_STACK, LUA_MAX_CALLS,
    LUA_MAX_STACK, LUA_MIN_STACK, LUA_STACK_SIZE,
};
use crate::objdef::{DataType, TObj};

verus! {

/// Sentinel index of a cleared call frame.
pub const ILLEGAL_INDEX: usize = usize::MAX;

pub type StkElem = TObj;

/// `n` nil values.
pub open spec fn nils(n: nat) -> Seq<DataType> {
    Seq::new(n, |_i: int| DataType::ValNil)
}

/// How many slots the value stack adds when `need` more are wanted: the larger
/// of doubling and the exact need plus the headroom.
pub open spec fn grow_amount(len: int, need: int) -> int {
    if len >= need + LUA_EXTRA_STACK {
        len
    } else {
        need + LUA_EXTRA_STACK
    }
}

/// Whether growing the value stack by `grow_amount` stays under the ceiling.
pub open spec fn can_grow(len: int, need: int) -> bool {
    len + grow_amount(len, need) <= LUA_MAX_STACK
}

/// The value stack: a growable array of tagged values, addressed by index.
#[derive(Debug)]
pub struct Stack(Vec<StkElem>);

impl View for Stack {
    type V = Seq<DataType>;

    closed spec fn view(&self) -> Seq<DataType> {
        self.0@.map_values(|e: StkElem| e@)
    }
}

impl Stack {
    /// A stack of `length` nil values, with room reserved for `capacity`;
    /// `None` when `length > capacity`.
    fn new(capacity: usize, length: usize) -> (r: Option<Stack>)
        ensures
            r is None <==> length > capacity,
            r is Some ==> r->0@ == nils(length as nat),
    {
        if length > capacity {
            return None;
        }
        let mut stk = Stack(Vec::with_capacity(capacity));
        stk.push_nils(length);
        proof {
            assert(stk@ =~= nils(length as nat));
        }
        Some(stk)
    }

    fn push_nils(&mut self, count: usize)
        ensures
            final(self)@ =~= old(self)@ + nils(count as nat),
    {
        let ghost start = self.0@;
        let mut i: usize = 0;
        while i < count
            invariant
                i <= count,
                self.0@.len() == start.len() + i,
                forall|j: int| 0 <= j < start.len() ==> #[trigger] self.0@[j] == start[j],
                forall|j: int|
                    start.len() <= j < self.0@.len() ==> (#[trigger] self.0@[j])@ == DataType::ValNil,
            decreases count - i,
        {
            self.0.push(StkElem::new_nil());
            i = i + 1;
        }
        assert forall|j: int| 0 <= j < self@.len() implies #[trigger] self@[j] == (old(self)@
            + nils(count as nat))[j] by {
            if j < start.len() {
                assert(self.0@[j] == start[j]);
            }
        }
    }

    pub fn get_ref_elem(&self, index: usize) -> (r: Option<&StkElem>)
        ensures
            index < self@.len() ==> r is Some && r->0@ == self@[index as int],
            index >= self@.len() ==> r is None,
    {
        if index < self.0.len() {
            Some(&self.0[index])
        } else {
            None
        }
    }

    pub fn get_elem(&self, index: usize) -> (r: Option<StkElem>)
        ensures
            index < self@.len() ==> r is Some && r->0@ == self@[index as int],
            index >= self@.len() ==> r is None,
    {
        if index < self.0.len() {
            Some(self.0[index])
        } else {
            None
        }
    }

    /// Exchanges the element at `index` with `new_stkelem`.
    pub fn swap_elem(&mut self, index: usize, new_stkelem: &mut StkElem) -> (r: Result<
        ErrCode,
        ErrCode,
    >)
        ensures
            index < old(self)@.len() ==> r == Ok::<ErrCode, ErrCode>(ErrCode::Fine)
                && final(self)@ == old(self)@.update(index as int, old(new_stkelem)@)
                && final(new_stkelem)@ == old(self)@[index as int],
            index >= old(self)@.len() ==> r == Err::<ErrCode, ErrCode>(ErrCode::NoneObject)
                && *final(self) == *old(self) && *final(new_stkelem) == *old(new_stkelem),
    {
        if index < self.0.len() {
            let prev = self.0[index];
            self.0.set(index, *new_stkelem);
            *new_stkelem = prev;
            proof {
                assert(self@ =~= old(self)@.update(index as int, old(new_stkelem)@));
            }
            Ok(ErrCode::Fine)
        } else {
            Err(ErrCode::NoneObject)
        }
    }

    /// Grows the stack so that `need` more slots fit; returns how many were added.
    fn increase(&mut self, need: usize) -> (r: Result<usize, ErrCode>)
        requires
            old(self)@.len() <= LUA_MAX_STACK,
        ensures
            can_grow(old(self)@.len() as int, need as int) ==> r == Ok::<usize, ErrCode>(
                grow_amount(old(self)@.len() as int, need as int) as usize,
            ) && final(self)@ == old(self)@ + nils(
                grow_amount(old(self)@.len() as int, need as int) as nat,
            ),
            !can_grow(old(self)@.len() as int, need as int) ==> r == Err::<usize, ErrCode>(
                ErrCode::OverFlow,
            ) && *final(self) == *old(self),
    {
        let old_alloc = self.0.len();
        if need > LUA_MAX_STACK {
            return Err(ErrCode::OverFlow);
        }
        let mut to_add = old_alloc;
        let to_add2 = need + LUA_EXTRA_STACK;
        if to_add < to_add2 {
            to_add = to_add2;
        }
        if old_alloc + to_add > LUA_MAX_STACK {
            return Err(ErrCode::OverFlow);
        }
        self.push_nils(to_add);
        Ok(to_add)
    }

    /// Releasing storage is left to the allocator: the backing array is kept.
    fn decrease(&mut self, _starting_pos: usize)
        ensures
            *final(self) == *old(self),
    {
    }
}

/// A call-frame record.
#[derive(Debug, Clone, Copy, PartialEq, Eq, Structural)]
pub struct CallInfo {
    /// Stack slot of the callee.
    pub stack_func_index: usize,
    /// End (exclusive) of the stack window reserved for the frame.
    pub stack_top_index: usize,
    /// Number of results the caller asked for; -1 asks for all of them.
    pub nresult: isize,
    pub callstatus: LuaCallInfoStatus,
}

/// The record of a cleared frame slot.
pub open spec fn cleared_frame() -> CallInfo {
    CallInfo {
        stack_func_index: ILLEGAL_INDEX,
        stack_top_index: ILLEGAL_INDEX,
        nresult: 0,
        callstatus: LuaCallInfoStatus::CallOk,
    }
}

/// `n` cleared frame records.
pub open spec fn cleared_frames(n: nat) -> Seq<CallInfo> {
    Seq::new(n, |_i: int| cleared_frame())
}

/// A live frame's callee slot lies below its window's end, which lies within
/// the usable stack, and it asks for a result count of -1 or more.
pub open spec fn frame_ok(ci: CallInfo, last: int) -> bool {
    &&& ci.stack_func_index < ci.stack_top_index
    &&& ci.stack_top_index <= last
    &&& ci.nresult >= -1
}

/// Whether the `size` values from a frame's callee slot up fit below its window's end.
pub open spec fn fits_spec(ci: CallInfo, size: int) -> bool {
    ci.stack_func_index + size < ci.stack_top_index
}

/// How long the frame array becomes when `need` more frames are wanted at
/// depth `top`: doubling, clamped to the ceiling, once half of it is in use or
/// the need does not fit.
pub open spec fn frames_grown_len(len: int, top: int, need: int) -> int {
    if top * 2 > len || top + need > len {
        let add = if len >= need {
            len
        } else {
            need
        };
        if len + add > LUA_MAX_CALLS {
            LUA_MAX_CALLS as int
        } else {
            len + add
        }
    } else {
        len
    }
}

impl Default for CallInfo {
    fn default() -> (r: Self)
        ensures
            r == cleared_frame(),
    {
        CallInfo {
            stack_func_index: ILLEGAL_INDEX,
            stack_top_index: ILLEGAL_INDEX,
            nresult: 0,
            callstatus: LuaCallInfoStatus::CallOk,
        }
    }
}

impl CallInfo {
    fn new(
        stack_func_index: usize,
        stack_top_index: usize,
        nres: isize,
        status: LuaCallInfoStatus,
    ) -> (r: Self)
        ensures
            r == (CallInfo {
                stack_func_index,
                stack_top_index,
                nresult: nres,
                callstatus: status,
            }),
    {
        CallInfo { stack_func_index, stack_top_index, nresult: nres, callstatus: status }
    }

    /// Whether `size` values from the callee slot up fit inside the frame's window.
    pub fn ci_check(&self, size: usize) -> (r: bool)
        ensures
            r == fits_spec(*self, size as int),
    {
        if self.stack_func_index >= self.stack_top_index {
            false
        } else {
            size < self.stack_top_index - self.stack_func_index
        }
    }
}

/// The call-frame array: a growable array of frame records, addressed by depth.
#[derive(Debug)]
pub struct CallInfoVec(Vec<CallInfo>);

impl View for CallInfoVec {
    type V = Seq<CallInfo>;

    closed spec fn view(&self) -> Seq<CallInfo> {
        self.0@
    }
}

impl CallInfoVec {
    /// An array of `length` cleared frames, with room reserved for `capacity`;
    /// `None` when `length > capacity`.
    fn new(capacity: usize, length: usize) -> (r: Option<CallInfoVec>)
        ensures
            r is None <==> length > capacity,
            r is Some ==> r->0@ == cleared_frames(length as nat),
    {
        if length > capacity {
            return None;
        }
        let mut civ = CallInfoVec(Vec::with_capacity(capacity));
        civ.push_cleared(length);
        proof {
            assert(civ@ =~= cleared_frames(length as nat));
        }
        Some(civ)
    }

    fn push_cleared(&mut self, count: usize)
        ensures
            final(self)@ =~= old(self)@ + cleared_frames(count as nat),
    {
        let ghost start = self@;
        let mut i: usize = 0;
        while i < count
            invariant
                i <= count,
                self@ =~= start + cleared_frames(i as nat),
            decreases count - i,
        {
            self.0.push(CallInfo::default());
            i = i + 1;
            assert(self@ =~= start + cleared_frames(i as nat));
        }
    }

    /// Exchanges the record at `index` with `new_ci`.
    pub fn swap_elem(&mut self, index: usize, new_ci: &mut CallInfo) -> (r: Result<
        ErrCode,
        ErrCode,
    >)
        ensures
            index < old(self)@.len() ==> r == Ok::<ErrCode, ErrCode>(ErrCode::Fine)
                && final(self)@ == old(self)@.update(index as int, *old(new_ci))
                && *final(new_ci) == old(self)@[index as int],
            index >= old(self)@.len() ==> r == Err::<ErrCode, ErrCode>(ErrCode::NoneObject)
                && final(self)@ == old(self)@ && *final(new_ci) == *old(new_ci),
    {
        if index < self.0.len() {
            let prev = self.0[index];
            self.0.set(index, *new_ci);
            *new_ci = prev;
            Ok(ErrCode::Fine)
        } else {
            Err(ErrCode::NoneObject)
        }
    }

    /// Makes room for `need` more frames above depth `civ_top_index`.
    fn increase(&mut self, civ_top_index: usize, need: usize) -> (r: Result<ErrCode, ErrCode>)
        requires
            old(self)@.len() <= LUA_MAX_CALLS,
        ensures
            civ_top_index + need <= LUA_MAX_CALLS ==> r == Ok::<ErrCode, ErrCode>(ErrCode::Fine)
                && final(self)@ == old(self)@ + cleared_frames(
                (frames_grown_len(old(self)@.len() as int, civ_top_index as int, need as int)
                    - old(self)@.len()) as nat,
            ),
            civ_top_index + need > LUA_MAX_CALLS ==> r == Err::<ErrCode, ErrCode>(
                ErrCode::OverFlow,
            ) && final(self)@ == old(self)@,
    {
        let old_alloc = self.0.len();
        if civ_top_index > LUA_MAX_CALLS || need > LUA_MAX_CALLS - civ_top_index {
            return Err(ErrCode::OverFlow);
        }
        if civ_top_index * 2 > old_alloc || civ_top_index + need > old_alloc {
            let mut to_add = old_alloc;
            if to_add < need {
                to_add = need;
            }
            if old_alloc + to_add > LUA_MAX_CALLS {
                to_add = LUA_MAX_CALLS - old_alloc;
            }
            self.push_cleared(to_add);
        } else {
            assert(cleared_frames(0) =~= Seq::<CallInfo>::empty());
            assert(old(self)@ + cleared_frames(0) =~= old(self)@);
        }
        Ok(ErrCode::Fine)
    }

    /// Releasing storage is left to the allocator: the backing array is kept.
    fn decrease(&mut self, _starting_pos: usize)
        ensures
            *final(self) == *old(self),
    {
    }

    pub fn get_ref_elem(&self, index: usize) -> (r: Option<&CallInfo>)
        ensures
            index < self@.len() ==> r == Some(&self@[index as int]),
            index >= self@.len() ==> r is None,
    {
        if index < self.0.len() {
            Some(&self.0[index])
        } else {
            None
        }
    }
}

/// A thread: its value stack, its call-frame array, and its status.
#[derive(Debug)]
pub struct LuaState {
    stack: Stack,
    stack_last_index: usize,
    stack_top_index: usize,
    stack_size: usize,
    civ: CallInfoVec,
    ncalls: usize,
    status: LuaStateStatus,
}

/// The process-wide runtime data: the main thread and the user data shared by
/// every thread.
#[derive(Debug)]
pub struct GlobalState {
    pub mainthread: LuaState,
    pub userdata: usize,
}

impl GlobalState {
    pub fn new(userdata: usize) -> (r: GlobalState)
        ensures
            r.mainthread.wf(),
            r.mainthread.top() == 0,
            r.mainthread.depth() == 0,
            r.mainthread.status_spec() == LuaStateStatus::LuaOk,
            r.userdata == userdata,
    {
        GlobalState { mainthread: LuaState::mainthread_new(), userdata }
    }

    pub fn get_userdata(&self) -> (r: usize)
        ensures
            r == self.userdata,
    {
        self.userdata
    }
}

impl LuaState {
    /// The whole allocated value stack.
    pub closed spec fn stk(&self) -> Seq<DataType> {
        self.stack@
    }

    /// Index of the first free slot.
    pub closed spec fn top(&self) -> int {
        self.stack_top_index as int
    }

    /// Last usable slot index: the allocated length less the headroom.
    pub closed spec fn last(&self) -> int {
        self.stack_last_index as int
    }

    /// Number of calls in progress.
    pub closed spec fn depth(&self) -> int {
        self.ncalls as int
    }

    pub closed spec fn frames(&self) -> Seq<CallInfo> {
        self.civ@
    }

    pub closed spec fn status_spec(&self) -> LuaStateStatus {
        self.status
    }

    pub closed spec fn inv(&self) -> bool {
        self.stack_size == self.stack@.len()
    }

    /// The values that are on the stack: the slots below the top.
    pub open spec fn live(&self) -> Seq<DataType> {
        self.stk().subrange(0, self.top())
    }

    pub open spec fn wf(&self) -> bool {
        &&& self.inv()
        &&& 0 <= self.top() <= self.last()
        &&& self.last() + LUA_EXTRA_STACK == self.stk().len()
        &&& LUA_STACK_SIZE <= self.stk().len() <= LUA_MAX_STACK
        &&& 0 <= self.depth() <= self.frames().len() <= LUA_MAX_CALLS
        &&& forall|i: int| 0 <= i < self.depth() ==> frame_ok(#[trigger] self.frames()[i], self.last())
    }

    /// `self` is `prev` with the value stack alone changed to `stk`, and the top to `top`.
    pub open spec fn stack_changed(&self, prev: LuaState, stk: Seq<DataType>, top: int) -> bool {
        &&& self.stk() == stk
        &&& self.top() == top
        &&& self.last() == prev.last()
        &&& self.depth() == prev.depth()
        &&& self.frames() == prev.frames()
        &&& self.status_spec() == prev.status_spec()
    }

    /// `self` has the value stack, top and last usable index of `prev`.
    pub open spec fn same_stack(&self, prev: LuaState) -> bool {
        &&& self.stk() == prev.stk()
        &&& self.top() == prev.top()
        &&& self.last() == prev.last()
    }

    /// `self` is `prev` after its top value was taken off and its slot cleared.
    pub open spec fn popped_from(&self, prev: LuaState) -> bool {
        &&& prev.top() > 0
        &&& self.stack_changed(prev, prev.stk().update(prev.top() - 1, DataType::ValNil), prev.top() - 1)
        &&& self.live() == prev.live().drop_last()
    }

    /// Whether one more value can be pushed: there is a free usable slot, or the
    /// stack can grow.
    pub open spec fn push_fits(&self) -> bool {
        self.top() < self.last() || can_grow(self.stk().len() as int, 1)
    }

    /// `self` is `prev` after `v` was pushed.
    pub open spec fn pushed_from(&self, prev: LuaState, v: DataType) -> bool {
        &&& self.live() == prev.live().push(v)
        &&& self.top() == prev.top() + 1
        &&& self.last() >= prev.last()
        &&& self.depth() == prev.depth()
        &&& self.frames() == prev.frames()
        &&& self.status_spec() == prev.status_spec()
        &&& prev.top() < prev.last() ==> self.stk() == prev.stk().update(prev.top(), v)
    }

    /// A fresh main thread: an empty stack of the initial size, a frame array
    /// of the initial length, no call in progress, status ok.
    pub fn mainthread_new() -> (r: LuaState)
        ensures
            r.wf(),
            r.stk() == nils(LUA_STACK_SIZE as nat),
            r.top() == 0,
            r.last() == LUA_STACK_SIZE - LUA_EXTRA_STACK,
            r.depth() == 0,
            r.frames() == cleared_frames(LUA_CI_LEN as nat),
            r.status_spec() == LuaStateStatus::LuaOk,
    {
        let stack = match Stack::new(LUA_MAX_STACK, LUA_STACK_SIZE) {
            Some(s) => s,
            None => { proof { assert(false); } Stack(Vec::new()) },
        };
        let civ = match CallInfoVec::new(LUA_MAX_CALLS, LUA_CI_LEN) {
            Some(c) => c,
            None => { proof { assert(false); } CallInfoVec(Vec::new()) },
        };
        LuaState {
            stack,
            stack_last_index: LUA_STACK_SIZE - LUA_EXTRA_STACK,
            stack_top_index: 0,
            stack_size: LUA_STACK_SIZE,
            civ,
            ncalls: 0,
            status: LuaStateStatus::LuaOk,
        }
    }

    pub fn set_status(&mut self, status: LuaStateStatus)
        requires
            old(self).wf(),
        ensures
            final(self).wf(),
            final(self).status_spec() == status,
            final(self).same_stack(*old(self)),
            final(self).depth() == old(self).depth(),
            final(self).frames() == old(self).frames(),
    {
        self.status = status;
    }

    pub fn get_status(&self) -> (r: LuaStateStatus)
        ensures
            r == self.status_spec(),
    {
        self.status
    }

    pub fn get_top_index(&self) -> (r: usize)
        ensures
            r == self.top(),
    {
        self.stack_top_index
    }

    pub fn get_ncalls(&self) -> (r: usize)
        ensures
            r == self.depth(),
    {
        self.ncalls
    }

    /// Moves the call depth by `step`, up when `direction` holds, else down.
    pub fn change_ncalls(&mut self, step: usize, direction: bool)
        requires
            old(self).wf(),
            direction ==> old(self).depth() + step <= old(self).frames().len(),
            direction ==> forall|i: int|
                old(self).depth() <= i < old(self).depth() + step ==> frame_ok(
                    #[trigger] old(self).frames()[i],
                    old(self).last(),
                ),
            !direction ==> step <= old(self).depth(),
        ensures
            final(self).wf(),
            final(self).depth() == if direction {
                old(self).depth() + step
            } else {
                old(self).depth() - step
            },
            final(self).frames() == old(self).frames(),
            final(self).stk() == old(self).stk(),
            final(self).top() == old(self).top(),
            final(self).last() == old(self).last(),
            final(self).status_spec() == old(self).status_spec(),
    {
        if direction {
            self.ncalls = self.ncalls + step;
        } else {
            self.ncalls = self.ncalls - step;
        }
    }

    pub fn write_ci_status(&mut self, ci_index: usize, status: LuaCallInfoStatus)
        requires
            old(self).wf(),
            ci_index < old(self).frames().len(),
        ensures
            final(self).wf(),
            final(self).frames() == old(self).frames().update(
                ci_index as int,
                (CallInfo { callstatus: status, ..old(self).frames()[ci_index as int] }),
            ),
            final(self).same_stack(*old(self)),
            final(self).depth() == old(self).depth(),
            final(self).status_spec() == old(self).status_spec(),
    {
        let mut ci = CallInfo::default();
        let _ = self.civ.swap_elem(ci_index, &mut ci);
        ci.callstatus = status;
        let _ = self.civ.swap_elem(ci_index, &mut ci);
        proof {
            assert(self.civ@ =~= old(self).frames().update(
                ci_index as int,
                (CallInfo { callstatus: status, ..old(self).frames()[ci_index as int] }),
            ));
            assert forall|i: int| 0 <= i < self.depth() implies frame_ok(
                #[trigger] self.frames()[i],
                self.last(),
            ) by {
                assert(frame_ok(old(self).frames()[i], old(self).last()));
            }
        }
    }

    pub fn get_ci_status(&self, ci_index: usize) -> (r: LuaCallInfoStatus)
        requires
            ci_index < self.frames().len(),
        ensures
            r == self.frames()[ci_index as int].callstatus,
    {
        self.civ.get_ref_elem(ci_index).unwrap().callstatus
    }

    /// A copy of the frame record at `ci_index`.
    pub fn get_ci(&self, ci_index: usize) -> (r: CallInfo)
        requires
            ci_index < self.frames().len(),
        ensures
            r == self.frames()[ci_index as int],
    {
        *self.civ.get_ref_elem(ci_index).unwrap()
    }

    /// The value at stack slot `index`, if that slot is allocated.
    pub fn read(&self, index: usize) -> (r: Option<StkElem>)
        requires
            self.wf(),
        ensures
            index < self.stk().len() ==> r is Some && r->0@ == self.stk()[index as int],
            index >= self.stk().len() ==> r is None,
    {
        self.stack.get_elem(index)
    }

    /// Writes `elem` at stack slot `index` and returns the value it replaced.
    pub fn replace(&mut self, index: usize, elem: StkElem) -> (r: Result<StkElem, ErrCode>)
        requires
            old(self).wf(),
        ensures
            final(self).wf(),
            index < old(self).stk().len() ==> r is Ok && r->Ok_0@ == old(self).stk()[index as int]
                && final(self).stack_changed(
                *old(self),
                old(self).stk().update(index as int, elem@),
                old(self).top(),
            ),
            index >= old(self).stk().len() ==> r == Err::<StkElem, ErrCode>(ErrCode::NoneObject)
                && *final(self) == *old(self),
    {
        let mut e = elem;
        match self.stack.swap_elem(index, &mut e) {
            Ok(_) => Ok(e),
            Err(x) => Err(x),
        }
    }

    /// Grows the value stack by `size` slots or more, keeping the headroom.
    fn stack_increase(&mut self, size: usize) -> (r: Result<(), ErrCode>)
        requires
            old(self).wf(),
        ensures
            final(self).wf(),
            can_grow(old(self).stk().len() as int, size as int) ==> r is Ok
                && final(self).stk() == old(self).stk() + nils(
                grow_amount(old(self).stk().len() as int, size as int) as nat,
            ) && final(self).last() == final(self).stk().len() - LUA_EXTRA_STACK
                && final(self).top() == old(self).top() && final(self).depth()
                == old(self).depth() && final(self).frames() == old(self).frames()
                && final(self).status_spec() == old(self).status_spec(),
            !can_grow(old(self).stk().len() as int, size as int) ==> r == Err::<(), ErrCode>(
                ErrCode::OverFlow,
            ) && *final(self) == *old(self),
    {
        match self.stack.increase(size) {
            Ok(size_add) => {
                self.stack_size = self.stack_size + size_add;
                self.stack_last_index = self.stack_size - LUA_EXTRA_STACK;
                proof {
                    assert forall|i: int| 0 <= i < self.depth() implies frame_ok(
                        #[trigger] self.frames()[i],
                        self.last(),
                    ) by {
                        assert(frame_ok(old(self).frames()[i], old(self).last()));
                    }
                }
                Ok(())
            },
            Err(e) => Err(e),
        }
    }

    /// Makes sure `need` slots are usable above the top, growing the stack if
    /// they are not.
    pub fn stack_check(&mut self, need: usize) -> (r: Result<(), ErrCode>)
        requires
            old(self).wf(),
        ensures
            final(self).wf(),
            old(self).top() + need <= old(self).last() ==> r is Ok && *final(self) == *old(self),
            old(self).top() + need > old(self).last() ==> (r is Ok <==> can_grow(
                old(self).stk().len() as int,
                need as int,
            )),
            r is Ok ==> final(self).top() + need <= final(self).last(),
            r is Ok ==> final(self).stk().subrange(0, old(self).stk().len() as int)
                == old(self).stk() && final(self).stk().len() >= old(self).stk().len()
                && final(self).top() == old(self).top() && final(self).last() >= old(self).last()
                && final(self).depth() == old(self).depth() && final(self).frames()
                == old(self).frames() && final(self).status_spec() == old(self).status_spec(),
            r is Err ==> r == Err::<(), ErrCode>(ErrCode::OverFlow) && *final(self) == *old(self),
    {
        if need > self.stack_last_index - self.stack_top_index {
            let r = self.stack_increase(need);
            proof {
                if r is Ok {
                    assert(self.stk().subrange(0, old(self).stk().len() as int) =~= old(
                        self,
                    ).stk());
                }
            }
            r
        } else {
            Ok(())
        }
    }

    /// Whether one more call may start.
    pub fn calls_check(&self) -> (r: bool)
        ensures
            r == (self.depth() < LUA_MAX_CALLS),
    {
        !(self.ncalls >= LUA_MAX_CALLS)
    }

    /// Clears the stack window of a frame slot that is no longer live.
    pub fn stack_shrink(&mut self, ci_index: usize)
        requires
            old(self).wf(),
            old(self).depth() <= ci_index < old(self).frames().len(),
        ensures
            final(self).wf(),
            final(self).frames() == old(self).frames().update(
                ci_index as int,
                (CallInfo {
                    stack_func_index: ILLEGAL_INDEX,
                    stack_top_index: ILLEGAL_INDEX,
                    ..old(self).frames()[ci_index as int]
                }),
            ),
            final(self).same_stack(*old(self)),
            final(self).depth() == old(self).depth(),
            final(self).status_spec() == old(self).status_spec(),
    {
        let mut ci = CallInfo::default();
        let _ = self.civ.swap_elem(ci_index, &mut ci);
        self.stack.decrease(ci.stack_func_index);
        ci.stack_top_index = ILLEGAL_INDEX;
        ci.stack_func_index = ILLEGAL_INDEX;
        let _ = self.civ.swap_elem(ci_index, &mut ci);
        proof {
            assert(self.civ@ =~= old(self).frames().update(
                ci_index as int,
                (CallInfo {
                    stack_func_index: ILLEGAL_INDEX,
                    stack_top_index: ILLEGAL_INDEX,
                    ..old(self).frames()[ci_index as int]
                }),
            ));
            assert forall|i: int| 0 <= i < self.depth() implies frame_ok(
                #[trigger] self.frames()[i],
                self.last(),
            ) by {
                assert(frame_ok(old(self).frames()[i], old(self).last()));
            }
        }
    }

    /// Clears a frame slot that is no longer live, back to the cleared record.
    pub fn clear_ci(&mut self, ci_index: usize)
        requires
            old(self).wf(),
            old(self).depth() <= ci_index < old(self).frames().len(),
        ensures
            final(self).wf(),
            final(self).frames() == old(self).frames().update(ci_index as int, cleared_frame()),
            final(self).same_stack(*old(self)),
            final(self).depth() == old(self).depth(),
            final(self).status_spec() == old(self).status_spec(),
    {
        let mut ci = CallInfo::default();
        let _ = self.civ.swap_elem(ci_index, &mut ci);
        proof {
            assert forall|i: int| 0 <= i < self.depth() implies frame_ok(
                #[trigger] self.frames()[i],
                self.last(),
            ) by {
                assert(frame_ok(old(self).frames()[i], old(self).last()));
            }
        }
    }

    /// Opens the frame of a call whose callee sits at `func_index`: its window
    /// reaches `LUA_MIN_STACK` slots above the current top. Returns the frame's
    /// slot, the depth before the call.
    pub fn add_next_ci(&mut self, func_index: usize, nresult: isize) -> (r: usize)
        requires
            old(self).wf(),
            old(self).depth() < LUA_MAX_CALLS,
            func_index < old(self).top(),
            old(self).top() + LUA_MIN_STACK <= old(self).last(),
            nresult >= -1,
        ensures
            final(self).wf(),
            r == old(self).depth(),
            final(self).depth() == old(self).depth() + 1,
            final(self).frames().len() == frames_grown_len(
                old(self).frames().len() as int,
                old(self).depth(),
                1,
            ),
            final(self).frames()[r as int] == (CallInfo {
                stack_func_index: func_index,
                stack_top_index: (old(self).top() + LUA_MIN_STACK) as usize,
                nresult,
                callstatus: LuaCallInfoStatus::CallOk,
            }),
            forall|i: int|
                0 <= i < old(self).frames().len() && i != r ==> #[trigger] final(self).frames()[i]
                    == old(self).frames()[i],
            final(self).same_stack(*old(self)),
            final(self).status_spec() == old(self).status_spec(),
    {
        let _ = self.civ.increase(self.ncalls, 1);
        let mut ci = CallInfo::new(
            func_index,
            self.stack_top_index + LUA_MIN_STACK,
            nresult,
            LuaCallInfoStatus::CallOk,
        );
        let _ = self.civ.swap_elem(self.ncalls, &mut ci);
        self.ncalls = self.ncalls + 1;
        proof {
            assert forall|i: int| 0 <= i < self.depth() implies frame_ok(
                #[trigger] self.frames()[i],
                self.last(),
            ) by {
                if i < old(self).depth() {
                    assert(frame_ok(old(self).frames()[i], old(self).last()));
                }
            }
        }
        self.ncalls - 1
    }

    /// Whether `size` values from the callee slot of frame `index` up fit in its window.
    pub fn cci_check(&self, index: usize, size: usize) -> (r: bool)
        requires
            index < self.frames().len(),
        ensures
            r == fits_spec(self.frames()[index as int], size as int),
    {
        self.civ.get_ref_elem(index).unwrap().ci_check(size)
    }

    /// Releasing frame storage is left to the allocator: the array is kept.
    pub fn civ_shrink(&mut self, ci_index: usize)
        ensures
            *final(self) == *old(self),
    {
        self.civ.decrease(ci_index);
    }

    pub fn move_top_to(&mut self, index: usize)
        requires
            old(self).wf(),
            index <= old(self).last(),
        ensures
            final(self).wf(),
            final(self).stack_changed(*old(self), old(self).stk(), index as int),
    {
        self.stack_top_index = index;
    }

    /// Moves the top by `step`, up when `direction` holds, else down.
    pub fn move_top(&mut self, step: usize, direction: bool)
        requires
            old(self).wf(),
            direction ==> old(self).top() + step <= old(self).last(),
            !direction ==> step <= old(self).top(),
        ensures
            final(self).wf(),
            final(self).stack_changed(
                *old(self),
                old(self).stk(),
                if direction {
                    old(self).top() + step
                } else {
                    old(self).top() - step
                },
            ),
    {
        if direction {
            self.stack_top_index = self.stack_top_index + step;
        } else {
            self.stack_top_index = self.stack_top_index - step;
        }
    }

    fn increase_top(&mut self)
        requires
            old(self).wf(),
            old(self).top() < old(self).last(),
        ensures
            final(self).wf(),
            final(self).stack_changed(*old(self), old(self).stk(), old(self).top() + 1),
    {
        self.move_top(1, true);
    }

    /// Pushes `elem` on top of the stack, growing the stack if no usable slot is
    /// free; fails with `OverFlow`, changing nothing, when the stack cannot grow.
    pub fn push_obj(&mut self, elem: StkElem) -> (r: Result<(), ErrCode>)
        requires
            old(self).wf(),
        ensures
            final(self).wf(),
            final(self).stk().len() <= LUA_MAX_STACK,
            r is Ok <==> old(self).push_fits(),
            r is Ok ==> final(self).pushed_from(*old(self), elem@),
            r is Err ==> r == Err::<(), ErrCode>(ErrCode::OverFlow) && *final(self) == *old(self),
    {
        let ghost s0 = *self;
        match self.stack_check(1) {
            Ok(()) => {},
            Err(e) => {
                return Err(e);
            },
        }
        let ghost s1 = *self;
        let mut e = elem;
        let _ = self.stack.swap_elem(self.stack_top_index, &mut e);
        self.increase_top();
        proof {
            assert(self.stk() == s1.stk().update(s1.top(), elem@));
            assert(self.live() =~= s0.live().push(elem@)) by {
                assert(s1.stk().subrange(0, s0.stk().len() as int) == s0.stk());
                assert forall|i: int| 0 <= i < s0.top() implies s1.stk()[i] == s0.stk()[i] by {
                    assert(s1.stk().subrange(0, s0.stk().len() as int)[i] == s1.stk()[i]);
                }
            }
            if s0.top() < s0.last() {
                assert(s1 == s0);
            }
        }
        Ok(())
    }

    pub fn push_integer(&mut self, integer: i32) -> (r: Result<(), ErrCode>)
        requires
            old(self).wf(),
        ensures
            final(self).wf(),
            final(self).stk().len() <= LUA_MAX_STACK,
            r is Ok <==> old(self).push_fits(),
            r is Ok ==> final(self).pushed_from(*old(self), DataType::ValInt(integer)),
            r is Err ==> r == Err::<(), ErrCode>(ErrCode::OverFlow) && *final(self) == *old(self),
    {
        self.push_obj(StkElem::new_integer(integer))
    }

    /// Pushes a float given by its IEEE-754 bit pattern.
    pub fn push_float(&mut self, bits: u32) -> (r: Result<(), ErrCode>)
        requires
            old(self).wf(),
        ensures
            final(self).wf(),
            final(self).stk().len() <= LUA_MAX_STACK,
            r is Ok <==> old(self).push_fits(),
            r is Ok ==> final(self).pushed_from(*old(self), DataType::ValNum(bits)),
            r is Err ==> r == Err::<(), ErrCode>(ErrCode::OverFlow) && *final(self) == *old(self),
    {
        self.push_obj(StkElem::new_float(bits))
    }

    pub fn push_bool(&mut self, boolean: bool) -> (r: Result<(), ErrCode>)
        requires
            old(self).wf(),
        ensures
            final(self).wf(),
            final(self).stk().len() <= LUA_MAX_STACK,
            r is Ok <==> old(self).push_fits(),
            r is Ok ==> final(self).pushed_from(*old(self), DataType::ValBl(boolean)),
            r is Err ==> r == Err::<(), ErrCode>(ErrCode::OverFlow) && *final(self) == *old(self),
    {
        self.push_obj(StkElem::new_bool(boolean))
    }

    pub fn push_nil(&mut self) -> (r: Result<(), ErrCode>)
        requires
            old(self).wf(),
        ensures
            final(self).wf(),
            final(self).stk().len() <= LUA_MAX_STACK,
            r is Ok <==> old(self).push_fits(),
            r is Ok ==> final(self).pushed_from(*old(self), DataType::ValNil),
            r is Err ==> r == Err::<(), ErrCode>(ErrCode::OverFlow) && *final(self) == *old(self),
    {
        self.push_obj(StkElem::new_nil())
    }

    /// Pushes light user data; an absent address is pushed as address 0.
    pub fn push_ud(&mut self, ud: Option<usize>) -> (r: Result<(), ErrCode>)
        requires
            old(self).wf(),
        ensures
            final(self).wf(),
            final(self).stk().len() <= LUA_MAX_STACK,
            r is Ok <==> old(self).push_fits(),
            r is Ok ==> final(self).pushed_from(
                *old(self),
                DataType::ValUd(
                    match ud {
                        Some(a) => a,
                        None => 0,
                    },
                ),
            ),
            r is Err ==> r == Err::<(), ErrCode>(ErrCode::OverFlow) && *final(self) == *old(self),
    {
        match ud {
            Some(a) => self.push_obj(StkElem::new_ud(a)),
            None => self.push_obj(StkElem::new_ud(0)),
        }
    }

    /// Pushes a light native function, given by its host handle.
    pub fn push_rfunc(&mut self, rfunc: usize) -> (r: Result<(), ErrCode>)
        requires
            old(self).wf(),
        ensures
            final(self).wf(),
            final(self).stk().len() <= LUA_MAX_STACK,
            r is Ok <==> old(self).push_fits(),
            r is Ok ==> final(self).pushed_from(*old(self), DataType::ValRfunc(rfunc)),
            r is Err ==> r == Err::<(), ErrCode>(ErrCode::OverFlow) && *final(self) == *old(self),
    {
        self.push_obj(StkElem::new_rfunc(rfunc))
    }

    pub fn push_errcode(&mut self, statecode: i32) -> (r: Result<(), ErrCode>)
        requires
            old(self).wf(),
        ensures
            final(self).wf(),
            final(self).stk().len() <= LUA_MAX_STACK,
            r is Ok <==> old(self).push_fits(),
            r is Ok ==> final(self).pushed_from(*old(self), DataType::ValInt(statecode)),
            r is Err ==> r == Err::<(), ErrCode>(ErrCode::OverFlow) && *final(self) == *old(self),
    {
        self.push_integer(statecode)
    }

    /// Takes the top value off the stack, clearing its slot; fails with
    /// `NoneObject` on an empty stack.
    pub fn pop_stack(&mut self) -> (r: Result<StkElem, ErrCode>)
        requires
            old(self).wf(),
        ensures
            final(self).wf(),
            old(self).top() == 0 ==> r == Err::<StkElem, ErrCode>(ErrCode::NoneObject)
                && *final(self) == *old(self),
            old(self).top() > 0 ==> r is Ok && r->Ok_0@ == old(self).stk()[old(self).top() - 1]
                && r->Ok_0@ == old(self).live().last() && final(self).popped_from(*old(self)),
    {
        if self.stack_top_index == 0 {
            return Err(ErrCode::NoneObject);
        }
        let mut elem = StkElem::default();
        let _ = self.stack.swap_elem(self.stack_top_index - 1, &mut elem);
        self.move_top(1, false);
        proof {
            assert(self.live() =~= old(self).live().drop_last());
            assert(old(self).live().last() == old(self).stk()[old(self).top() - 1]);
        }
        Ok(elem)
    }

    /// The top value, when the stack is not empty.
    fn peek(&self) -> (r: Option<StkElem>)
        requires
            self.wf(),
        ensures
            self.top() == 0 ==> r is None,
            self.top() > 0 ==> r is Some && r->0@ == self.live().last(),
    {
        if self.stack_top_index == 0 {
            None
        } else {
            proof {
                assert(self.live().len() == self.top());
                assert(self.live().last() == self.stk()[self.top() - 1]);
            }
            self.stack.get_elem(self.stack_top_index - 1)
        }
    }

    /// Pops an integer; fails with `NoneObject` on an empty stack and with
    /// `MisMatch` when the top value is not an integer, changing nothing.
    pub fn pop_integer(&mut self) -> (r: Result<i32, ErrCode>)
        requires
            old(self).wf(),
        ensures
            final(self).wf(),
            old(self).top() == 0 ==> r == Err::<i32, ErrCode>(ErrCode::NoneObject)
                && *final(self) == *old(self),
            old(self).top() > 0 ==> match old(self).live().last() {
                DataType::ValInt(i) => r == Ok::<i32, ErrCode>(i) && final(self).popped_from(
                    *old(self),
                ),
                _ => r == Err::<i32, ErrCode>(ErrCode::MisMatch) && *final(self) == *old(self),
            },
    {
        match self.peek() {
            None => Err(ErrCode::NoneObject),
            Some(e) => match e.to_integer() {
                Ok(i) => {
                    let _ = self.pop_stack();
                    Ok(i)
                },
                Err(x) => Err(x),
            },
        }
    }

    /// Pops a float's bit pattern; fails with `NoneObject` on an empty stack and
    /// with `MisMatch` when the top value is not a float, changing nothing.
    pub fn pop_float(&mut self) -> (r: Result<u32, ErrCode>)
        requires
            old(self).wf(),
        ensures
            final(self).wf(),
            old(self).top() == 0 ==> r == Err::<u32, ErrCode>(ErrCode::NoneObject)
                && *final(self) == *old(self),
            old(self).top() > 0 ==> match old(self).live().last() {
                DataType::ValNum(b) => r == Ok::<u32, ErrCode>(b) && final(self).popped_from(
                    *old(self),
                ),
                _ => r == Err::<u32, ErrCode>(ErrCode::MisMatch) && *final(self) == *old(self),
            },
    {
        match self.peek() {
            None => Err(ErrCode::NoneObject),
            Some(e) => match e.to_float() {
                Ok(b) => {
                    let _ = self.pop_stack();
                    Ok(b)
                },
                Err(x) => Err(x),
            },
        }
    }

    /// Pops a boolean; fails with `NoneObject` on an empty stack and with
    /// `MisMatch` when the top value is not a boolean, changing nothing.
    pub fn pop_bool(&mut self) -> (r: Result<bool, ErrCode>)
        requires
            old(self).wf(),
        ensures
            final(self).wf(),
            old(self).top() == 0 ==> r == Err::<bool, ErrCode>(ErrCode::NoneObject)
                && *final(self) == *old(self),
            old(self).top() > 0 ==> match old(self).live().last() {
                DataType::ValBl(b) => r == Ok::<bool, ErrCode>(b) && final(self).popped_from(
                    *old(self),
                ),
                _ => r == Err::<bool, ErrCode>(ErrCode::MisMatch) && *final(self) == *old(self),
            },
    {
        match self.peek() {
            None => Err(ErrCode::NoneObject),
            Some(e) => match e.to_bool() {
                Ok(b) => {
                    let _ = self.pop_stack();
                    Ok(b)
                },
                Err(x) => Err(x),
            },
        }
    }

    /// Pops a nil; fails with `NoneObject` on an empty stack and with
    /// `MisMatch` when the top value is not nil, changing nothing.
    pub fn pop_nil(&mut self) -> (r: Result<(), ErrCode>)
        requires
            old(self).wf(),
        ensures
            final(self).wf(),
            old(self).top() == 0 ==> r == Err::<(), ErrCode>(ErrCode::NoneObject)
                && *final(self) == *old(self),
            old(self).top() > 0 ==> match old(self).live().last() {
                DataType::ValNil => r == Ok::<(), ErrCode>(()) && final(self).popped_from(
                    *old(self),
                ),
                _ => r == Err::<(), ErrCode>(ErrCode::MisMatch) && *final(self) == *old(self),
            },
    {
        match self.peek() {
            None => Err(ErrCode::NoneObject),
            Some(e) => match e.get_value() {
                DataType::ValNil => {
                    let _ = self.pop_stack();
                    Ok(())
                },
                _ => Err(ErrCode::MisMatch),
            },
        }
    }

    /// Pops a light user-data address; fails with `NoneObject` on an empty stack
    /// and with `MisMatch` when the top value is not light user data, changing
    /// nothing.
    pub fn pop_ud(&mut self) -> (r: Result<usize, ErrCode>)
        requires
            old(self).wf(),
        ensures
            final(self).wf(),
            old(self).top() == 0 ==> r == Err::<usize, ErrCode>(ErrCode::NoneObject)
                && *final(self) == *old(self),
            old(self).top() > 0 ==> match old(self).live().last() {
                DataType::ValUd(u) => r == Ok::<usize, ErrCode>(u) && final(self).popped_from(
                    *old(self),
                ),
                _ => r == Err::<usize, ErrCode>(ErrCode::MisMatch) && *final(self) == *old(self),
            },
    {
        match self.peek() {
            None => Err(ErrCode::NoneObject),
            Some(e) => match e.to_ud() {
                Ok(u) => {
                    let _ = self.pop_stack();
                    Ok(u)
                },
                Err(x) => Err(x),
            },
        }
    }
}

/// The values on the stack after each of `vs` was pushed, in order, on `live`.
pub open spec fn pushed_all(live: Seq<DataType>, vs: Seq<DataType>) -> Seq<DataType>
    decreases vs.len(),
{
    if vs.len() == 0 {
        live
    } else {
        pushed_all(live, vs.drop_last()).push(vs.last())
    }
}

/// The values that `n` pops take off `live`, in the order they come.
pub open spec fn popped_values(live: Seq<DataType>, n: nat) -> Seq<DataType>
    decreases n,
{
    if n == 0 || live.len() == 0 {
        Seq::empty()
    } else {
        seq![live.last()] + popped_values(live.drop_last(), (n - 1) as nat)
    }
}

/// The values left on the stack after `n` pops from `live`.
pub open spec fn popped_rest(live: Seq<DataType>, n: nat) -> Seq<DataType>
    decreases n,
{
    if n == 0 || live.len() == 0 {
        live
    } else {
        popped_rest(live.drop_last(), (n - 1) as nat)
    }
}

/// `vs` back to front.
pub open spec fn reversed(vs: Seq<DataType>) -> Seq<DataType>
    decreases vs.len(),
{
    if vs.len() == 0 {
        Seq::empty()
    } else {
        seq![vs.last()] + reversed(vs.drop_last())
    }
}

/// Pushing `v1, ..., vn` and then popping `n` times yields `vn, ..., v1`, and
/// leaves the stack as it was before the pushes.
pub proof fn lifo_round_trip(live: Seq<DataType>, vs: Seq<DataType>)
    ensures
        popped_values(pushed_all(live, vs), vs.len()) == reversed(vs),
        popped_rest(pushed_all(live, vs), vs.len()) == live,
        pushed_all(live, vs) == live + vs,
    decreases vs.len(),
{
    if vs.len() > 0 {
        let rest = vs.drop_last();
        lifo_round_trip(live, rest);
        let p = pushed_all(live, rest);
        assert(p.push(vs.last()).drop_last() =~= p);
        assert(live + vs =~= (live + rest).push(vs.last()));
    }
}

} // verus!
