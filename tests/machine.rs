use luavm::lua::{compose_status, ErrCode, LuaCallInfoStatus, LuaStateStatus, LUA_MAX_CALLS};
use luavm::machdef::{CallStep, Machine};
use luavm::objdef::DataType;
use luavm::statedef::LuaState;

fn value_at(st: &LuaState, index: usize) -> DataType {
    st.read(index).unwrap().get_value()
}

/// The native function of the demo: pops a boolean then an integer, produces nothing.
fn pop_bool_then_int(st: &mut LuaState) -> (usize, Result<bool, ErrCode>, Result<i32, ErrCode>) {
    let b = st.pop_bool();
    let i = st.pop_integer();
    (0, b, i)
}

#[test]
fn end_to_end_native_call() {
    let mut m = Machine::machine();
    let st = m.get_state();
    st.push_rfunc(0).unwrap();
    st.push_integer(2).unwrap();
    st.push_bool(true).unwrap();
    let step = m.call(2, 0);
    assert_eq!(step, CallStep::Invoke(0));
    assert_eq!(m.get_state().get_ncalls(), 1);
    let (rresults, b, i) = pop_bool_then_int(m.get_state());
    assert_eq!(b, Ok(true));
    assert_eq!(i, Ok(2));
    m.resume_unprotected(rresults);
    let st = m.get_state();
    assert_eq!(st.get_top_index(), 1);
    assert_eq!(value_at(st, 0), DataType::ValInt(0));
    assert_eq!(st.pop_integer(), Ok(0));
    assert_eq!(st.get_top_index(), 0);
    assert_eq!(st.get_ncalls(), 0);
    assert_eq!(st.get_status(), LuaStateStatus::LuaOk);
}

#[test]
fn end_to_end_through_resume() {
    let mut m = Machine::machine();
    let st = m.get_state();
    st.push_rfunc(0).unwrap();
    st.push_integer(2).unwrap();
    st.push_bool(true).unwrap();
    match m.call(2, 0) {
        CallStep::Invoke(h) => {
            assert_eq!(h, 0);
            let (rresults, b, i) = pop_bool_then_int(m.get_state());
            assert_eq!((b, i), (Ok(true), Ok(2)));
            assert_eq!(m.resume(rresults), 0);
        },
        CallStep::Done(c) => panic!("call ended early with {}", c),
    }
    assert_eq!(m.get_state().get_top_index(), 0);
}

#[test]
fn depth_ceiling_holds_and_does_not_leak() {
    let mut m = Machine::machine();
    for level in 0..LUA_MAX_CALLS {
        m.get_state().push_rfunc(level).unwrap();
        assert_eq!(m.call(0, 0), CallStep::Invoke(level));
    }
    assert_eq!(m.get_state().get_ncalls(), LUA_MAX_CALLS);
    m.get_state().push_rfunc(999).unwrap();
    let top_before = m.get_state().get_top_index();
    let expected =
        compose_status(LuaStateStatus::LuaErrErr, LuaCallInfoStatus::TooManyCall, ErrCode::OverFlow);
    assert_eq!(m.call(0, 0), CallStep::Done(expected));
    assert_eq!(expected & 0xF, 1);
    assert_eq!((expected >> 4) & 0xF, 1);
    assert_eq!(expected >> 8, 3);
    assert_eq!(m.get_state().get_ncalls(), LUA_MAX_CALLS);
    assert_eq!(m.get_state().get_top_index(), top_before - 1);
    for _ in 0..LUA_MAX_CALLS {
        assert_eq!(m.resume(0), 0);
    }
    assert_eq!(m.get_state().get_ncalls(), 0);
    assert_eq!(m.get_state().get_top_index(), 0);
}

#[test]
fn results_overrunning_the_window_roll_back() {
    let mut m = Machine::machine();
    let st = m.get_state();
    st.push_integer(10).unwrap();
    st.push_rfunc(1).unwrap();
    st.push_integer(5).unwrap();
    assert_eq!(m.call(1, 1), CallStep::Invoke(1));
    let st = m.get_state();
    for k in 0..30 {
        st.push_integer(k).unwrap();
    }
    // the window ends 20 slots above the top at the call, at slot 23: 22 results from slot 1 overrun it
    let code = m.resume(22);
    assert_eq!(
        code,
        compose_status(LuaStateStatus::LuaErrErr, LuaCallInfoStatus::StackOverFlow, ErrCode::OverFlow)
    );
    assert_eq!(code, 801);
    let st = m.get_state();
    assert_eq!(st.get_top_index(), 1);
    assert_eq!(st.get_ncalls(), 0);
    assert_eq!(st.get_status(), LuaStateStatus::LuaErrErr);
    assert_eq!(st.get_ci_status(0), LuaCallInfoStatus::StackOverFlow);
    assert_eq!(value_at(st, 0), DataType::ValInt(10));
}

#[test]
fn results_filling_the_window_are_accepted() {
    let mut m = Machine::machine();
    m.get_state().push_rfunc(1).unwrap();
    assert_eq!(m.call(0, -1), CallStep::Invoke(1));
    let st = m.get_state();
    for k in 0..20 {
        st.push_integer(k).unwrap();
    }
    st.push_nil().unwrap();
    assert_eq!(m.resume(20), 0);
    assert_eq!(m.get_state().get_top_index(), 20);
}

#[test]
fn zero_requested_results_discard_everything() {
    let mut m = Machine::machine();
    let st = m.get_state();
    st.push_bool(true).unwrap();
    st.push_rfunc(2).unwrap();
    assert_eq!(m.call(0, 0), CallStep::Invoke(2));
    let st = m.get_state();
    st.replace(1, luavm::objdef::LuaTObject::new_integer(7)).unwrap();
    st.push_integer(8).unwrap();
    st.push_integer(9).unwrap();
    st.push_nil().unwrap();
    assert_eq!(m.resume(3), 0);
    assert_eq!(m.get_state().get_top_index(), 1);
    assert_eq!(value_at(m.get_state(), 0), DataType::ValBl(true));
}

#[test]
fn one_requested_result_from_none_is_nil() {
    let mut m = Machine::machine();
    let st = m.get_state();
    st.push_integer(4).unwrap();
    st.push_rfunc(3).unwrap();
    st.push_integer(6).unwrap();
    assert_eq!(m.call(1, 1), CallStep::Invoke(3));
    assert_eq!(m.get_state().pop_integer(), Ok(6));
    assert_eq!(m.resume(0), 0);
    let st = m.get_state();
    assert_eq!(st.get_top_index(), 2);
    assert_eq!(value_at(st, 1), DataType::ValNil);
    assert_eq!(value_at(st, 0), DataType::ValInt(4));
}

#[test]
fn one_requested_result_keeps_the_first() {
    let mut m = Machine::machine();
    m.get_state().push_rfunc(3).unwrap();
    assert_eq!(m.call(0, 1), CallStep::Invoke(3));
    let st = m.get_state();
    st.replace(0, luavm::objdef::LuaTObject::new_integer(11)).unwrap();
    st.push_integer(12).unwrap();
    st.push_nil().unwrap();
    assert_eq!(m.resume(2), 0);
    let st = m.get_state();
    assert_eq!(st.get_top_index(), 1);
    assert_eq!(st.pop_integer(), Ok(11));
}

#[test]
fn all_results_are_kept_on_request() {
    let mut m = Machine::machine();
    m.get_state().push_rfunc(4).unwrap();
    assert_eq!(m.call(0, -1), CallStep::Invoke(4));
    let st = m.get_state();
    st.replace(0, luavm::objdef::LuaTObject::new_integer(1)).unwrap();
    st.push_integer(2).unwrap();
    st.push_integer(3).unwrap();
    st.push_nil().unwrap();
    assert_eq!(m.resume(3), 0);
    let st = m.get_state();
    assert_eq!(st.get_top_index(), 3);
    assert_eq!(st.pop_integer(), Ok(3));
    assert_eq!(st.pop_integer(), Ok(2));
    assert_eq!(st.pop_integer(), Ok(1));
}

#[test]
fn fixed_request_pads_with_nil() {
    let mut m = Machine::machine();
    m.get_state().push_rfunc(4).unwrap();
    assert_eq!(m.call(0, 3), CallStep::Invoke(4));
    let st = m.get_state();
    st.replace(0, luavm::objdef::LuaTObject::new_bool(false)).unwrap();
    st.push_nil().unwrap();
    assert_eq!(m.resume(1), 0);
    let st = m.get_state();
    assert_eq!(st.get_top_index(), 3);
    assert_eq!(value_at(st, 0), DataType::ValBl(false));
    assert_eq!(value_at(st, 1), DataType::ValNil);
    assert_eq!(value_at(st, 2), DataType::ValNil);
}

#[test]
fn calling_a_non_function_fails_recoverably() {
    let mut m = Machine::machine();
    let st = m.get_state();
    st.push_integer(1).unwrap();
    st.push_integer(2).unwrap();
    let expected =
        compose_status(LuaStateStatus::LuaErrRun, LuaCallInfoStatus::CallOk, ErrCode::MisMatch);
    assert_eq!(m.call(0, 0), CallStep::Done(expected));
    assert_eq!(expected, 1027);
    let st = m.get_state();
    assert_eq!(st.get_top_index(), 1);
    assert_eq!(st.get_ncalls(), 0);
    assert_eq!(st.get_status(), LuaStateStatus::LuaErrRun);
}

#[test]
fn unprotected_failure_leaves_the_code_on_the_stack() {
    let mut m = Machine::machine();
    let st = m.get_state();
    st.push_nil().unwrap();
    st.push_bool(true).unwrap();
    let step = m.execute_unprotected(0, 0);
    assert_eq!(step, CallStep::Done(1027));
    let st = m.get_state();
    assert_eq!(st.get_top_index(), 1);
    assert_eq!(value_at(st, 0), DataType::ValInt(1027));
}

#[test]
fn execute_by_slot_matches_call() {
    let mut m = Machine::machine();
    let st = m.get_state();
    st.push_rfunc(6).unwrap();
    st.push_integer(1).unwrap();
    assert_eq!(m.execute(0, 0), CallStep::Invoke(6));
    assert_eq!(m.get_state().pop_integer(), Ok(1));
    assert_eq!(m.resume(0), 0);
    assert_eq!(m.get_state().get_top_index(), 0);
}

#[test]
fn no_room_for_a_frame_fails_with_memory_status() {
    let mut m = Machine::machine();
    let st = m.get_state();
    while st.push_integer(0).is_ok() {}
    let top = st.get_top_index();
    assert_eq!(top, 10235);
    st.replace(top - 1, luavm::objdef::LuaTObject::new_rfunc(1)).unwrap();
    let expected =
        compose_status(LuaStateStatus::LuaErrMem, LuaCallInfoStatus::StackOverFlow, ErrCode::OverFlow);
    assert_eq!(expected, 802);
    assert_eq!(m.call(0, 0), CallStep::Done(expected));
    let st = m.get_state();
    assert_eq!(st.get_top_index(), top - 1);
    assert_eq!(st.get_ncalls(), 0);
    assert_eq!(st.get_status(), LuaStateStatus::LuaErrMem);
}

#[test]
fn nested_call_results_reach_the_outer_frame() {
    let mut m = Machine::machine();
    m.get_state().push_rfunc(1).unwrap();
    assert_eq!(m.call(0, -1), CallStep::Invoke(1));
    // the outer native calls another one, asking for every result
    let st = m.get_state();
    st.push_rfunc(2).unwrap();
    st.push_integer(40).unwrap();
    assert_eq!(m.call(1, -1), CallStep::Invoke(2));
    assert_eq!(m.get_state().get_ncalls(), 2);
    let st = m.get_state();
    let arg = st.pop_integer().unwrap();
    st.replace(1, luavm::objdef::LuaTObject::new_integer(arg + 2)).unwrap();
    st.push_nil().unwrap();
    assert_eq!(m.resume(1), 0);
    let st = m.get_state();
    assert_eq!(st.get_top_index(), 2);
    assert_eq!(value_at(st, 1), DataType::ValInt(42));
    // the outer native hands that result on as its own
    let v = st.pop_integer().unwrap();
    st.replace(0, luavm::objdef::LuaTObject::new_integer(v)).unwrap();
    st.push_nil().unwrap();
    assert_eq!(m.resume(1), 0);
    let st = m.get_state();
    assert_eq!(st.get_top_index(), 1);
    assert_eq!(st.pop_integer(), Ok(42));
    assert_eq!(st.get_ncalls(), 0);
}
