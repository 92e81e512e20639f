use luavm::lua::{ErrCode, LUA_MAX_STACK};
use luavm::objdef::{DataType, LuaTObject};
use luavm::statedef::LuaState;

#[test]
fn push_then_pop_is_last_in_first_out() {
    let mut st = LuaState::mainthread_new();
    st.push_integer(1).unwrap();
    st.push_float(3.5f32.to_bits()).unwrap();
    st.push_bool(true).unwrap();
    st.push_nil().unwrap();
    st.push_ud(Some(77)).unwrap();
    st.push_ud(None).unwrap();
    st.push_rfunc(5).unwrap();
    st.push_obj(LuaTObject::new_integer(-8)).unwrap();
    assert_eq!(st.get_top_index(), 8);
    assert_eq!(st.pop_integer(), Ok(-8));
    assert_eq!(st.pop_stack().map(|e| e.get_value()), Ok(DataType::ValRfunc(5)));
    assert_eq!(st.pop_ud(), Ok(0));
    assert_eq!(st.pop_ud(), Ok(77));
    assert_eq!(st.pop_nil(), Ok(()));
    assert_eq!(st.pop_bool(), Ok(true));
    assert_eq!(st.pop_float().map(f32::from_bits), Ok(3.5));
    assert_eq!(st.pop_integer(), Ok(1));
    assert_eq!(st.get_top_index(), 0);
}

#[test]
fn pop_of_wrong_type_changes_nothing() {
    let mut st = LuaState::mainthread_new();
    st.push_bool(false).unwrap();
    assert_eq!(st.pop_integer(), Err(ErrCode::MisMatch));
    assert_eq!(st.get_top_index(), 1);
    assert_eq!(st.pop_bool(), Ok(false));
}

#[test]
fn pop_of_empty_stack_fails() {
    let mut st = LuaState::mainthread_new();
    assert_eq!(st.pop_stack().map(|e| e.get_value()), Err(ErrCode::NoneObject));
    assert_eq!(st.pop_integer(), Err(ErrCode::NoneObject));
    assert_eq!(st.get_top_index(), 0);
}

#[test]
fn pushed_slot_clears_on_pop() {
    let mut st = LuaState::mainthread_new();
    st.push_integer(42).unwrap();
    assert_eq!(st.read(0).map(|e| e.get_value()), Some(DataType::ValInt(42)));
    st.pop_stack().unwrap();
    assert_eq!(st.read(0).map(|e| e.get_value()), Some(DataType::ValNil));
}

#[test]
fn stack_grows_until_the_ceiling_then_overflows() {
    let mut st = LuaState::mainthread_new();
    // 40 -> 80 -> ... -> 10240 slots; the next doubling would pass the ceiling.
    let mut pushed: usize = 0;
    while st.push_integer(pushed as i32).is_ok() {
        pushed += 1;
        assert!(st.read(LUA_MAX_STACK).is_none());
    }
    assert_eq!(pushed, 10240 - 5);
    assert_eq!(st.get_top_index(), 10235);
    assert_eq!(st.push_bool(true), Err(ErrCode::OverFlow));
    assert_eq!(st.get_top_index(), 10235);
    assert!(st.read(10239).is_some());
    assert!(st.read(10240).is_none());
    assert_eq!(st.pop_integer(), Ok(10234));
}

#[test]
fn reserve_grows_by_need_plus_headroom() {
    let mut st = LuaState::mainthread_new();
    assert_eq!(st.stack_check(10), Ok(()));
    assert!(st.read(39).is_some());
    assert!(st.read(40).is_none());
    assert_eq!(st.stack_check(100), Ok(()));
    assert!(st.read(144).is_some());
    assert!(st.read(145).is_none());
    assert_eq!(st.stack_check(20000), Err(ErrCode::OverFlow));
    assert!(st.read(145).is_none());
}

#[test]
fn replace_returns_the_old_value() {
    let mut st = LuaState::mainthread_new();
    st.push_integer(3).unwrap();
    let old = st.replace(0, LuaTObject::new_bool(true)).unwrap();
    assert_eq!(old.get_value(), DataType::ValInt(3));
    assert_eq!(st.pop_bool(), Ok(true));
    assert!(st.replace(40, LuaTObject::new_nil()).is_err());
}

#[test]
fn move_top_steps_both_ways() {
    let mut st = LuaState::mainthread_new();
    st.move_top(4, true);
    assert_eq!(st.get_top_index(), 4);
    st.move_top(3, false);
    assert_eq!(st.get_top_index(), 1);
    st.move_top_to(0);
    assert_eq!(st.get_top_index(), 0);
}

#[test]
fn global_state_keeps_user_data_and_a_fresh_main_thread() {
    let g = luavm::statedef::GlobalState::new(31);
    assert_eq!(g.get_userdata(), 31);
    assert_eq!(g.mainthread.get_top_index(), 0);
    assert_eq!(g.mainthread.get_ncalls(), 0);
}
