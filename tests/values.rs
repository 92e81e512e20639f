use luavm::lua::{
    compose_status, ErrCode, LuaCallInfoStatus, LuaStateStatus,
};
use luavm::objdef::{DataType, LuaTObject, TFuction, TNumber, TObject, TString};
use luavm::objtrait::ObjectTrait;
use luavm::objtype::{Bool, Integer, Nil, Number, RFunction, UserData};

#[test]
fn kind_and_variant_codes() {
    assert_eq!(TObject::TNumber.code(), 1);
    assert_eq!(TObject::TFunction.code(), 7);
    assert_eq!(TObject::TNone.code(), 9);
    assert_eq!(TNumber::NumInt.code(), 1);
    assert_eq!(TNumber::NumFlt.code(), 17);
    assert_eq!(TFuction::TLCL.code(), 7);
    assert_eq!(TFuction::TLRF.code(), 23);
    assert_eq!(TFuction::TCCL.code(), 39);
    assert_eq!(TString::LngStr.code(), 4);
    assert_eq!(TString::ShrStr.code(), 20);
}

#[test]
fn function_tag_ignores_variant_bits() {
    assert!(TObject::is_function(7));
    assert!(TObject::is_function(23));
    assert!(TObject::is_function(39));
    assert!(!TObject::is_function(1));
    assert!(!TObject::is_function(17));
    assert!(!TObject::is_function(3));
    assert!(!TObject::is_function(15));
}

#[test]
fn value_tags_follow_payload() {
    assert_eq!(LuaTObject::new_integer(5).get_type(), 1);
    assert_eq!(LuaTObject::new_float(1.5f32.to_bits()).get_type(), 17);
    assert_eq!(LuaTObject::new_bool(true).get_type(), 3);
    assert_eq!(LuaTObject::new_nil().get_type(), 5);
    assert_eq!(LuaTObject::new_ud(64).get_type(), 2);
    assert_eq!(LuaTObject::new_rfunc(3).get_type(), 23);
    let mut v = LuaTObject::new_integer(9);
    v.set_bool(false);
    assert_eq!(v.get_value(), DataType::ValBl(false));
    v.set_nil();
    assert_eq!(v.get_value(), DataType::ValNil);
    let w = LuaTObject::new_obj(LuaTObject::new_ud(12));
    assert_eq!(w.get_value(), DataType::ValUd(12));
}

#[test]
fn typed_reads_check_the_tag() {
    let i = LuaTObject::new_integer(-4);
    assert_eq!(i.to_integer(), Ok(-4));
    assert_eq!(i.to_bool(), Err(ErrCode::MisMatch));
    let f = LuaTObject::new_float(2.25f32.to_bits());
    assert_eq!(f.to_float().map(f32::from_bits), Ok(2.25f32));
    assert_eq!(f.to_integer(), Err(ErrCode::MisMatch));
    assert_eq!(LuaTObject::new_rfunc(8).to_rfunc(), Ok(8));
    assert_eq!(LuaTObject::new_nil().to_ud(), Err(ErrCode::MisMatch));
}

#[test]
fn composite_code_packs_three_fields() {
    assert_eq!(
        compose_status(LuaStateStatus::LuaErrErr, LuaCallInfoStatus::TooManyCall, ErrCode::OverFlow),
        (3 << 8) | (1 << 4) | 1
    );
    assert_eq!(
        compose_status(LuaStateStatus::LuaErrErr, LuaCallInfoStatus::StackOverFlow, ErrCode::OverFlow),
        801
    );
    assert_eq!(
        compose_status(LuaStateStatus::LuaErrRun, LuaCallInfoStatus::CallOk, ErrCode::MisMatch),
        1027
    );
    assert_eq!(compose_status(LuaStateStatus::LuaOk, LuaCallInfoStatus::CallOk, ErrCode::Fine), 0);
}

#[test]
fn defaults_are_ok() {
    assert_eq!(LuaStateStatus::default(), LuaStateStatus::LuaOk);
    assert_eq!(LuaCallInfoStatus::default(), LuaCallInfoStatus::CallOk);
}

#[test]
fn cells_hold_and_hand_out() {
    let mut b = Bool::new(Some(true));
    assert!(b.is_some());
    assert_eq!(b.reveal_type(), 3);
    assert_eq!(b.into_inner(), Some(true));
    assert!(b.is_none());
    let mut i = Integer::new(None);
    assert!(i.is_none());
    i.set_value(Some(7));
    assert_eq!(i.into_inner(), Some(7));
    assert_eq!(i.reveal_type(), 1);
    let mut n = Number::new(Some(0.5f32.to_bits()));
    assert_eq!(n.reveal_type(), 17);
    assert_eq!(n.into_inner().map(f32::from_bits), Some(0.5));
    let mut u = UserData::new(Some(99));
    assert_eq!(u.reveal_type(), 2);
    assert_eq!(u.into_inner(), Some(99));
    let mut r = RFunction::new(Some(4));
    assert_eq!(r.reveal_type(), 23);
    assert_eq!(r.into_inner(), Some(4));
    let mut nil = Nil::new(None);
    assert!(nil.is_none());
    assert!(!nil.is_some());
    assert_eq!(nil.reveal_type(), 5);
    assert_eq!(nil.into_inner(), Some(()));
}
