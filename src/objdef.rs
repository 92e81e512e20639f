use vstd::prelude::*;

use crate::lua::ErrCode;

verus! {

/// Basic kinds of a value; the kind is the low nibble of a type tag.
#[derive(Debug, Clone, Copy, PartialEq, Eq, Structural)]
pub enum TObject {
    TNumber,
    TLightUserData,
    TBoolean,
    TString,
    TNil,
    TTable,
    TFunction,
    TThread,
    TNone,
}

/// Number of bits of a tag that hold the basic kind.
pub const BASIC_TYPE_BIT: u8 = 4;

pub open spec fn kind_code(k: TObject) -> u8 {
    match k {
        TObject::TNumber => 1,
        TObject::TLightUserData => 2,
        TObject::TBoolean => 3,
        TObject::TString => 4,
        TObject::TNil => 5,
        TObject::TTable => 6,
        TObject::TFunction => 7,
        TObject::TThread => 8,
        TObject::TNone => 9,
    }
}

/// A tag is function-typed when its basic-kind nibble is the function kind,
/// whatever its variant bits say.
pub open spec fn is_function_tag(label: u8) -> bool {
    label % 16 == 7
}

impl TObject {
    pub fn code(&self) -> (r: u8)
        ensures
            r == kind_code(*self),
    {
        match self {
            TObject::TNumber => 1,
            TObject::TLightUserData => 2,
            TObject::TBoolean => 3,
            TObject::TString => 4,
            TObject::TNil => 5,
            TObject::TTable => 6,
            TObject::TFunction => 7,
            TObject::TThread => 8,
            TObject::TNone => 9,
        }
    }

    pub fn is_function(label: u8) -> (r: bool)
        ensures
            r == is_function_tag(label),
    {
        proof {
            assert(label & 15u8 == label % 16) by (bit_vector);
        }
        label & 15u8 == 7u8
    }
}

/// Number variants: the kind `TNumber` with variant 0 (integer) or 1 (float).
#[derive(Debug, Clone, Copy, PartialEq, Eq, Structural)]
pub enum TNumber {
    NumInt,
    NumFlt,
}

impl TNumber {
    pub fn code(&self) -> (r: u8)
        ensures
            r == match *self {
                TNumber::NumInt => 1u8,
                TNumber::NumFlt => 17u8,
            },
    {
        match self {
            TNumber::NumInt => 1,
            TNumber::NumFlt => 17,
        }
    }
}

/// Function variants: script closure, light native function, native closure.
#[derive(Debug, Clone, Copy, PartialEq, Eq, Structural)]
pub enum TFuction {
    TLCL,
    TLRF,
    TCCL,
}

impl TFuction {
    pub fn code(&self) -> (r: u8)
        ensures
            r == match *self {
                TFuction::TLCL => 7u8,
                TFuction::TLRF => 23u8,
                TFuction::TCCL => 39u8,
            },
    {
        match self {
            TFuction::TLCL => 7,
            TFuction::TLRF => 23,
            TFuction::TCCL => 39,
        }
    }
}

/// String variants: long and short strings.
#[derive(Debug, Clone, Copy, PartialEq, Eq, Structural)]
pub enum TString {
    LngStr,
    ShrStr,
}

impl TString {
    pub fn code(&self) -> (r: u8)
        ensures
            r == match *self {
                TString::LngStr => 4u8,
                TString::ShrStr => 20u8,
            },
    {
        match self {
            TString::LngStr => 4,
            TString::ShrStr => 20,
        }
    }
}

/// The payload of a value. A float is held by its IEEE-754 bit pattern, light
/// user data by its address, and a native function by the handle under which
/// the host registered it.
#[derive(Debug, Clone, Copy, PartialEq, Eq, Structural)]
pub enum DataType {
    ValInt(i32),
    ValNum(u32),
    ValBl(bool),
    ValNil,
    ValUd(usize),
    ValRfunc(usize),
}

/// The type tag that goes with a payload.
pub open spec fn tag_of(v: DataType) -> u8 {
    match v {
        DataType::ValInt(_) => 1,
        DataType::ValNum(_) => 17,
        DataType::ValBl(_) => 3,
        DataType::ValNil => 5,
        DataType::ValUd(_) => 2,
        DataType::ValRfunc(_) => 23,
    }
}

/// A tagged value: its tag is derived from the payload variant it holds.
#[derive(Debug, Clone, Copy, PartialEq, Eq, Structural)]
pub struct LuaTObject {
    value: DataType,
}

pub type TObj = LuaTObject;

impl View for LuaTObject {
    type V = DataType;

    closed spec fn view(&self) -> DataType {
        self.value
    }
}

impl Default for LuaTObject {
    fn default() -> (r: Self)
        ensures
            r@ == DataType::ValNil,
    {
        LuaTObject { value: DataType::ValNil }
    }
}

impl LuaTObject {
    pub fn get_type(&self) -> (r: u8)
        ensures
            r == tag_of(self@),
    {
        match self.value {
            DataType::ValInt(_) => 1,
            DataType::ValNum(_) => 17,
            DataType::ValBl(_) => 3,
            DataType::ValNil => 5,
            DataType::ValUd(_) => 2,
            DataType::ValRfunc(_) => 23,
        }
    }

    pub fn get_value(&self) -> (r: DataType)
        ensures
            r == self@,
    {
        self.value
    }

    pub fn new_integer(integer: i32) -> (r: Self)
        ensures
            r@ == DataType::ValInt(integer),
    {
        let mut obj = LuaTObject::default();
        obj.set_integer(integer);
        obj
    }

    pub fn set_integer(&mut self, integer: i32)
        ensures
            final(self)@ == DataType::ValInt(integer),
    {
        self.value = DataType::ValInt(integer);
    }

    /// A float value, given by its IEEE-754 bit pattern.
    pub fn new_float(bits: u32) -> (r: Self)
        ensures
            r@ == DataType::ValNum(bits),
    {
        let mut obj = LuaTObject::default();
        obj.set_float(bits);
        obj
    }

    pub fn set_float(&mut self, bits: u32)
        ensures
            final(self)@ == DataType::ValNum(bits),
    {
        self.value = DataType::ValNum(bits);
    }

    pub fn new_bool(boolean: bool) -> (r: Self)
        ensures
            r@ == DataType::ValBl(boolean),
    {
        let mut obj = LuaTObject::default();
        obj.set_bool(boolean);
        obj
    }

    pub fn set_bool(&mut self, boolean: bool)
        ensures
            final(self)@ == DataType::ValBl(boolean),
    {
        self.value = DataType::ValBl(boolean);
    }

    pub fn new_nil() -> (r: Self)
        ensures
            r@ == DataType::ValNil,
    {
        LuaTObject::default()
    }

    pub fn set_nil(&mut self)
        ensures
            final(self)@ == DataType::ValNil,
    {
        self.value = DataType::ValNil;
    }

    pub fn new_ud(ud: usize) -> (r: Self)
        ensures
            r@ == DataType::ValUd(ud),
    {
        let mut obj = LuaTObject::default();
        obj.set_ud(ud);
        obj
    }

    pub fn set_ud(&mut self, ud: usize)
        ensures
            final(self)@ == DataType::ValUd(ud),
    {
        self.value = DataType::ValUd(ud);
    }

    /// A light native function, given by its host handle.
    pub fn new_rfunc(rfunc: usize) -> (r: Self)
        ensures
            r@ == DataType::ValRfunc(rfunc),
    {
        let mut obj = LuaTObject::default();
        obj.set_rfunc(rfunc);
        obj
    }

    pub fn set_rfunc(&mut self, rfunc: usize)
        ensures
            final(self)@ == DataType::ValRfunc(rfunc),
    {
        self.value = DataType::ValRfunc(rfunc);
    }

    pub fn new_obj(obj: LuaTObject) -> (r: Self)
        ensures
            r@ == obj@,
    {
        let mut o = LuaTObject::default();
        o.set_obj(obj);
        o
    }

    pub fn set_obj(&mut self, obj: LuaTObject)
        ensures
            final(self)@ == obj@,
    {
        self.value = obj.value;
    }

    /// The integer payload, or `MisMatch` when the value is not an integer.
    pub fn to_integer(&self) -> (r: Result<i32, ErrCode>)
        ensures
            match self@ {
                DataType::ValInt(i) => r == Ok::<i32, ErrCode>(i),
                _ => r == Err::<i32, ErrCode>(ErrCode::MisMatch),
            },
    {
        match self.value {
            DataType::ValInt(i) => Ok(i),
            _ => Err(ErrCode::MisMatch),
        }
    }

    /// The float payload's bit pattern, or `MisMatch` when the value is not a float.
    pub fn to_float(&self) -> (r: Result<u32, ErrCode>)
        ensures
            match self@ {
                DataType::ValNum(b) => r == Ok::<u32, ErrCode>(b),
                _ => r == Err::<u32, ErrCode>(ErrCode::MisMatch),
            },
    {
        match self.value {
            DataType::ValNum(b) => Ok(b),
            _ => Err(ErrCode::MisMatch),
        }
    }

    /// The boolean payload, or `MisMatch` when the value is not a boolean.
    pub fn to_bool(&self) -> (r: Result<bool, ErrCode>)
        ensures
            match self@ {
                DataType::ValBl(b) => r == Ok::<bool, ErrCode>(b),
                _ => r == Err::<bool, ErrCode>(ErrCode::MisMatch),
            },
    {
        match self.value {
            DataType::ValBl(b) => Ok(b),
            _ => Err(ErrCode::MisMatch),
        }
    }

    /// The user-data address, or `MisMatch` when the value is not light user data.
    pub fn to_ud(&self) -> (r: Result<usize, ErrCode>)
        ensures
            match self@ {
                DataType::ValUd(u) => r == Ok::<usize, ErrCode>(u),
                _ => r == Err::<usize, ErrCode>(ErrCode::MisMatch),
            },
    {
        match self.value {
            DataType::ValUd(u) => Ok(u),
            _ => Err(ErrCode::MisMatch),
        }
    }

    /// The native-function handle, or `MisMatch` when the value is not a light
    /// native function.
    pub fn to_rfunc(&self) -> (r: Result<usize, ErrCode>)
        ensures
            match self@ {
                DataType::ValRfunc(h) => r == Ok::<usize, ErrCode>(h),
                _ => r == Err::<usize, ErrCode>(ErrCode::MisMatch),
            },
    {
        match self.value {
            DataType::ValRfunc(h) => Ok(h),
            _ => Err(ErrCode::MisMatch),
        }
    }
}

} // verus!
