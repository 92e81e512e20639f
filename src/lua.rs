use vstd::prelude::*;

verus! {

/// Status of a thread; occupies the low nibble of a composite status code.
#[derive(Debug, Clone, Copy, PartialEq, Eq, Structural)]
pub enum LuaStateStatus {
    LuaOk,
    LuaErrErr,
    /// failed allocating memory
    LuaErrMem,
    LuaErrRun,
}

/// Status of a call frame; occupies the second nibble of a composite status code.
#[derive(Debug, Clone, Copy, PartialEq, Eq, Structural)]
pub enum LuaCallInfoStatus {
    CallOk,
    TooManyCall,
    StackOverFlow,
}

/// Low-level error kind; occupies the bits above the two status nibbles.
#[derive(Debug, Clone, Copy, PartialEq, Eq, Structural)]
pub enum ErrCode {
    Fine,
    NullPointer,
    NoneObject,
    OverFlow,
    MisMatch,
}

pub open spec fn state_status_code(s: LuaStateStatus) -> i32 {
    match s {
        LuaStateStatus::LuaOk => 0,
        LuaStateStatus::LuaErrErr => 1,
        LuaStateStatus::LuaErrMem => 2,
        LuaStateStatus::LuaErrRun => 3,
    }
}

pub open spec fn call_status_code(s: LuaCallInfoStatus) -> i32 {
    match s {
        LuaCallInfoStatus::CallOk => 0,
        LuaCallInfoStatus::TooManyCall => 1,
        LuaCallInfoStatus::StackOverFlow => 2,
    }
}

pub open spec fn err_code_value(e: ErrCode) -> i32 {
    match e {
        ErrCode::Fine => 0,
        ErrCode::NullPointer => 1,
        ErrCode::NoneObject => 2,
        ErrCode::OverFlow => 3,
        ErrCode::MisMatch => 4,
    }
}

/// The packed status of a failed call: error kind above bit 8, frame status in
/// bits 4..8, thread status in bits 0..4.
pub open spec fn compose_spec(s: LuaStateStatus, c: LuaCallInfoStatus, e: ErrCode) -> int {
    err_code_value(e) * 256 + call_status_code(c) * 16 + state_status_code(s)
}

impl LuaStateStatus {
    pub fn code(&self) -> (r: i32)
        ensures
            r == state_status_code(*self),
    {
        match self {
            LuaStateStatus::LuaOk => 0,
            LuaStateStatus::LuaErrErr => 1,
            LuaStateStatus::LuaErrMem => 2,
            LuaStateStatus::LuaErrRun => 3,
        }
    }
}

impl LuaCallInfoStatus {
    pub fn code(&self) -> (r: i32)
        ensures
            r == call_status_code(*self),
    {
        match self {
            LuaCallInfoStatus::CallOk => 0,
            LuaCallInfoStatus::TooManyCall => 1,
            LuaCallInfoStatus::StackOverFlow => 2,
        }
    }
}

impl ErrCode {
    pub fn code(&self) -> (r: i32)
        ensures
            r == err_code_value(*self),
    {
        match self {
            ErrCode::Fine => 0,
            ErrCode::NullPointer => 1,
            ErrCode::NoneObject => 2,
            ErrCode::OverFlow => 3,
            ErrCode::MisMatch => 4,
        }
    }
}

/// Packs the three status fields of a failed call into one integer.
pub fn compose_status(s: LuaStateStatus, c: LuaCallInfoStatus, e: ErrCode) -> (r: i32)
    ensures
        r as int == compose_spec(s, c, e),
        r as int % 16 == state_status_code(s),
        r as int / 16 % 16 == call_status_code(c),
        r as int / 256 == err_code_value(e),
{
    let code1 = s.code();
    let code2 = c.code();
    let code3 = e.code();
    code3 * 256 + code2 * 16 + code1
}

impl Default for LuaCallInfoStatus {
    fn default() -> (r: Self)
        ensures
            r == LuaCallInfoStatus::CallOk,
    {
        LuaCallInfoStatus::CallOk
    }
}

impl Default for LuaStateStatus {
    fn default() -> (r: Self)
        ensures
            r == LuaStateStatus::LuaOk,
    {
        LuaStateStatus::LuaOk
    }
}

/// Stack slots reserved for every call frame.
pub const LUA_MIN_STACK: usize = 20;
/// Initial length of a thread's value stack.
pub const LUA_STACK_SIZE: usize = 40;
/// Headroom kept above the last usable stack slot.
pub const LUA_EXTRA_STACK: usize = 5;
/// Hard ceiling on the value stack's allocated length.
pub const LUA_MAX_STACK: usize = 15000;
pub const LUA_ERROR_STACK: usize = 200;

/// Requested result count meaning "keep every result".
pub const LUA_MUL_RET: isize = -1;
/// Ceiling on nested calls, and on the call-frame array's length.
pub const LUA_MAX_CALLS: usize = 200;
/// Initial length of the call-frame array.
pub const LUA_CI_LEN: usize = 10;

} // verus!
