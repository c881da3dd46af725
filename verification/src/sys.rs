//! The vocabulary of the machine's native interface: its limits, its
//! pseudo-indices, and the integer codes it uses for statuses, value types and
//! collector requests.
//!
//! Everything here is plain data. The machine itself is driven by the caller;
//! this module only fixes what the numbers mean.

#![allow(non_camel_case_types)]
#![allow(non_snake_case)]

use vstd::prelude::*;

use crate::context::ArgError;

verus! {

/// Size of the buffer that holds a chunk's display name.
pub const LUA_IDSIZE: i32 = 256;

/// Slots that every native call may use without reserving.
pub const LUA_MINSTACK: i32 = 20;

/// Most slots one native frame may address.
pub const LUAI_MAXCSTACK: i32 = 8000;

/// Deepest nesting of script calls.
pub const LUAI_MAXCALLS: i32 = 20000;

/// Deepest nesting of native calls.
pub const LUAI_MAXCCALLS: i32 = 200;

/// Size of the inline part of a string builder.
pub const LUA_BUFFERSIZE: i32 = 512;

/// Tags of tagged host blocks lie in `0 .. LUA_UTAG_LIMIT`.
pub const LUA_UTAG_LIMIT: i32 = 128;

/// Tags of tagged light pointers lie in `0 .. LUA_LUTAG_LIMIT`.
pub const LUA_LUTAG_LIMIT: i32 = 128;

/// Number of allocation size classes.
pub const LUA_SIZECLASSES: i32 = 40;

/// Number of memory categories.
pub const LUA_MEMORY_CATEGORIES: i32 = 256;

/// Initial size of the string table.
pub const LUA_MINSTRTABSIZE: i32 = 32;

/// Most captures one pattern match may hold.
pub const LUA_MAXCAPTURES: i32 = 32;

/// Components of a vector value.
pub const LUA_VECTOR_SIZE: i32 = 3;

/// As a result count: keep every value the callee returned.
pub const LUA_MULTRET: i32 = -1;

/// Pseudo-index of the registry table.
pub const LUA_REGISTRYINDEX: i32 = -LUAI_MAXCSTACK - 2000;

/// Pseudo-index of the running function's environment table.
pub const LUA_ENVIRONINDEX: i32 = -LUAI_MAXCSTACK - 2001;

/// Pseudo-index of the table of globals.
pub const LUA_GLOBALSINDEX: i32 = -LUAI_MAXCSTACK - 2002;

/// The registry key that stands for "no reference".
pub const LUA_NOREF: i32 = -1;

/// The registry key that stands for a reference to nil.
pub const LUA_REFNIL: i32 = 0;

/// Name under which the coroutine library is opened.
pub const LUA_COLIBNAME: &'static str = "coroutine";

/// Name under which the table library is opened.
pub const LUA_TABLIBNAME: &'static str = "table";

/// Name under which the operating-system library is opened.
pub const LUA_OSLIBNAME: &'static str = "os";

/// Name under which the string library is opened.
pub const LUA_STRLIBNAME: &'static str = "string";

/// Name under which the bit library is opened.
pub const LUA_BITLIBNAME: &'static str = "bit32";

/// Name under which the buffer library is opened.
pub const LUA_BUFFERLIBNAME: &'static str = "buffer";

/// Name under which the UTF-8 library is opened.
pub const LUA_UTF8LIBNAME: &'static str = "utf8";

/// Name under which the math library is opened.
pub const LUA_MATHLIBNAME: &'static str = "math";

/// Name under which the debug library is opened.
pub const LUA_DBLIBNAME: &'static str = "debug";

/// Name under which the vector library is opened.
pub const LUA_VECLIBNAME: &'static str = "vector";

/// The pseudo-index of the `i`-th captured value: one step below the globals
/// for each step of `i`.
pub open spec fn spec_upvalueindex(i: int) -> int {
    LUA_GLOBALSINDEX - i
}

/// The pseudo-index under which a native function finds its `i`-th captured
/// value (the first is `lua_upvalueindex(1)`).
pub fn lua_upvalueindex(i: i32) -> (idx: i32)
    requires
        i32::MIN <= spec_upvalueindex(i as int),
    ensures
        idx == spec_upvalueindex(i as int),
{
    LUA_GLOBALSINDEX - i
}

/// Whether `i` addresses a registry or a captured value rather than a slot of
/// the stack.
pub fn lua_ispseudo(i: i32) -> (pseudo: bool)
    ensures
        pseudo == (i <= LUA_REGISTRYINDEX),
{
    i <= LUA_REGISTRYINDEX
}

/// The index to set the top of the stack to in order to drop its `n` topmost
/// values: one step below the top for each of them.
pub open spec fn spec_pop(n: int) -> int {
    -n - 1
}

/// The index to set the top of the stack to in order to drop its `n` topmost
/// values.
pub fn lua_pop(n: i32) -> (idx: i32)
    requires
        n > i32::MIN,
    ensures
        idx == spec_pop(n as int),
{
    -n - 1
}

/// Checks a condition on argument `arg` of a native call: the refusal of the
/// argument for the reason `extramsg` where the condition does not hold.
pub fn luaL_argcheck(cond: bool, arg: u32, extramsg: &str) -> (checked: Result<(), ArgError>)
    ensures
        cond ==> checked is Ok,
        !cond ==> checked is Err && checked->Err_0.is_argument(arg, extramsg@),
{
    if cond {
        Ok(())
    } else {
        Err(ArgError::Argument { narg: arg, reason: extramsg.to_owned() })
    }
}

/// Checks the kind of argument `arg` of a native call: the refusal of the
/// argument for not being what `tname` describes where the condition does
/// not hold.
pub fn luaL_argexpected(cond: bool, arg: u32, tname: &str) -> (checked: Result<(), ArgError>)
    ensures
        cond ==> checked is Ok,
        !cond ==> checked is Err && checked->Err_0.is_type(arg, tname@),
{
    if cond {
        Ok(())
    } else {
        Err(ArgError::Type { narg: arg, expected: tname.to_owned() })
    }
}

/// An argument with a default: `d` where the slot of the reported kind holds
/// nothing or nil, and otherwise what `f` reads from it.
pub fn luaL_opt<T, F: FnOnce() -> T>(kind: lua_Type, f: F, d: T) -> (value: T)
    requires
        !(kind == lua_Type::LUA_TNONE || kind == lua_Type::LUA_TNIL) ==> f.requires(()),
    ensures
        kind == lua_Type::LUA_TNONE || kind == lua_Type::LUA_TNIL ==> value == d,
        !(kind == lua_Type::LUA_TNONE || kind == lua_Type::LUA_TNIL) ==> f.ensures((), value),
{
    if kind.is_none_or_nil() {
        d
    } else {
        f()
    }
}

/// How a call or a resumption ended, as the machine reports it.
#[derive(Clone, Copy, Debug, PartialEq, Eq, Structural)]
pub enum lua_Status {
    /// Ran to completion.
    LUA_OK,
    /// Suspended itself.
    LUA_YIELD,
    /// Raised a runtime error.
    LUA_ERRRUN,
    /// Kept for compatibility; the machine never reports it.
    LUA_ERRSYNTAX,
    /// Ran out of memory.
    LUA_ERRMEM,
    /// Raised an error while handling an error.
    LUA_ERRERR,
    /// Was interrupted by a debugger break.
    LUA_BREAK,
}

impl lua_Status {
    /// The integer the machine uses for this status.
    pub open spec fn spec_code(self) -> int {
        match self {
            lua_Status::LUA_OK => 0,
            lua_Status::LUA_YIELD => 1,
            lua_Status::LUA_ERRRUN => 2,
            lua_Status::LUA_ERRSYNTAX => 3,
            lua_Status::LUA_ERRMEM => 4,
            lua_Status::LUA_ERRERR => 5,
            lua_Status::LUA_BREAK => 6,
        }
    }

    /// The status that `code` stands for, if it stands for one.
    pub open spec fn spec_from_code(code: int) -> Option<lua_Status> {
        if code == 0 {
            Some(lua_Status::LUA_OK)
        } else if code == 1 {
            Some(lua_Status::LUA_YIELD)
        } else if code == 2 {
            Some(lua_Status::LUA_ERRRUN)
        } else if code == 3 {
            Some(lua_Status::LUA_ERRSYNTAX)
        } else if code == 4 {
            Some(lua_Status::LUA_ERRMEM)
        } else if code == 5 {
            Some(lua_Status::LUA_ERRERR)
        } else if code == 6 {
            Some(lua_Status::LUA_BREAK)
        } else {
            None
        }
    }

    /// The integer the machine uses for this status.
    pub fn code(self) -> (code: i32)
        ensures
            code == self.spec_code(),
    {
        match self {
            lua_Status::LUA_OK => 0,
            lua_Status::LUA_YIELD => 1,
            lua_Status::LUA_ERRRUN => 2,
            lua_Status::LUA_ERRSYNTAX => 3,
            lua_Status::LUA_ERRMEM => 4,
            lua_Status::LUA_ERRERR => 5,
            lua_Status::LUA_BREAK => 6,
        }
    }

    /// Reads a status from its integer; `None` for an integer that names no
    /// status.
    pub fn from_code(code: i32) -> (status: Option<lua_Status>)
        ensures
            status == Self::spec_from_code(code as int),
    {
        if code == 0 {
            Some(lua_Status::LUA_OK)
        } else if code == 1 {
            Some(lua_Status::LUA_YIELD)
        } else if code == 2 {
            Some(lua_Status::LUA_ERRRUN)
        } else if code == 3 {
            Some(lua_Status::LUA_ERRSYNTAX)
        } else if code == 4 {
            Some(lua_Status::LUA_ERRMEM)
        } else if code == 5 {
            Some(lua_Status::LUA_ERRERR)
        } else if code == 6 {
            Some(lua_Status::LUA_BREAK)
        } else {
            None
        }
    }
}

/// Where a coroutine stands, as the machine reports it.
#[derive(Clone, Copy, Debug, PartialEq, Eq, Structural)]
pub enum lua_CoStatus {
    /// Running.
    LUA_CORUN,
    /// Suspended.
    LUA_COSUS,
    /// Has resumed another coroutine.
    LUA_CONOR,
    /// Finished.
    LUA_COFIN,
    /// Finished with an error.
    LUA_COERR,
}

impl lua_CoStatus {
    /// The integer the machine uses for this state.
    pub open spec fn spec_code(self) -> int {
        match self {
            lua_CoStatus::LUA_CORUN => 0,
            lua_CoStatus::LUA_COSUS => 1,
            lua_CoStatus::LUA_CONOR => 2,
            lua_CoStatus::LUA_COFIN => 3,
            lua_CoStatus::LUA_COERR => 4,
        }
    }

    /// The state that `code` stands for, if it stands for one.
    pub open spec fn spec_from_code(code: int) -> Option<lua_CoStatus> {
        if code == 0 {
            Some(lua_CoStatus::LUA_CORUN)
        } else if code == 1 {
            Some(lua_CoStatus::LUA_COSUS)
        } else if code == 2 {
            Some(lua_CoStatus::LUA_CONOR)
        } else if code == 3 {
            Some(lua_CoStatus::LUA_COFIN)
        } else if code == 4 {
            Some(lua_CoStatus::LUA_COERR)
        } else {
            None
        }
    }

    /// The integer the machine uses for this state.
    pub fn code(self) -> (code: i32)
        ensures
            code == self.spec_code(),
    {
        match self {
            lua_CoStatus::LUA_CORUN => 0,
            lua_CoStatus::LUA_COSUS => 1,
            lua_CoStatus::LUA_CONOR => 2,
            lua_CoStatus::LUA_COFIN => 3,
            lua_CoStatus::LUA_COERR => 4,
        }
    }

    /// Reads a state from its integer; `None` for an integer that names none.
    pub fn from_code(code: i32) -> (status: Option<lua_CoStatus>)
        ensures
            status == Self::spec_from_code(code as int),
    {
        if code == 0 {
            Some(lua_CoStatus::LUA_CORUN)
        } else if code == 1 {
            Some(lua_CoStatus::LUA_COSUS)
        } else if code == 2 {
            Some(lua_CoStatus::LUA_CONOR)
        } else if code == 3 {
            Some(lua_CoStatus::LUA_COFIN)
        } else if code == 4 {
            Some(lua_CoStatus::LUA_COERR)
        } else {
            None
        }
    }
}

/// The kind of a value, as the machine reports it for a stack index.
#[derive(Clone, Copy, Debug, PartialEq, Eq, Structural)]
pub enum lua_Type {
    /// The index holds no value at all.
    LUA_TNONE,
    LUA_TNIL,
    LUA_TBOOLEAN,
    LUA_TLIGHTUSERDATA,
    LUA_TNUMBER,
    LUA_TVECTOR,
    LUA_TSTRING,
    LUA_TTABLE,
    LUA_TFUNCTION,
    LUA_TUSERDATA,
    LUA_TTHREAD,
    LUA_TBUFFER,
}

impl lua_Type {
    /// The integer the machine uses for this kind.
    pub open spec fn spec_code(self) -> int {
        match self {
            lua_Type::LUA_TNONE => -1,
            lua_Type::LUA_TNIL => 0,
            lua_Type::LUA_TBOOLEAN => 1,
            lua_Type::LUA_TLIGHTUSERDATA => 2,
            lua_Type::LUA_TNUMBER => 3,
            lua_Type::LUA_TVECTOR => 4,
            lua_Type::LUA_TSTRING => 5,
            lua_Type::LUA_TTABLE => 6,
            lua_Type::LUA_TFUNCTION => 7,
            lua_Type::LUA_TUSERDATA => 8,
            lua_Type::LUA_TTHREAD => 9,
            lua_Type::LUA_TBUFFER => 10,
        }
    }

    /// The kind that `code` stands for, if it stands for one.
    pub open spec fn spec_from_code(code: int) -> Option<lua_Type> {
        if code == -1 {
            Some(lua_Type::LUA_TNONE)
        } else if code == 0 {
            Some(lua_Type::LUA_TNIL)
        } else if code == 1 {
            Some(lua_Type::LUA_TBOOLEAN)
        } else if code == 2 {
            Some(lua_Type::LUA_TLIGHTUSERDATA)
        } else if code == 3 {
            Some(lua_Type::LUA_TNUMBER)
        } else if code == 4 {
            Some(lua_Type::LUA_TVECTOR)
        } else if code == 5 {
            Some(lua_Type::LUA_TSTRING)
        } else if code == 6 {
            Some(lua_Type::LUA_TTABLE)
        } else if code == 7 {
            Some(lua_Type::LUA_TFUNCTION)
        } else if code == 8 {
            Some(lua_Type::LUA_TUSERDATA)
        } else if code == 9 {
            Some(lua_Type::LUA_TTHREAD)
        } else if code == 10 {
            Some(lua_Type::LUA_TBUFFER)
        } else {
            None
        }
    }

    /// The integer the machine uses for this kind.
    pub fn code(self) -> (code: i32)
        ensures
            code == self.spec_code(),
    {
        match self {
            lua_Type::LUA_TNONE => -1,
            lua_Type::LUA_TNIL => 0,
            lua_Type::LUA_TBOOLEAN => 1,
            lua_Type::LUA_TLIGHTUSERDATA => 2,
            lua_Type::LUA_TNUMBER => 3,
            lua_Type::LUA_TVECTOR => 4,
            lua_Type::LUA_TSTRING => 5,
            lua_Type::LUA_TTABLE => 6,
            lua_Type::LUA_TFUNCTION => 7,
            lua_Type::LUA_TUSERDATA => 8,
            lua_Type::LUA_TTHREAD => 9,
            lua_Type::LUA_TBUFFER => 10,
        }
    }

    /// Reads a kind from its integer; `None` for an integer that names none.
    pub fn from_code(code: i32) -> (kind: Option<lua_Type>)
        ensures
            kind == Self::spec_from_code(code as int),
    {
        if code == -1 {
            Some(lua_Type::LUA_TNONE)
        } else if code == 0 {
            Some(lua_Type::LUA_TNIL)
        } else if code == 1 {
            Some(lua_Type::LUA_TBOOLEAN)
        } else if code == 2 {
            Some(lua_Type::LUA_TLIGHTUSERDATA)
        } else if code == 3 {
            Some(lua_Type::LUA_TNUMBER)
        } else if code == 4 {
            Some(lua_Type::LUA_TVECTOR)
        } else if code == 5 {
            Some(lua_Type::LUA_TSTRING)
        } else if code == 6 {
            Some(lua_Type::LUA_TTABLE)
        } else if code == 7 {
            Some(lua_Type::LUA_TFUNCTION)
        } else if code == 8 {
            Some(lua_Type::LUA_TUSERDATA)
        } else if code == 9 {
            Some(lua_Type::LUA_TTHREAD)
        } else if code == 10 {
            Some(lua_Type::LUA_TBUFFER)
        } else {
            None
        }
    }

    /// Whether the index holds nothing or holds nil: the kinds whose code is at
    /// most that of nil.
    pub fn is_none_or_nil(self) -> (absent: bool)
        ensures
            absent == (self.spec_code() <= lua_Type::LUA_TNIL.spec_code()),
            absent == (self == lua_Type::LUA_TNONE || self == lua_Type::LUA_TNIL),
    {
        self.code() <= 0
    }
}

/// A request to the collector.
#[derive(Clone, Copy, Debug, PartialEq, Eq, Structural)]
pub enum lua_GCOp {
    /// Stop collecting.
    LUA_GCSTOP,
    /// Collect again after a stop.
    LUA_GCRESTART,
    /// Run one full cycle.
    LUA_GCCOLLECT,
    /// Report the heap size in kilobytes.
    LUA_GCCOUNT,
    /// Report the bytes of the heap size beyond whole kilobytes.
    LUA_GCCOUNTB,
    /// Report whether the collector is enabled.
    LUA_GCISRUNNING,
    /// Run one step of the given size in kilobytes.
    LUA_GCSTEP,
    /// Set the heap growth at which a cycle starts, in percent of live data.
    LUA_GCSETGOAL,
    /// Set how much of the heap one step tries to collect, in percent.
    LUA_GCSETSTEPMUL,
    /// Set after how many allocated bytes a step runs.
    LUA_GCSETSTEPSIZE,
}

impl lua_GCOp {
    /// The integer the machine uses for this request.
    pub open spec fn spec_code(self) -> int {
        match self {
            lua_GCOp::LUA_GCSTOP => 0,
            lua_GCOp::LUA_GCRESTART => 1,
            lua_GCOp::LUA_GCCOLLECT => 2,
            lua_GCOp::LUA_GCCOUNT => 3,
            lua_GCOp::LUA_GCCOUNTB => 4,
            lua_GCOp::LUA_GCISRUNNING => 5,
            lua_GCOp::LUA_GCSTEP => 6,
            lua_GCOp::LUA_GCSETGOAL => 7,
            lua_GCOp::LUA_GCSETSTEPMUL => 8,
            lua_GCOp::LUA_GCSETSTEPSIZE => 9,
        }
    }

    /// The integer the machine uses for this request.
    pub fn code(self) -> (code: i32)
        ensures
            code == self.spec_code(),
    {
        match self {
            lua_GCOp::LUA_GCSTOP => 0,
            lua_GCOp::LUA_GCRESTART => 1,
            lua_GCOp::LUA_GCCOLLECT => 2,
            lua_GCOp::LUA_GCCOUNT => 3,
            lua_GCOp::LUA_GCCOUNTB => 4,
            lua_GCOp::LUA_GCISRUNNING => 5,
            lua_GCOp::LUA_GCSTEP => 6,
            lua_GCOp::LUA_GCSETGOAL => 7,
            lua_GCOp::LUA_GCSETSTEPMUL => 8,
            lua_GCOp::LUA_GCSETSTEPSIZE => 9,
        }
    }
}

/// Reading a status back from its own code gives the status, and a code that
/// reads as a status is that status's code.
pub proof fn lemma_status_code_round_trip(status: lua_Status, code: int)
    ensures
        lua_Status::spec_from_code(status.spec_code()) == Some(status),
        lua_Status::spec_from_code(code) == Some(status) ==> status.spec_code() == code,
{
}

/// Reading a coroutine state back from its own code gives the state, and a
/// code that reads as a state is that state's code.
pub proof fn lemma_costatus_code_round_trip(status: lua_CoStatus, code: int)
    ensures
        lua_CoStatus::spec_from_code(status.spec_code()) == Some(status),
        lua_CoStatus::spec_from_code(code) == Some(status) ==> status.spec_code() == code,
{
}

/// Reading a kind back from its own code gives the kind, and a code that reads
/// as a kind is that kind's code.
pub proof fn lemma_type_code_round_trip(kind: lua_Type, code: int)
    ensures
        lua_Type::spec_from_code(kind.spec_code()) == Some(kind),
        lua_Type::spec_from_code(code) == Some(kind) ==> kind.spec_code() == code,
{
}

/// Captured values sit strictly below the globals, so every index of a
/// captured value is a pseudo-index, and distinct captures have distinct
/// indices.
pub proof fn lemma_upvalue_indices(i: int, j: int)
    requires
        1 <= i,
        1 <= j,
    ensures
        spec_upvalueindex(i) < LUA_GLOBALSINDEX,
        spec_upvalueindex(i) <= LUA_REGISTRYINDEX,
        i != j ==> spec_upvalueindex(i) != spec_upvalueindex(j),
{
}

} // verus!
