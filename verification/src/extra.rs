//! Statuses, value kinds, native function descriptors and persistent
//! references.

use vstd::prelude::*;
use vstd::string::StringSliceAdditionalSpecFns;

use crate::sys::{lua_Status, lua_Type, LUA_NOREF, LUA_REFNIL};
use crate::thread::ThreadMain;
use crate::Config;

verus! {

/// How a resumption of an execution context ended.
#[derive(Clone, Copy, Debug, PartialEq, Eq, Structural)]
pub enum Status {
    /// Ran to completion; the results are on the stack.
    Okay,
    /// Suspended itself; the yielded values are on the stack.
    Yield,
    /// Raised an error; the error value is on the stack.
    ErrorRuntime,
    /// Ran out of memory; the error value is on the stack.
    ErrorMemory,
    /// Raised an error while handling an error; the error value is on the
    /// stack.
    ErrorHandler,
    /// Was interrupted by a debugger break and can be resumed.
    Break,
}

impl Status {
    /// The machine's status that this status stands for.
    pub open spec fn spec_raw(self) -> lua_Status {
        match self {
            Status::Okay => lua_Status::LUA_OK,
            Status::Yield => lua_Status::LUA_YIELD,
            Status::ErrorRuntime => lua_Status::LUA_ERRRUN,
            Status::ErrorMemory => lua_Status::LUA_ERRMEM,
            Status::ErrorHandler => lua_Status::LUA_ERRERR,
            Status::Break => lua_Status::LUA_BREAK,
        }
    }

    /// The status that the machine's `raw` stands for. The status that the
    /// machine keeps only for compatibility stands for none.
    pub open spec fn spec_from_raw(raw: lua_Status) -> Option<Status> {
        match raw {
            lua_Status::LUA_OK => Some(Status::Okay),
            lua_Status::LUA_YIELD => Some(Status::Yield),
            lua_Status::LUA_ERRRUN => Some(Status::ErrorRuntime),
            lua_Status::LUA_ERRSYNTAX => None,
            lua_Status::LUA_ERRMEM => Some(Status::ErrorMemory),
            lua_Status::LUA_ERRERR => Some(Status::ErrorHandler),
            lua_Status::LUA_BREAK => Some(Status::Break),
        }
    }

    /// The status that the integer `code` stands for.
    pub open spec fn spec_from_code(code: int) -> Option<Status> {
        match lua_Status::spec_from_code(code) {
            Some(raw) => Self::spec_from_raw(raw),
            None => None,
        }
    }

    /// The machine's status that this status stands for.
    pub fn raw(self) -> (raw: lua_Status)
        ensures
            raw == self.spec_raw(),
    {
        match self {
            Status::Okay => lua_Status::LUA_OK,
            Status::Yield => lua_Status::LUA_YIELD,
            Status::ErrorRuntime => lua_Status::LUA_ERRRUN,
            Status::ErrorMemory => lua_Status::LUA_ERRMEM,
            Status::ErrorHandler => lua_Status::LUA_ERRERR,
            Status::Break => lua_Status::LUA_BREAK,
        }
    }

    /// Reads a status reported by the machine; `None` for the one status that
    /// the machine never reports.
    pub fn from_raw(raw: lua_Status) -> (status: Option<Status>)
        ensures
            status == Self::spec_from_raw(raw),
    {
        match raw {
            lua_Status::LUA_OK => Some(Status::Okay),
            lua_Status::LUA_YIELD => Some(Status::Yield),
            lua_Status::LUA_ERRRUN => Some(Status::ErrorRuntime),
            lua_Status::LUA_ERRSYNTAX => None,
            lua_Status::LUA_ERRMEM => Some(Status::ErrorMemory),
            lua_Status::LUA_ERRERR => Some(Status::ErrorHandler),
            lua_Status::LUA_BREAK => Some(Status::Break),
        }
    }

    /// The integer the machine uses for this status.
    pub fn code(self) -> (code: i32)
        ensures
            code == self.spec_raw().spec_code(),
    {
        self.raw().code()
    }

    /// Reads a status from the integer the machine returned; `None` for an
    /// integer that is no status of a resumption.
    pub fn from_code(code: i32) -> (status: Option<Status>)
        ensures
            status == Self::spec_from_code(code as int),
    {
        match lua_Status::from_code(code) {
            Some(raw) => Status::from_raw(raw),
            None => None,
        }
    }

    /// Whether the resumption failed and left a single error value on the
    /// stack.
    pub fn is_error(self) -> (error: bool)
        ensures
            error == (self == Status::ErrorRuntime || self == Status::ErrorMemory || self
                == Status::ErrorHandler),
    {
        match self {
            Status::ErrorRuntime | Status::ErrorMemory | Status::ErrorHandler => true,
            _ => false,
        }
    }

    /// Whether the context is finished with this status. A loop that drives a
    /// context goes on after a yield and after a break.
    pub fn is_terminal(self) -> (terminal: bool)
        ensures
            terminal == (self != Status::Yield && self != Status::Break),
    {
        match self {
            Status::Yield | Status::Break => false,
            _ => true,
        }
    }
}

/// The kind of the value at a stack index.
#[derive(Clone, Copy, Debug, PartialEq, Eq, Structural)]
pub enum Type {
    /// The index holds no value at all.
    Absent,
    Nil,
    Boolean,
    LightUserdata,
    Number,
    Vector,
    String,
    Table,
    Function,
    Userdata,
    Thread,
    Buffer,
}

impl Type {
    /// The machine's kind that this kind stands for.
    pub open spec fn spec_raw(self) -> lua_Type {
        match self {
            Type::Absent => lua_Type::LUA_TNONE,
            Type::Nil => lua_Type::LUA_TNIL,
            Type::Boolean => lua_Type::LUA_TBOOLEAN,
            Type::LightUserdata => lua_Type::LUA_TLIGHTUSERDATA,
            Type::Number => lua_Type::LUA_TNUMBER,
            Type::Vector => lua_Type::LUA_TVECTOR,
            Type::String => lua_Type::LUA_TSTRING,
            Type::Table => lua_Type::LUA_TTABLE,
            Type::Function => lua_Type::LUA_TFUNCTION,
            Type::Userdata => lua_Type::LUA_TUSERDATA,
            Type::Thread => lua_Type::LUA_TTHREAD,
            Type::Buffer => lua_Type::LUA_TBUFFER,
        }
    }

    /// The kind that the machine's `raw` stands for.
    pub open spec fn spec_from_raw(raw: lua_Type) -> Type {
        match raw {
            lua_Type::LUA_TNONE => Type::Absent,
            lua_Type::LUA_TNIL => Type::Nil,
            lua_Type::LUA_TBOOLEAN => Type::Boolean,
            lua_Type::LUA_TLIGHTUSERDATA => Type::LightUserdata,
            lua_Type::LUA_TNUMBER => Type::Number,
            lua_Type::LUA_TVECTOR => Type::Vector,
            lua_Type::LUA_TSTRING => Type::String,
            lua_Type::LUA_TTABLE => Type::Table,
            lua_Type::LUA_TFUNCTION => Type::Function,
            lua_Type::LUA_TUSERDATA => Type::Userdata,
            lua_Type::LUA_TTHREAD => Type::Thread,
            lua_Type::LUA_TBUFFER => Type::Buffer,
        }
    }

    /// The kind that the integer `code` stands for.
    pub open spec fn spec_from_code(code: int) -> Option<Type> {
        match lua_Type::spec_from_code(code) {
            Some(raw) => Some(Self::spec_from_raw(raw)),
            None => None,
        }
    }

    /// The machine's kind that this kind stands for.
    pub fn raw(self) -> (raw: lua_Type)
        ensures
            raw == self.spec_raw(),
    {
        match self {
            Type::Absent => lua_Type::LUA_TNONE,
            Type::Nil => lua_Type::LUA_TNIL,
            Type::Boolean => lua_Type::LUA_TBOOLEAN,
            Type::LightUserdata => lua_Type::LUA_TLIGHTUSERDATA,
            Type::Number => lua_Type::LUA_TNUMBER,
            Type::Vector => lua_Type::LUA_TVECTOR,
            Type::String => lua_Type::LUA_TSTRING,
            Type::Table => lua_Type::LUA_TTABLE,
            Type::Function => lua_Type::LUA_TFUNCTION,
            Type::Userdata => lua_Type::LUA_TUSERDATA,
            Type::Thread => lua_Type::LUA_TTHREAD,
            Type::Buffer => lua_Type::LUA_TBUFFER,
        }
    }

    /// The integer the machine uses for this kind.
    pub fn code(self) -> (code: i32)
        ensures
            code == self.spec_raw().spec_code(),
    {
        self.raw().code()
    }

    /// Reads a kind from the integer the machine returned; `None` for an
    /// integer that names no kind.
    pub fn from_code(code: i32) -> (kind: Option<Type>)
        ensures
            kind == Self::spec_from_code(code as int),
    {
        match lua_Type::from_code(code) {
            Some(raw) => Some(Type::from(raw)),
            None => None,
        }
    }

    /// Whether an argument of this kind counts as not given: the index holds
    /// nothing, or holds nil.
    pub fn is_absent_or_nil(self) -> (absent: bool)
        ensures
            absent == (self == Type::Absent || self == Type::Nil),
    {
        match self {
            Type::Absent | Type::Nil => true,
            _ => false,
        }
    }
}

impl From<lua_Type> for Type {
    fn from(value: lua_Type) -> (kind: Type) {
        match value {
            lua_Type::LUA_TNONE => Type::Absent,
            lua_Type::LUA_TNIL => Type::Nil,
            lua_Type::LUA_TBOOLEAN => Type::Boolean,
            lua_Type::LUA_TLIGHTUSERDATA => Type::LightUserdata,
            lua_Type::LUA_TNUMBER => Type::Number,
            lua_Type::LUA_TVECTOR => Type::Vector,
            lua_Type::LUA_TSTRING => Type::String,
            lua_Type::LUA_TTABLE => Type::Table,
            lua_Type::LUA_TFUNCTION => Type::Function,
            lua_Type::LUA_TUSERDATA => Type::Userdata,
            lua_Type::LUA_TTHREAD => Type::Thread,
            lua_Type::LUA_TBUFFER => Type::Buffer,
        }
    }
}

impl vstd::std_specs::convert::FromSpecImpl<lua_Type> for Type {
    open spec fn obeys_from_spec() -> bool {
        true
    }

    open spec fn from_spec(value: lua_Type) -> Type {
        Type::spec_from_raw(value)
    }
}

/// A native function as it is registered with the machine. The name is what
/// the machine shows in error messages and tracebacks.
pub enum Function<C: Config> {
    /// A single entry point. If the call yields, it is not entered again when
    /// the context is resumed.
    Normal { name: &'static str, func: C::Function },
    /// An entry point and the continuation that runs in its place when the
    /// context is resumed after a yield; the continuation receives the status
    /// of the resumption.
    Continuation { name: &'static str, func: C::Function, cont: C::Continuation },
}

/// Which entry point of a native function the machine enters.
#[derive(Clone, Copy, Debug, PartialEq, Eq, Structural)]
pub enum Entry {
    /// The function's entry point, with fresh arguments.
    Call,
    /// The function's continuation, with the status of the resumption.
    Resume,
}

impl<C: Config> Function<C> {
    /// The name of the function.
    pub open spec fn spec_name(self) -> &'static str {
        match self {
            Function::Normal { name, .. } => name,
            Function::Continuation { name, .. } => name,
        }
    }

    /// The function's entry point.
    pub open spec fn spec_func(self) -> C::Function {
        match self {
            Function::Normal { func, .. } => func,
            Function::Continuation { func, .. } => func,
        }
    }

    /// The function's continuation, if it has one.
    pub open spec fn spec_cont(self) -> Option<C::Continuation> {
        match self {
            Function::Normal { .. } => None,
            Function::Continuation { cont, .. } => Some(cont),
        }
    }

    /// Whether the machine can take the name: it holds no zero byte.
    pub open spec fn name_ok(self) -> bool {
        name_is_c_string(self.spec_name())
    }

    /// A function with a single entry point.
    pub fn norm(name: &'static str, func: C::Function) -> (function: Self)
        ensures
            function == (Function::<C>::Normal { name, func }),
    {
        Function::Normal { name, func }
    }

    /// A function with an entry point and a continuation.
    pub fn cont(name: &'static str, func: C::Function, cont: C::Continuation) -> (function: Self)
        ensures
            function == (Function::<C>::Continuation { name, func, cont }),
    {
        Function::Continuation { name, func, cont }
    }

    /// The name of the function.
    pub fn name(&self) -> (name: &'static str)
        ensures
            name == self.spec_name(),
    {
        match self {
            Function::Normal { name, .. } => name,
            Function::Continuation { name, .. } => name,
        }
    }

    /// A copy of the descriptor.
    pub fn duplicate(&self) -> (copy: Self)
        ensures
            copy == *self,
    {
        match self {
            Function::Normal { name, func } => Function::Normal { name: *name, func: *func },
            Function::Continuation { name, func, cont } => Function::Continuation {
                name: *name,
                func: *func,
                cont: *cont,
            },
        }
    }

    /// Which entry point runs when the machine enters the function: on a call
    /// its entry point; on the resumption of a context that yielded inside
    /// it, its continuation if it has one, and nothing of it otherwise.
    pub fn entry(&self, resumed: bool) -> (entry: Option<Entry>)
        ensures
            !resumed ==> entry == Some(Entry::Call),
            resumed && self is Continuation ==> entry == Some(Entry::Resume),
            resumed && self is Normal ==> entry is None,
    {
        if !resumed {
            Some(Entry::Call)
        } else {
            match self {
                Function::Normal { .. } => None,
                Function::Continuation { .. } => Some(Entry::Resume),
            }
        }
    }
}

/// Whether `name` can be handed to the machine as a zero-terminated string:
/// none of its bytes is zero.
pub open spec fn name_is_c_string(name: &str) -> bool {
    forall|i: int| 0 <= i < name.spec_bytes().len() ==> name.spec_bytes()[i] != 0u8
}

/// Tests whether `name` holds no zero byte.
pub fn check_name(name: &str) -> (ok: bool)
    ensures
        ok == name_is_c_string(name),
{
    let bytes = name.as_bytes();
    let n = bytes.len();
    let mut i: usize = 0;
    while i < n
        invariant
            n == bytes@.len(),
            bytes@ == name.spec_bytes(),
            0 <= i <= n,
            forall|j: int| 0 <= j < i ==> bytes@[j] != 0u8,
        decreases n - i,
    {
        if bytes[i] == 0 {
            return false;
        }
        i += 1;
    }
    true
}

/// A persistent reference: a key of the machine's registry under which a
/// value is kept reachable, together with the root context of the instance
/// that owns the registry.
pub struct Ref<C: Config> {
    pub main: ThreadMain<C>,
    pub key: i32,
}

/// What has to be done to give a reference up.
pub enum Release<C: Config> {
    /// The key is reserved; there is nothing to release.
    Nothing,
    /// Release `key` in the registry of the instance rooted at `main`.
    Unref { main: ThreadMain<C>, key: i32 },
}

impl<C: Config> Ref<C> {
    /// Whether `key` is one of the two reserved keys: "no reference" and "a
    /// reference to nil".
    pub open spec fn spec_reserved(key: i32) -> bool {
        key == LUA_NOREF || key == LUA_REFNIL
    }

    /// The reference under `key` in the instance rooted at `main`.
    pub fn new(main: ThreadMain<C>, key: i32) -> (r: Self)
        ensures
            r.main == main,
            r.key == key,
    {
        Ref { main, key }
    }

    /// Whether the reference holds a reserved key and so roots nothing.
    pub fn is_reserved(&self) -> (reserved: bool)
        ensures
            reserved == Self::spec_reserved(self.key),
    {
        self.key == LUA_NOREF || self.key == LUA_REFNIL
    }

    /// Gives the reference up. A reserved key asks for nothing; any other key
    /// is to be released in the registry of the owning instance, whichever
    /// context made the reference.
    pub fn release(self) -> (release: Release<C>)
        ensures
            Self::spec_reserved(self.key) ==> release is Nothing,
            !Self::spec_reserved(self.key) ==> release == (Release::Unref {
                main: self.main,
                key: self.key,
            }),
    {
        if self.is_reserved() {
            Release::Nothing
        } else {
            Release::Unref { main: self.main, key: self.key }
        }
    }
}

/// A status and the machine's status it stands for read back as each other,
/// and no status stands for the machine's compatibility status.
pub proof fn lemma_status_raw_round_trip(status: Status, raw: lua_Status)
    ensures
        Status::spec_from_raw(status.spec_raw()) == Some(status),
        Status::spec_from_raw(raw) == Some(status) ==> status.spec_raw() == raw,
        Status::spec_from_raw(raw) is None <==> raw == lua_Status::LUA_ERRSYNTAX,
        Status::spec_from_code(status.spec_raw().spec_code()) == Some(status),
{
}

/// A kind and the machine's kind it stands for read back as each other.
pub proof fn lemma_type_raw_round_trip(kind: Type, raw: lua_Type)
    ensures
        Type::spec_from_raw(kind.spec_raw()) == kind,
        Type::spec_from_raw(raw).spec_raw() == raw,
        Type::spec_from_code(kind.spec_raw().spec_code()) == Some(kind),
{
}

} // verus!
