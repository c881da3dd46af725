//! The capability of one native call: the checks on its arguments, its
//! captured values, and the two ways in which it ends.
//!
//! A failed check is an ordinary value here. It becomes the machine's own
//! error only where the native call hands control back to the machine.

use vstd::prelude::*;
use vstd::string::StringExecFns;
use vstd::string::StringSliceAdditionalSpecFns;

use crate::extra::{Ref, Type};
use crate::ops::StackOp;
use crate::stack::{utf8_text, Stack};
use crate::sys::{lua_upvalueindex, spec_upvalueindex};
use crate::thread::{Thread, ThreadRef};
use crate::userdata::Userdata;
use crate::Config;

verus! {

/// What a native call hands back to the machine: the number of results it
/// left on top of the stack, or the machine's own mark for a yield.
#[derive(Clone, Copy, Debug, PartialEq, Eq, Structural)]
pub struct FnReturn(pub i32);

/// Why an argument of a native call was refused.
#[derive(Debug, PartialEq, Eq)]
pub enum ArgError {
    /// The argument at the one-based position `narg` is wrong for the given
    /// reason.
    Argument { narg: u32, reason: String },
    /// The argument at the one-based position `narg` is missing or not of the
    /// kind that `expected` describes.
    Type { narg: u32, expected: String },
}

impl ArgError {
    /// Whether this is the refusal of argument `narg` for not being what
    /// `expected` describes.
    pub open spec fn is_type(self, narg: u32, expected: Seq<char>) -> bool {
        self matches ArgError::Type { narg: n, expected: e } && n == narg && e@ == expected
    }

    /// Whether this is the refusal of argument `narg` for `reason`.
    pub open spec fn is_argument(self, narg: u32, reason: Seq<char>) -> bool {
        self matches ArgError::Argument { narg: n, reason: r } && n == narg && r@ == reason
    }

    /// The one-based position of the refused argument.
    pub fn narg(&self) -> (narg: u32)
        ensures
            narg == (match *self {
                ArgError::Argument { narg, .. } => narg,
                ArgError::Type { narg, .. } => narg,
            }),
    {
        match self {
            ArgError::Argument { narg, .. } => *narg,
            ArgError::Type { narg, .. } => *narg,
        }
    }
}

/// What follows a description in the description of an argument that may be
/// left out.
pub const OR_NIL: &'static str = " or nil";

/// The description `name` followed by `" or nil"`.
fn or_nil(name: &str) -> (text: String)
    ensures
        text@ == name@ + OR_NIL@,
{
    let mut text = name.to_owned();
    text.append(OR_NIL);
    text
}

/// The capability of one native call on the context `thread`. It is made when
/// the machine enters the native function, and used up when the call ends.
pub struct Context<C: Config> {
    thread: Thread<C>,
}

impl<C: Config> Context<C> {
    /// The context on which the call runs.
    pub closed spec fn spec_thread(self) -> Thread<C> {
        self.thread
    }

    /// The capability of the call that the machine just entered on the
    /// context it names `id`.
    pub fn new(id: usize) -> (ctx: Self)
        requires
            id != 0,
        ensures
            ctx.spec_thread().id == id,
    {
        Context { thread: Thread::new(id) }
    }

    /// The context on which the call runs.
    pub fn thread(&self) -> (thread: Thread<C>)
        ensures
            thread == self.spec_thread(),
    {
        self.thread
    }

    /// The stack of the call, with nothing asked for yet.
    pub fn stack(&self) -> (stack: Stack<C>)
        ensures
            stack.thread == self.spec_thread(),
            stack@.len() == 0,
    {
        Stack::new(self.thread)
    }

    /// The refusal of argument `narg` for `reason`.
    pub fn arg_error(&self, narg: u32, reason: &str) -> (error: ArgError)
        ensures
            error.is_argument(narg, reason@),
    {
        ArgError::Argument { narg, reason: reason.to_owned() }
    }

    /// The refusal of argument `narg` for not being what `expected`
    /// describes.
    pub fn arg_type_error(&self, narg: u32, expected: &str) -> (error: ArgError)
        ensures
            error.is_type(narg, expected@),
    {
        ArgError::Type { narg, expected: expected.to_owned() }
    }

    /// An argument that has to be there: the value that was read, or the
    /// refusal where none was.
    fn required<T>(&self, narg: u32, value: Option<T>, expected: &str) -> (arg: Result<T, ArgError>)
        ensures
            value matches Some(v) ==> arg == Ok::<T, ArgError>(v),
            value is None ==> arg is Err && arg->Err_0.is_type(narg, expected@),
    {
        match value {
            Some(v) => Ok(v),
            None => Err(self.arg_type_error(narg, expected)),
        }
    }

    /// An argument that may be left out: nothing where the slot holds
    /// nothing or nil, what `read` reads where it holds the wanted kind, and
    /// the refusal where it holds anything else.
    fn optional<T, R: FnOnce() -> T>(
        &self,
        narg: u32,
        kind: Type,
        want: Type,
        read: R,
        expected: &str,
    ) -> (arg: Result<Option<T>, ArgError>)
        requires
            want != Type::Nil,
            want != Type::Absent,
            kind == want ==> read.requires(()),
        ensures
            kind == Type::Nil || kind == Type::Absent ==> arg == Ok::<Option<T>, ArgError>(None),
            kind == want ==> arg is Ok && arg->Ok_0 is Some && read.ensures((), arg->Ok_0->0),
            kind != Type::Nil && kind != Type::Absent && kind != want ==> arg is Err
                && arg->Err_0.is_type(narg, expected@),
    {
        if kind.is_absent_or_nil() {
            Ok(None)
        } else if kind == want {
            Ok(Some(read()))
        } else {
            Err(self.arg_type_error(narg, expected))
        }
    }

    /// The boolean argument `narg`; `kind` is the kind of its slot, and
    /// `read` reads the slot.
    pub fn arg_boolean<R: FnOnce() -> bool>(&self, narg: u32, kind: Type, read: R) -> (arg: Result<
        bool,
        ArgError,
    >)
        requires
            kind == Type::Boolean ==> read.requires(()),
        ensures
            kind == Type::Boolean ==> arg is Ok && read.ensures((), arg->Ok_0),
            kind != Type::Boolean ==> arg is Err && arg->Err_0.is_type(narg, "boolean"@),
    {
        let value = if kind == Type::Boolean {
            Some(read())
        } else {
            None
        };
        self.required(narg, value, "boolean")
    }

    /// The boolean argument `narg`, which may be left out.
    pub fn arg_boolean_opt<R: FnOnce() -> bool>(&self, narg: u32, kind: Type, read: R) -> (arg:
        Result<Option<bool>, ArgError>)
        requires
            kind == Type::Boolean ==> read.requires(()),
        ensures
            kind == Type::Nil || kind == Type::Absent ==> arg == Ok::<Option<bool>, ArgError>(None),
            kind == Type::Boolean ==> arg is Ok && arg->Ok_0 is Some && read.ensures(
                (),
                arg->Ok_0->0,
            ),
            kind != Type::Nil && kind != Type::Absent && kind != Type::Boolean ==> arg is Err
                && arg->Err_0.is_type(narg, "boolean or nil"@),
    {
        self.optional(narg, kind, Type::Boolean, read, "boolean or nil")
    }

    /// The number argument `narg`, by its bit pattern.
    pub fn arg_number<R: FnOnce() -> u64>(&self, narg: u32, kind: Type, read: R) -> (arg: Result<
        u64,
        ArgError,
    >)
        requires
            kind == Type::Number ==> read.requires(()),
        ensures
            kind == Type::Number ==> arg is Ok && read.ensures((), arg->Ok_0),
            kind != Type::Number ==> arg is Err && arg->Err_0.is_type(narg, "number"@),
    {
        let value = if kind == Type::Number {
            Some(read())
        } else {
            None
        };
        self.required(narg, value, "number")
    }

    /// The number argument `narg`, which may be left out.
    pub fn arg_number_opt<R: FnOnce() -> u64>(&self, narg: u32, kind: Type, read: R) -> (arg:
        Result<Option<u64>, ArgError>)
        requires
            kind == Type::Number ==> read.requires(()),
        ensures
            kind == Type::Nil || kind == Type::Absent ==> arg == Ok::<Option<u64>, ArgError>(None),
            kind == Type::Number ==> arg is Ok && arg->Ok_0 is Some && read.ensures(
                (),
                arg->Ok_0->0,
            ),
            kind != Type::Nil && kind != Type::Absent && kind != Type::Number ==> arg is Err
                && arg->Err_0.is_type(narg, "number or nil"@),
    {
        self.optional(narg, kind, Type::Number, read, "number or nil")
    }

    /// The vector argument `narg`, by the bit patterns of its components;
    /// `address` is where the machine found a vector in the slot, zero where
    /// it found none.
    pub fn arg_vector<R: FnOnce() -> (u32, u32, u32)>(&self, narg: u32, address: usize, read: R)
        -> (arg: Result<(u32, u32, u32), ArgError>)
        requires
            address != 0 ==> read.requires(()),
        ensures
            address != 0 ==> arg is Ok && read.ensures((), arg->Ok_0),
            address == 0 ==> arg is Err && arg->Err_0.is_type(narg, "vector"@),
    {
        let value = if address != 0 {
            Some(read())
        } else {
            None
        };
        self.required(narg, value, "vector")
    }

    /// The vector argument `narg`, which may be left out.
    pub fn arg_vector_opt<R: FnOnce() -> (u32, u32, u32)>(&self, narg: u32, kind: Type, read: R)
        -> (arg: Result<Option<(u32, u32, u32)>, ArgError>)
        requires
            kind == Type::Vector ==> read.requires(()),
        ensures
            kind == Type::Nil || kind == Type::Absent ==> arg == Ok::<
                Option<(u32, u32, u32)>,
                ArgError,
            >(None),
            kind == Type::Vector ==> arg is Ok && arg->Ok_0 is Some && read.ensures(
                (),
                arg->Ok_0->0,
            ),
            kind != Type::Nil && kind != Type::Absent && kind != Type::Vector ==> arg is Err
                && arg->Err_0.is_type(narg, "vector or nil"@),
    {
        self.optional(narg, kind, Type::Vector, read, "vector or nil")
    }

    /// The string argument `narg`, as bytes.
    pub fn arg_string_slice<'a, R: FnOnce() -> &'a [u8]>(&self, narg: u32, kind: Type, read: R)
        -> (arg: Result<&'a [u8], ArgError>)
        requires
            kind == Type::String ==> read.requires(()),
        ensures
            kind == Type::String ==> arg is Ok && read.ensures((), arg->Ok_0),
            kind != Type::String ==> arg is Err && arg->Err_0.is_type(narg, "string"@),
    {
        let value = if kind == Type::String {
            Some(read())
        } else {
            None
        };
        self.required(narg, value, "string")
    }

    /// The string argument `narg`, as bytes, which may be left out.
    pub fn arg_string_slice_opt<'a, R: FnOnce() -> &'a [u8]>(
        &self,
        narg: u32,
        kind: Type,
        read: R,
    ) -> (arg: Result<Option<&'a [u8]>, ArgError>)
        requires
            kind == Type::String ==> read.requires(()),
        ensures
            kind == Type::Nil || kind == Type::Absent ==> arg == Ok::<Option<&'a [u8]>, ArgError>(
                None,
            ),
            kind == Type::String ==> arg is Ok && arg->Ok_0 is Some && read.ensures(
                (),
                arg->Ok_0->0,
            ),
            kind != Type::Nil && kind != Type::Absent && kind != Type::String ==> arg is Err
                && arg->Err_0.is_type(narg, "string or nil"@),
    {
        self.optional(narg, kind, Type::String, read, "string or nil")
    }

    /// The string argument `narg`, as text. A string whose bytes are not
    /// well-formed UTF-8 is refused like a value of another kind.
    pub fn arg_string_str<'a, R: FnOnce() -> &'a [u8]>(&self, narg: u32, kind: Type, read: R) -> (arg:
        Result<&'a str, ArgError>)
        requires
            kind == Type::String ==> read.requires(()),
        ensures
            arg matches Ok(text) ==> kind == Type::String && exists|bytes: &'a [u8]|
                read.ensures((), bytes) && text.spec_bytes() == bytes@,
            arg matches Err(error) ==> error.is_type(narg, "utf-8 string"@),
            kind == Type::String ==> exists|bytes: &'a [u8]|
                read.ensures((), bytes) && (if vstd::utf8::valid_utf8(bytes@) {
                    arg is Ok && arg->Ok_0.spec_bytes() == bytes@
                } else {
                    arg is Err
                }),
            kind != Type::String ==> arg is Err,
    {
        let value = if kind == Type::String {
            utf8_text(read())
        } else {
            None
        };
        self.required(narg, value, "utf-8 string")
    }

    /// The string argument `narg`, as text, which may be left out. A string
    /// whose bytes are not well-formed UTF-8 is refused.
    pub fn arg_string_str_opt<'a, R: FnOnce() -> &'a [u8]>(&self, narg: u32, kind: Type, read: R)
        -> (arg: Result<Option<&'a str>, ArgError>)
        requires
            kind == Type::String ==> read.requires(()),
        ensures
            kind == Type::Nil || kind == Type::Absent ==> arg == Ok::<Option<&'a str>, ArgError>(
                None,
            ),
            kind == Type::String ==> exists|bytes: &'a [u8]|
                read.ensures((), bytes) && (if vstd::utf8::valid_utf8(bytes@) {
                    arg is Ok && arg->Ok_0 is Some && arg->Ok_0->0.spec_bytes() == bytes@
                } else {
                    arg is Err && arg->Err_0.is_type(narg, "utf-8 string"@)
                }),
            kind != Type::Nil && kind != Type::Absent && kind != Type::String ==> arg is Err
                && arg->Err_0.is_type(narg, "utf-8 string or nil"@),
    {
        if kind.is_absent_or_nil() {
            Ok(None)
        } else if kind == Type::String {
            match utf8_text(read()) {
                Some(text) => Ok(Some(text)),
                None => Err(self.arg_type_error(narg, "utf-8 string")),
            }
        } else {
            Err(self.arg_type_error(narg, "utf-8 string or nil"))
        }
    }

    /// Checks that argument `narg` is a table.
    pub fn arg_table(&self, narg: u32, kind: Type) -> (arg: Result<(), ArgError>)
        ensures
            kind == Type::Table ==> arg is Ok,
            kind != Type::Table ==> arg is Err && arg->Err_0.is_type(narg, "table"@),
    {
        if kind == Type::Table {
            Ok(())
        } else {
            Err(self.arg_type_error(narg, "table"))
        }
    }

    /// Checks that argument `narg` is a table or left out; `Some` where it is
    /// a table.
    pub fn arg_table_opt(&self, narg: u32, kind: Type) -> (arg: Result<Option<()>, ArgError>)
        ensures
            kind == Type::Nil || kind == Type::Absent ==> arg == Ok::<Option<()>, ArgError>(None),
            kind == Type::Table ==> arg == Ok::<Option<()>, ArgError>(Some(())),
            kind != Type::Nil && kind != Type::Absent && kind != Type::Table ==> arg is Err
                && arg->Err_0.is_type(narg, "table or nil"@),
    {
        if kind.is_absent_or_nil() {
            Ok(None)
        } else if kind == Type::Table {
            Ok(Some(()))
        } else {
            Err(self.arg_type_error(narg, "table or nil"))
        }
    }

    /// Checks that argument `narg` is a function.
    pub fn arg_function(&self, narg: u32, kind: Type) -> (arg: Result<(), ArgError>)
        ensures
            kind == Type::Function ==> arg is Ok,
            kind != Type::Function ==> arg is Err && arg->Err_0.is_type(narg, "function"@),
    {
        if kind == Type::Function {
            Ok(())
        } else {
            Err(self.arg_type_error(narg, "function"))
        }
    }

    /// Checks that argument `narg` is a function or left out; `Some` where it
    /// is a function.
    pub fn arg_function_opt(&self, narg: u32, kind: Type) -> (arg: Result<Option<()>, ArgError>)
        ensures
            kind == Type::Nil || kind == Type::Absent ==> arg == Ok::<Option<()>, ArgError>(None),
            kind == Type::Function ==> arg == Ok::<Option<()>, ArgError>(Some(())),
            kind != Type::Nil && kind != Type::Absent && kind != Type::Function ==> arg is Err
                && arg->Err_0.is_type(narg, "function or nil"@),
    {
        if kind.is_absent_or_nil() {
            Ok(None)
        } else if kind == Type::Function {
            Ok(Some(()))
        } else {
            Err(self.arg_type_error(narg, "function or nil"))
        }
    }

    /// The argument `narg` as a block of the host type `U`; `address` is
    /// where the machine found a block with the tag of `U` in the slot, zero
    /// where it found none. The refusal names the type.
    pub fn arg_userdata<U: Userdata>(&self, narg: u32, address: usize) -> (arg: Result<
        usize,
        ArgError,
    >)
        ensures
            address != 0 ==> arg == Ok::<usize, ArgError>(address),
            address == 0 ==> arg is Err && exists|name: &'static str|
                call_ensures(U::name, (), name) && arg->Err_0.is_type(narg, name@),
    {
        if address != 0 {
            Ok(address)
        } else {
            Err(self.arg_type_error(narg, U::name()))
        }
    }

    /// The argument `narg` as a block of the host type `U`, which may be left
    /// out; `find` asks the machine for a block with the tag of `U` in the
    /// slot and gives its address, zero where there is none. Nothing is
    /// returned only for an argument that is absent or nil. A slot that holds
    /// a block is asked for: the block of `U` that the machine finds is
    /// returned, and where it finds none (the block has another tag) the
    /// argument is refused, as an argument of any other kind is.
    pub fn arg_userdata_opt<U: Userdata, R: FnOnce() -> usize>(
        &self,
        narg: u32,
        kind: Type,
        find: R,
    ) -> (arg: Result<Option<usize>, ArgError>)
        requires
            kind == Type::Userdata ==> find.requires(()),
        ensures
            kind == Type::Nil || kind == Type::Absent ==> arg == Ok::<Option<usize>, ArgError>(None),
            arg matches Ok(Some(address)) ==> kind == Type::Userdata && address != 0
                && find.ensures((), address),
            kind == Type::Userdata ==> exists|address: usize|
                find.ensures((), address) && (if address != 0 {
                    arg == Ok::<Option<usize>, ArgError>(Some(address))
                } else {
                    arg is Err
                }),
            kind != Type::Nil && kind != Type::Absent && kind != Type::Userdata ==> arg is Err,
            arg matches Err(error) ==> exists|name: &'static str|
                call_ensures(U::name, (), name) && error.is_type(narg, name@ + OR_NIL@),
    {
        if kind.is_absent_or_nil() {
            Ok(None)
        } else {
            let address = if kind == Type::Userdata {
                find()
            } else {
                0
            };
            if address != 0 {
                Ok(Some(address))
            } else {
                let name = U::name();
                let expected = or_nil(name);
                Err(ArgError::Type { narg, expected })
            }
        }
    }

    /// The context argument `narg`; `id` is the machine's name for the
    /// context in the slot, zero where the slot holds none, and `to_ref`
    /// makes the reference that keeps it alive.
    pub fn arg_thread<R: FnOnce() -> Ref<C>>(&self, narg: u32, id: usize, to_ref: R) -> (arg:
        Result<ThreadRef<C>, ArgError>)
        requires
            id != 0 ==> to_ref.requires(()),
        ensures
            id != 0 ==> arg is Ok && arg->Ok_0.thread.id == id && to_ref.ensures(
                (),
                arg->Ok_0.thref,
            ),
            id == 0 ==> arg is Err && arg->Err_0.is_type(narg, "thread"@),
    {
        let value = if id != 0 {
            let thref = to_ref();
            Some(ThreadRef { thread: Thread::new(id), thref })
        } else {
            None
        };
        self.required(narg, value, "thread")
    }

    /// The context argument `narg`, which may be left out; `read` reads the
    /// context in the slot and references it.
    pub fn arg_thread_opt<R: FnOnce() -> ThreadRef<C>>(&self, narg: u32, kind: Type, read: R) -> (arg:
        Result<Option<ThreadRef<C>>, ArgError>)
        requires
            kind == Type::Thread ==> read.requires(()),
        ensures
            kind == Type::Nil || kind == Type::Absent ==> arg is Ok && arg->Ok_0 is None,
            kind == Type::Thread ==> arg is Ok && arg->Ok_0 is Some && read.ensures(
                (),
                arg->Ok_0->0,
            ),
            kind != Type::Nil && kind != Type::Absent && kind != Type::Thread ==> arg is Err
                && arg->Err_0.is_type(narg, "thread or nil"@),
    {
        if kind.is_absent_or_nil() {
            Ok(None)
        } else if kind == Type::Thread {
            Ok(Some(read()))
        } else {
            Err(self.arg_type_error(narg, "thread or nil"))
        }
    }

    /// The buffer argument `narg`, as its address and length; `address` is
    /// where the machine found a buffer in the slot, zero where it found
    /// none.
    pub fn arg_buffer(&self, narg: u32, address: usize, len: usize) -> (arg: Result<
        (usize, usize),
        ArgError,
    >)
        ensures
            address != 0 ==> arg == Ok::<(usize, usize), ArgError>((address, len)),
            address == 0 ==> arg is Err && arg->Err_0.is_type(narg, "buffer"@),
    {
        let value = if address != 0 {
            Some((address, len))
        } else {
            None
        };
        self.required(narg, value, "buffer")
    }

    /// The buffer argument `narg`, which may be left out.
    pub fn arg_buffer_opt<R: FnOnce() -> (usize, usize)>(&self, narg: u32, kind: Type, read: R)
        -> (arg: Result<Option<(usize, usize)>, ArgError>)
        requires
            kind == Type::Buffer ==> read.requires(()),
        ensures
            kind == Type::Nil || kind == Type::Absent ==> arg == Ok::<
                Option<(usize, usize)>,
                ArgError,
            >(None),
            kind == Type::Buffer ==> arg is Ok && arg->Ok_0 is Some && read.ensures(
                (),
                arg->Ok_0->0,
            ),
            kind != Type::Nil && kind != Type::Absent && kind != Type::Buffer ==> arg is Err
                && arg->Err_0.is_type(narg, "buffer or nil"@),
    {
        self.optional(narg, kind, Type::Buffer, read, "buffer or nil")
    }

    /// The largest number of a captured value that has a pseudo-index.
    pub open spec fn upvalue_ok(nup: u32) -> bool {
        i32::MIN <= spec_upvalueindex(nup as int)
    }

    /// Pushes a copy of the `nup`-th value captured by the running function.
    pub fn push_upvalue(&self, stack: &mut Stack<C>, nup: u32)
        requires
            Self::upvalue_ok(nup),
        ensures
            final(stack).thread == old(stack).thread,
            final(stack)@ == old(stack).plus(
                old(stack)@,
                StackOp::PushCopy(spec_upvalueindex(nup as int) as i32),
            ),
    {
        stack.push_copy(lua_upvalueindex(nup as i32));
    }

    /// Takes the top value off and makes it the `nup`-th value captured by
    /// the running function.
    pub fn set_upvalue(&self, stack: &mut Stack<C>, nup: u32)
        requires
            Self::upvalue_ok(nup),
        ensures
            final(stack).thread == old(stack).thread,
            final(stack)@ == old(stack).plus(
                old(stack)@,
                StackOp::Replace(spec_upvalueindex(nup as int) as i32),
            ),
    {
        stack.replace(lua_upvalueindex(nup as i32));
    }

    /// Ends the call without results.
    pub fn ret(self) -> (ret: FnReturn)
        ensures
            ret == FnReturn(0),
    {
        FnReturn(0)
    }

    /// Ends the call with the `n` topmost values as its results.
    pub fn ret_with(self, n: u32) -> (ret: FnReturn)
        requires
            n <= i32::MAX,
        ensures
            ret == FnReturn(n as i32),
    {
        FnReturn(n as i32)
    }

    /// Suspends the context without yielding a value; `suspend` tells the
    /// machine, and what it answers is what the call hands back.
    pub fn yld<Y: FnOnce(i32) -> i32>(self, suspend: Y) -> (ret: FnReturn)
        requires
            suspend.requires((0i32,)),
        ensures
            suspend.ensures((0i32,), ret.0),
    {
        FnReturn(suspend(0))
    }

    /// Suspends the context and yields the `n` topmost values; `suspend`
    /// tells the machine, and what it answers is what the call hands back.
    pub fn yld_with<Y: FnOnce(i32) -> i32>(self, n: u32, suspend: Y) -> (ret: FnReturn)
        requires
            n <= i32::MAX,
            suspend.requires((n as i32,)),
        ensures
            suspend.ensures((n as i32,), ret.0),
    {
        FnReturn(suspend(n as i32))
    }
}

} // verus!
