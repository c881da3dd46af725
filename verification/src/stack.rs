//! The value surface of a context: a program of stack instructions under
//! construction, and the decisions that turn what the machine reports of a
//! slot into a checked value.

use vstd::prelude::*;
use vstd::string::StringSliceAdditionalSpecFns;

use crate::compiler::Bytecode;
use crate::extra::{name_is_c_string, Function, Ref, Type};
use crate::ops::{Instr, StackOp, Step};
use crate::sys::{lua_Type, LUA_REGISTRYINDEX};
use crate::thread::{Thread, ThreadMain, ThreadRef};
use crate::userdata::Userdata;
use crate::Config;

verus! {

/// The stack of one context, as the host drives it: the instructions that
/// were asked for and have not yet been handed to the machine, in order.
pub struct Stack<C: Config> {
    pub thread: Thread<C>,
    pub ops: Vec<Instr<C, Vec<u8>>>,
}

impl<C: Config> View for Stack<C> {
    type V = Seq<Step<C>>;

    open spec fn view(&self) -> Seq<Step<C>> {
        self.ops@.map_values(|instr: Instr<C, Vec<u8>>| instr@)
    }
}

/// A copy of `bytes` that owns its storage.
pub fn copy_bytes(bytes: &[u8]) -> (copy: Vec<u8>)
    ensures
        copy@ == bytes@,
{
    let mut copy: Vec<u8> = Vec::new();
    let n = bytes.len();
    let mut i: usize = 0;
    while i < n
        invariant
            n == bytes@.len(),
            0 <= i <= n,
            copy@ == bytes@.take(i as int),
        decreases n - i,
    {
        copy.push(bytes[i]);
        assert(bytes@.take(i + 1) =~= bytes@.take(i as int).push(bytes@[i as int]));
        i += 1;
    }
    assert(bytes@.take(n as int) =~= bytes@);
    copy
}

impl<C: Config> Stack<C> {
    /// The program `before` with one more instruction for this stack's own
    /// context.
    pub open spec fn plus(self, before: Seq<Step<C>>, op: StackOp<C, Seq<u8>>) -> Seq<Step<C>> {
        before.push(Instr { on: self.thread, op })
    }

    /// The stack of `thread`, with nothing asked for yet.
    pub fn new(thread: Thread<C>) -> (stack: Self)
        ensures
            stack.thread == thread,
            stack@ == Seq::<Step<C>>::empty(),
    {
        let stack = Stack { thread, ops: Vec::new() };
        assert(stack@ =~= Seq::<Step<C>>::empty());
        stack
    }

    /// The machine's name for the context whose stack this is.
    pub fn as_ptr(&self) -> (id: usize)
        ensures
            id == self.thread.id,
    {
        self.thread.id
    }

    /// The context whose stack this is.
    pub fn thread(&self) -> (thread: Thread<C>)
        ensures
            thread == self.thread,
    {
        self.thread
    }

    /// The root context of the instance, which the machine names `root`.
    pub fn main(&self, root: usize) -> (main: ThreadMain<C>)
        requires
            root != 0,
        ensures
            main.thread.id == root,
    {
        ThreadMain::new(root)
    }

    /// Takes the instructions asked for so far, in order, and leaves none
    /// behind.
    pub fn take(&mut self) -> (program: Vec<Instr<C, Vec<u8>>>)
        ensures
            program@.map_values(|instr: Instr<C, Vec<u8>>| instr@) == old(self)@,
            final(self).thread == old(self).thread,
            final(self)@ == Seq::<Step<C>>::empty(),
    {
        let mut program: Vec<Instr<C, Vec<u8>>> = Vec::new();
        std::mem::swap(&mut self.ops, &mut program);
        assert(self@ =~= Seq::<Step<C>>::empty());
        program
    }

    /// Asks for `op` on the stack of `on`.
    fn emit_on(&mut self, on: Thread<C>, op: StackOp<C, Vec<u8>>)
        ensures
            final(self).thread == old(self).thread,
            final(self)@ == old(self)@.push(Instr { on, op: op@ }),
    {
        let instr = Instr { on, op };
        let ghost step = instr@;
        self.ops.push(instr);
        assert(self@ =~= old(self)@.push(step));
    }

    /// Asks for `op` on this stack.
    fn emit(&mut self, op: StackOp<C, Vec<u8>>)
        ensures
            final(self).thread == old(self).thread,
            final(self)@ == old(self).plus(old(self)@, op@),
    {
        let on = self.thread;
        self.emit_on(on, op);
    }

    /// Sets the top of the stack to `idx`: values above are dropped, new
    /// slots hold nil.
    pub fn set_top(&mut self, idx: i32)
        ensures
            final(self).thread == old(self).thread,
            final(self)@ == old(self).plus(old(self)@, StackOp::SetTop(idx)),
    {
        self.emit(StackOp::SetTop(idx));
    }

    /// Drops the `n` topmost values.
    pub fn pop(&mut self, n: i32)
        ensures
            final(self).thread == old(self).thread,
            final(self)@ == old(self).plus(old(self)@, StackOp::Pop(n)),
    {
        self.emit(StackOp::Pop(n));
    }

    /// Takes out the value at `idx`; the values above it move down.
    pub fn remove(&mut self, idx: i32)
        ensures
            final(self).thread == old(self).thread,
            final(self)@ == old(self).plus(old(self)@, StackOp::Remove(idx)),
    {
        self.emit(StackOp::Remove(idx));
    }

    /// Moves the top value to `idx`; the values from there on move up.
    pub fn insert(&mut self, idx: i32)
        ensures
            final(self).thread == old(self).thread,
            final(self)@ == old(self).plus(old(self)@, StackOp::Insert(idx)),
    {
        self.emit(StackOp::Insert(idx));
    }

    /// Takes the top value off and puts it in place of the value at `idx`.
    pub fn replace(&mut self, idx: i32)
        ensures
            final(self).thread == old(self).thread,
            final(self)@ == old(self).plus(old(self)@, StackOp::Replace(idx)),
    {
        self.emit(StackOp::Replace(idx));
    }

    /// Makes room for `n` more values.
    pub fn reserve(&mut self, n: i32)
        ensures
            final(self).thread == old(self).thread,
            final(self)@ == old(self).plus(old(self)@, StackOp::Reserve(n)),
    {
        self.emit(StackOp::Reserve(n));
    }

    /// Moves the `n` topmost values to the stack of `to`.
    pub fn xmove(&mut self, to: &Thread<C>, n: u32)
        ensures
            final(self).thread == old(self).thread,
            final(self)@ == old(self).plus(old(self)@, StackOp::XMove { to: *to, n }),
    {
        self.emit(StackOp::XMove { to: *to, n });
    }

    /// Pushes a copy of the value at `idx` onto the stack of `to`.
    pub fn xpush(&mut self, to: &Thread<C>, idx: i32)
        ensures
            final(self).thread == old(self).thread,
            final(self)@ == old(self).plus(old(self)@, StackOp::XPush { to: *to, idx }),
    {
        self.emit(StackOp::XPush { to: *to, idx });
    }

    /// Pushes a copy of the value at `idx`.
    pub fn push_copy(&mut self, idx: i32)
        ensures
            final(self).thread == old(self).thread,
            final(self)@ == old(self).plus(old(self)@, StackOp::PushCopy(idx)),
    {
        self.emit(StackOp::PushCopy(idx));
    }

    /// Pushes nil.
    pub fn push_nil(&mut self)
        ensures
            final(self).thread == old(self).thread,
            final(self)@ == old(self).plus(old(self)@, StackOp::PushNil),
    {
        self.emit(StackOp::PushNil);
    }

    /// Pushes a boolean.
    pub fn push_boolean(&mut self, value: bool)
        ensures
            final(self).thread == old(self).thread,
            final(self)@ == old(self).plus(old(self)@, StackOp::PushBoolean(value)),
    {
        self.emit(StackOp::PushBoolean(value));
    }

    /// Pushes a bare host address.
    pub fn push_light_userdata(&mut self, value: usize)
        ensures
            final(self).thread == old(self).thread,
            final(self)@ == old(self).plus(old(self)@, StackOp::PushLightUserdata(value)),
    {
        self.emit(StackOp::PushLightUserdata(value));
    }

    /// Pushes the number with the bit pattern `bits`.
    pub fn push_number(&mut self, bits: u64)
        ensures
            final(self).thread == old(self).thread,
            final(self)@ == old(self).plus(old(self)@, StackOp::PushNumber(bits)),
    {
        self.emit(StackOp::PushNumber(bits));
    }

    /// Pushes the vector whose components have the bit patterns `v`.
    pub fn push_vector(&mut self, v: (u32, u32, u32))
        ensures
            final(self).thread == old(self).thread,
            final(self)@ == old(self).plus(old(self)@, StackOp::PushVector(v.0, v.1, v.2)),
    {
        self.emit(StackOp::PushVector(v.0, v.1, v.2));
    }

    /// Pushes the byte string `s`, whatever bytes it holds.
    pub fn push_string(&mut self, s: &[u8])
        ensures
            final(self).thread == old(self).thread,
            final(self)@ == old(self).plus(old(self)@, StackOp::PushString(s@)),
    {
        self.emit(StackOp::PushString(copy_bytes(s)));
    }

    /// Pushes a new, empty table.
    pub fn push_table(&mut self)
        ensures
            final(self).thread == old(self).thread,
            final(self)@ == old(self).plus(old(self)@, StackOp::PushTable { narr: 0, nrec: 0 }),
    {
        self.emit(StackOp::PushTable { narr: 0, nrec: 0 });
    }

    /// Pushes a new table with room for `narr` array entries and `nrec`
    /// other entries.
    pub fn push_table_with(&mut self, narr: u32, nrec: u32)
        ensures
            final(self).thread == old(self).thread,
            final(self)@ == old(self).plus(old(self)@, StackOp::PushTable { narr, nrec }),
    {
        self.emit(StackOp::PushTable { narr, nrec });
    }

    /// Takes `nups` values off and pushes the native function `func` with
    /// continuation `cont` that captures them. The name must hold no zero
    /// byte.
    pub fn push_extern_closure_cont(
        &mut self,
        name: &'static str,
        nups: u32,
        func: C::Function,
        cont: C::Continuation,
    )
        requires
            name_is_c_string(name),
        ensures
            final(self).thread == old(self).thread,
            final(self)@ == old(self).plus(
                old(self)@,
                StackOp::PushClosure { func: Function::Continuation { name, func, cont }, nups },
            ),
    {
        self.emit(StackOp::PushClosure { func: Function::Continuation { name, func, cont }, nups });
    }

    /// Takes `nups` values off and pushes the native function `func` that
    /// captures them. The name must hold no zero byte.
    pub fn push_extern_closure(&mut self, name: &'static str, nups: u32, func: C::Function)
        requires
            name_is_c_string(name),
        ensures
            final(self).thread == old(self).thread,
            final(self)@ == old(self).plus(
                old(self)@,
                StackOp::PushClosure { func: Function::Normal { name, func }, nups },
            ),
    {
        self.emit(StackOp::PushClosure { func: Function::Normal { name, func }, nups });
    }

    /// Pushes the native function `func` with continuation `cont`; it
    /// captures nothing. The name must hold no zero byte.
    pub fn push_extern_function_cont(
        &mut self,
        name: &'static str,
        func: C::Function,
        cont: C::Continuation,
    )
        requires
            name_is_c_string(name),
        ensures
            final(self).thread == old(self).thread,
            final(self)@ == old(self).plus(
                old(self)@,
                StackOp::PushClosure { func: Function::Continuation { name, func, cont }, nups: 0 },
            ),
    {
        self.push_extern_closure_cont(name, 0, func, cont);
    }

    /// Pushes the native function `func`; it captures nothing. The name must
    /// hold no zero byte.
    pub fn push_extern_function(&mut self, name: &'static str, func: C::Function)
        requires
            name_is_c_string(name),
        ensures
            final(self).thread == old(self).thread,
            final(self)@ == old(self).plus(
                old(self)@,
                StackOp::PushClosure { func: Function::Normal { name, func }, nups: 0 },
            ),
    {
        self.push_extern_closure(name, 0, func);
    }

    /// Pushes the native function that `func` describes, in the shape it was
    /// registered with. The name must hold no zero byte.
    pub fn push_function(&mut self, func: &Function<C>)
        requires
            func.name_ok(),
        ensures
            final(self).thread == old(self).thread,
            final(self)@ == old(self).plus(old(self)@, StackOp::PushClosure { func: *func, nups: 0 }),
    {
        match func {
            Function::Normal { name, func } => self.push_extern_function(name, *func),
            Function::Continuation { name, func, cont } => self.push_extern_function_cont(
                name,
                *func,
                *cont,
            ),
        }
    }

    /// Pushes what loading the compiled chunk `bytecode` under the display
    /// name `name` gives.
    pub fn push_bytecode(&mut self, name: &'static str, bytecode: Bytecode<'_>)
        requires
            name_is_c_string(name),
            bytecode@.len() > 0,
        ensures
            final(self).thread == old(self).thread,
            final(self)@ == old(self).plus(
                old(self)@,
                StackOp::PushBytecode { name, bytes: bytecode@ },
            ),
    {
        self.emit(StackOp::PushBytecode { name, bytes: copy_bytes(bytecode.bytes()) });
    }

    /// Pushes a new block of `size` bytes for a value of the host type `U`,
    /// under the tag of `U`. `registered` is whether the instance has a
    /// destructor for that tag; to push a value of a type that was not opened
    /// is a fault of the host.
    pub fn push_userdata<U: Userdata>(&mut self, size: usize, registered: bool)
        requires
            registered,
        ensures
            final(self).thread == old(self).thread,
            exists|tag: u32|
                call_ensures(U::tag, (), tag) && final(self)@ == old(self).plus(
                    old(self)@,
                    StackOp::PushUserdata { tag, size },
                ),
    {
        self.emit(StackOp::PushUserdata { tag: U::tag(), size });
    }

    /// The instructions that put the object of `thread` on the stack of `me`:
    /// a context pushes its own object directly; the object of another
    /// context is pushed on that context's stack, after room was made there,
    /// and moved over.
    pub open spec fn push_thread_program(me: Thread<C>, thread: Thread<C>) -> Seq<Step<C>> {
        if thread.id == me.id {
            seq![Instr { on: me, op: StackOp::PushThread }]
        } else {
            seq![
                Instr { on: thread, op: StackOp::Reserve(1) },
                Instr { on: thread, op: StackOp::PushThread },
                Instr { on: thread, op: StackOp::XMove { to: me, n: 1 } },
            ]
        }
    }

    /// Pushes the object of `thread`.
    pub fn push_thread(&mut self, thread: &Thread<C>)
        ensures
            final(self).thread == old(self).thread,
            final(self)@ == old(self)@ + Self::push_thread_program(old(self).thread, *thread),
    {
        if thread.id == self.thread.id {
            self.emit(StackOp::PushThread);
            assert(self@ =~= old(self)@ + Self::push_thread_program(old(self).thread, *thread));
        } else {
            let me = self.thread;
            self.emit_on(*thread, StackOp::Reserve(1));
            self.emit_on(*thread, StackOp::PushThread);
            self.emit_on(*thread, StackOp::XMove { to: me, n: 1 });
            assert(self@ =~= old(self)@ + Self::push_thread_program(old(self).thread, *thread));
        }
    }

    /// Pushes the value that `r` keeps alive; nil for a reserved key.
    pub fn push_ref(&mut self, r: &Ref<C>)
        ensures
            final(self).thread == old(self).thread,
            final(self)@ == old(self).plus(
                old(self)@,
                StackOp::TableGetRawI(LUA_REGISTRYINDEX, r.key),
            ),
    {
        self.emit(StackOp::TableGetRawI(LUA_REGISTRYINDEX, r.key));
    }

    /// Replaces the key on top by the value it has in the value at `tblidx`.
    pub fn table_get(&mut self, tblidx: i32)
        ensures
            final(self).thread == old(self).thread,
            final(self)@ == old(self).plus(old(self)@, StackOp::TableGet(tblidx)),
    {
        self.emit(StackOp::TableGet(tblidx));
    }

    /// Stores the top value under the key below it in the value at `tblidx`.
    pub fn table_set(&mut self, tblidx: i32)
        ensures
            final(self).thread == old(self).thread,
            final(self)@ == old(self).plus(old(self)@, StackOp::TableSet(tblidx)),
    {
        self.emit(StackOp::TableSet(tblidx));
    }

    /// Pushes the value of the field `field` of the value at `tblidx`. The
    /// name of the field must hold no zero byte.
    pub fn table_get_field(&mut self, tblidx: i32, field: &'static str)
        requires
            name_is_c_string(field),
        ensures
            final(self).thread == old(self).thread,
            final(self)@ == old(self).plus(old(self)@, StackOp::TableGetField(tblidx, field)),
    {
        self.emit(StackOp::TableGetField(tblidx, field));
    }

    /// Stores the top value in the field `field` of the value at `tblidx`.
    /// The name of the field must hold no zero byte.
    pub fn table_set_field(&mut self, tblidx: i32, field: &'static str)
        requires
            name_is_c_string(field),
        ensures
            final(self).thread == old(self).thread,
            final(self)@ == old(self).plus(old(self)@, StackOp::TableSetField(tblidx, field)),
    {
        self.emit(StackOp::TableSetField(tblidx, field));
    }

    /// As `table_get`, on a table and past any override.
    pub fn table_get_raw(&mut self, tblidx: i32)
        ensures
            final(self).thread == old(self).thread,
            final(self)@ == old(self).plus(old(self)@, StackOp::TableGetRaw(tblidx)),
    {
        self.emit(StackOp::TableGetRaw(tblidx));
    }

    /// As `table_set`, on a table and past any override.
    pub fn table_set_raw(&mut self, tblidx: i32)
        ensures
            final(self).thread == old(self).thread,
            final(self)@ == old(self).plus(old(self)@, StackOp::TableSetRaw(tblidx)),
    {
        self.emit(StackOp::TableSetRaw(tblidx));
    }

    /// Pushes the entry with the integer key `i` of the table at `tblidx`.
    pub fn table_get_raw_i(&mut self, tblidx: i32, i: u32)
        requires
            i <= i32::MAX,
        ensures
            final(self).thread == old(self).thread,
            final(self)@ == old(self).plus(old(self)@, StackOp::TableGetRawI(tblidx, i as i32)),
    {
        self.emit(StackOp::TableGetRawI(tblidx, i as i32));
    }

    /// Stores the top value under the integer key `i` in the table at
    /// `tblidx`.
    pub fn table_set_raw_i(&mut self, tblidx: i32, i: u32)
        requires
            i <= i32::MAX,
        ensures
            final(self).thread == old(self).thread,
            final(self)@ == old(self).plus(old(self)@, StackOp::TableSetRawI(tblidx, i as i32)),
    {
        self.emit(StackOp::TableSetRawI(tblidx, i as i32));
    }

    /// As `table_get_field`, on a table and past any override. The name of
    /// the field must hold no zero byte.
    pub fn table_get_raw_field(&mut self, tblidx: i32, field: &'static str)
        requires
            name_is_c_string(field),
        ensures
            final(self).thread == old(self).thread,
            final(self)@ == old(self).plus(old(self)@, StackOp::TableGetRawField(tblidx, field)),
    {
        self.emit(StackOp::TableGetRawField(tblidx, field));
    }

    /// As `table_set_field`, on a table and past any override. The name of
    /// the field must hold no zero byte.
    pub fn table_set_raw_field(&mut self, tblidx: i32, field: &'static str)
        requires
            name_is_c_string(field),
        ensures
            final(self).thread == old(self).thread,
            final(self)@ == old(self).plus(old(self)@, StackOp::TableSetRawField(tblidx, field)),
    {
        self.emit(StackOp::TableSetRawField(tblidx, field));
    }

    /// Marks the table at `tblidx` read-only, or writable again.
    pub fn table_set_readonly(&mut self, tblidx: i32, readonly: bool)
        ensures
            final(self).thread == old(self).thread,
            final(self)@ == old(self).plus(
                old(self)@,
                StackOp::TableSetReadonly(tblidx, readonly),
            ),
    {
        self.emit(StackOp::TableSetReadonly(tblidx, readonly));
    }

    /// Takes the table on top off and makes it the metatable of every block
    /// with the tag `tag`.
    pub fn set_userdata_metatable(&mut self, tag: u32)
        ensures
            final(self).thread == old(self).thread,
            final(self)@ == old(self).plus(old(self)@, StackOp::SetUserdataMetatable(tag)),
    {
        self.emit(StackOp::SetUserdataMetatable(tag));
    }

    /// Installs the destructor trampoline for blocks with the tag `tag`.
    pub fn set_userdata_dtor(&mut self, tag: u32)
        ensures
            final(self).thread == old(self).thread,
            final(self)@ == old(self).plus(old(self)@, StackOp::SetUserdataDtor(tag)),
    {
        self.emit(StackOp::SetUserdataDtor(tag));
    }
}

/// The text that `bytes` encodes, if they are well-formed UTF-8.
///
/// This is `core::str::from_utf8`: it accepts exactly the well-formed byte
/// sequences, and the text it returns has those bytes.
#[verifier::external_body]
pub(crate) fn utf8_text<'a>(bytes: &'a [u8]) -> (text: Option<&'a str>)
    ensures
        text is Some <==> vstd::utf8::valid_utf8(bytes@),
        text matches Some(s) ==> s.spec_bytes() == bytes@,
{
    std::str::from_utf8(bytes).ok()
}

/// Where a walk over the entries of a table stands.
#[derive(Clone, Copy, Debug, PartialEq, Eq, Structural)]
pub struct TableIter {
    /// The index of the table that is walked.
    pub tblidx: i32,
    /// The cursor to hand to the machine for the next entry.
    pub index: i32,
}

impl TableIter {
    /// What the machine answers when the walk is over.
    pub open spec fn finished(answer: i32) -> bool {
        answer == -1
    }

    /// Takes the machine's answer to the request for the next entry. If the
    /// walk is over, nothing changes and the result is `false`. Otherwise
    /// the key and the value of one entry are the two topmost values of the
    /// stack, the answer is the cursor for the entry after it, and the result
    /// is `true`: the entry is to be visited, and its key and value are to be
    /// dropped after the visit.
    pub fn advance(&mut self, answer: i32) -> (visit: bool)
        ensures
            visit == !Self::finished(answer),
            final(self).tblidx == old(self).tblidx,
            final(self).index == (if visit {
                answer
            } else {
                old(self).index
            }),
    {
        if answer == -1 {
            false
        } else {
            self.index = answer;
            true
        }
    }
}

impl<C: Config> Stack<C> {
    /// The kind that the machine reported.
    pub fn type_of(&self, raw: lua_Type) -> (kind: Type)
        ensures
            kind == Type::spec_from_raw(raw),
    {
        Type::from(raw)
    }

    /// Whether a slot of the reported kind holds no value at all.
    pub fn is_none(&self, kind: Type) -> (is: bool)
        ensures
            is == (kind == Type::Absent),
    {
        kind == Type::Absent
    }

    /// Whether a slot of the reported kind holds nil.
    pub fn is_nil(&self, kind: Type) -> (is: bool)
        ensures
            is == (kind == Type::Nil),
    {
        kind == Type::Nil
    }

    /// Whether a slot of the reported kind holds a boolean.
    pub fn is_boolean(&self, kind: Type) -> (is: bool)
        ensures
            is == (kind == Type::Boolean),
    {
        kind == Type::Boolean
    }

    /// Whether a slot of the reported kind holds a bare host address.
    pub fn is_light_userdata(&self, kind: Type) -> (is: bool)
        ensures
            is == (kind == Type::LightUserdata),
    {
        kind == Type::LightUserdata
    }

    /// Whether a slot of the reported kind holds a number.
    pub fn is_number(&self, kind: Type) -> (is: bool)
        ensures
            is == (kind == Type::Number),
    {
        kind == Type::Number
    }

    /// Whether a slot of the reported kind holds a vector.
    pub fn is_vector(&self, kind: Type) -> (is: bool)
        ensures
            is == (kind == Type::Vector),
    {
        kind == Type::Vector
    }

    /// Whether a slot of the reported kind holds a byte string.
    pub fn is_string(&self, kind: Type) -> (is: bool)
        ensures
            is == (kind == Type::String),
    {
        kind == Type::String
    }

    /// Whether a slot of the reported kind holds a table.
    pub fn is_table(&self, kind: Type) -> (is: bool)
        ensures
            is == (kind == Type::Table),
    {
        kind == Type::Table
    }

    /// Whether a slot of the reported kind holds a function.
    pub fn is_function(&self, kind: Type) -> (is: bool)
        ensures
            is == (kind == Type::Function),
    {
        kind == Type::Function
    }

    /// Whether a slot of the reported kind holds a context.
    pub fn is_thread(&self, kind: Type) -> (is: bool)
        ensures
            is == (kind == Type::Thread),
    {
        kind == Type::Thread
    }

    /// Whether a slot of the reported kind holds a byte buffer.
    pub fn is_buffer(&self, kind: Type) -> (is: bool)
        ensures
            is == (kind == Type::Buffer),
    {
        kind == Type::Buffer
    }

    /// Whether a slot holds a block of the host type `U`. `found` is the tag
    /// that the machine reported for the slot: that of the block in it, or a
    /// negative number where the slot holds no block.
    pub fn is_userdata<U: Userdata>(&self, found: i32) -> (is: bool)
        ensures
            exists|tag: u32| call_ensures(U::tag, (), tag) && is == (found as int == tag as int),
    {
        let tag = U::tag();
        found >= 0 && found as u32 == tag
    }

    /// The truth value that the machine reported as an integer.
    pub fn to_boolean_unchecked(&self, raw: i32) -> (value: bool)
        ensures
            value == (raw != 0),
    {
        raw != 0
    }

    /// Reads a slot of the reported kind `kind` as a value of kind `want`:
    /// the read is made only where the kinds agree.
    fn checked<T, R: FnOnce() -> T>(kind: Type, want: Type, read: R) -> (value: Option<T>)
        requires
            kind == want ==> read.requires(()),
        ensures
            kind == want ==> value is Some && read.ensures((), value->0),
            kind != want ==> value is None,
    {
        if kind == want {
            Some(read())
        } else {
            None
        }
    }

    /// Takes what the machine found at an address: nothing at address zero,
    /// and otherwise what `read` reads there.
    fn present<T, R: FnOnce() -> T>(address: usize, read: R) -> (value: Option<T>)
        requires
            address != 0 ==> read.requires(()),
        ensures
            address != 0 ==> value is Some && read.ensures((), value->0),
            address == 0 ==> value is None,
    {
        if address != 0 {
            Some(read())
        } else {
            None
        }
    }

    /// The boolean in a slot of the reported kind, read by `read`; `None`
    /// where the slot holds no boolean, and then `read` is not called.
    pub fn to_boolean<R: FnOnce() -> bool>(&self, kind: Type, read: R) -> (value: Option<bool>)
        requires
            kind == Type::Boolean ==> read.requires(()),
        ensures
            kind == Type::Boolean ==> value is Some && read.ensures((), value->0),
            kind != Type::Boolean ==> value is None,
    {
        Self::checked(kind, Type::Boolean, read)
    }

    /// The bare host address in a slot of the reported kind, read by `read`;
    /// `None` where the slot holds none, and then `read` is not called.
    pub fn to_light_userdata<R: FnOnce() -> usize>(&self, kind: Type, read: R) -> (value: Option<
        usize,
    >)
        requires
            kind == Type::LightUserdata ==> read.requires(()),
        ensures
            kind == Type::LightUserdata ==> value is Some && read.ensures((), value->0),
            kind != Type::LightUserdata ==> value is None,
    {
        Self::checked(kind, Type::LightUserdata, read)
    }

    /// The bit pattern of the number in a slot of the reported kind, read by
    /// `read`; `None` where the slot holds no number, and then `read` is not
    /// called.
    pub fn to_number<R: FnOnce() -> u64>(&self, kind: Type, read: R) -> (value: Option<u64>)
        requires
            kind == Type::Number ==> read.requires(()),
        ensures
            kind == Type::Number ==> value is Some && read.ensures((), value->0),
            kind != Type::Number ==> value is None,
    {
        Self::checked(kind, Type::Number, read)
    }

    /// The bit patterns of the vector that the machine found at `address`,
    /// read by `read`; `None` where it found none (address zero), and then
    /// `read` is not called.
    pub fn to_vector<R: FnOnce() -> (u32, u32, u32)>(&self, address: usize, read: R) -> (value:
        Option<(u32, u32, u32)>)
        requires
            address != 0 ==> read.requires(()),
        ensures
            address != 0 ==> value is Some && read.ensures((), value->0),
            address == 0 ==> value is None,
    {
        Self::present(address, read)
    }

    /// The bytes of the string in a slot of the reported kind, read by
    /// `read`; `None` where the slot holds no string, and then `read` is not
    /// called (reading a number as a string would change the slot).
    pub fn to_string_slice<'a, R: FnOnce() -> &'a [u8]>(&self, kind: Type, read: R) -> (value:
        Option<&'a [u8]>)
        requires
            kind == Type::String ==> read.requires(()),
        ensures
            kind == Type::String ==> value is Some && read.ensures((), value->0),
            kind != Type::String ==> value is None,
    {
        Self::checked(kind, Type::String, read)
    }

    /// The bytes of a string slot as text; `None` where they are not
    /// well-formed UTF-8.
    pub fn to_string_str_unchecked<'a>(&self, bytes: &'a [u8]) -> (text: Option<&'a str>)
        ensures
            text is Some <==> vstd::utf8::valid_utf8(bytes@),
            text matches Some(s) ==> s.spec_bytes() == bytes@,
    {
        utf8_text(bytes)
    }

    /// The text of the string in a slot of the reported kind, read by `read`;
    /// `None` where the slot holds no string, and where its bytes are not
    /// well-formed UTF-8.
    pub fn to_string_str<'a, R: FnOnce() -> &'a [u8]>(&self, kind: Type, read: R) -> (text:
        Option<&'a str>)
        requires
            kind == Type::String ==> read.requires(()),
        ensures
            kind != Type::String ==> text is None,
            text matches Some(s) ==> exists|bytes: &'a [u8]|
                read.ensures((), bytes) && s.spec_bytes() == bytes@,
            kind == Type::String ==> exists|bytes: &'a [u8]|
                read.ensures((), bytes) && (if vstd::utf8::valid_utf8(bytes@) {
                    text is Some && text->0.spec_bytes() == bytes@
                } else {
                    text is None
                }),
    {
        match Self::checked(kind, Type::String, read) {
            Some(bytes) => utf8_text(bytes),
            None => None,
        }
    }

    /// The address of the block of the wanted host type that the machine
    /// found in a slot; `None` where it found none: the slot holds no block,
    /// or a block with another tag.
    pub fn to_userdata(&self, address: usize) -> (block: Option<usize>)
        ensures
            address != 0 ==> block == Some(address),
            address == 0 ==> block is None,
    {
        if address != 0 {
            Some(address)
        } else {
            None
        }
    }

    /// The context in a slot that is known to hold one, which the machine
    /// names `id`, kept alive by the reference `thref` to the slot.
    pub fn to_thread_unchecked(&self, id: usize, thref: Ref<C>) -> (thread: ThreadRef<C>)
        requires
            id != 0,
        ensures
            thread.thread.id == id,
            thread.thref == thref,
    {
        ThreadRef { thread: Thread::new(id), thref }
    }

    /// The context that the machine found in a slot and names `id`, kept
    /// alive by the reference that `to_ref` makes to the slot; `None` where
    /// it found none (name zero), and then no reference is made.
    pub fn to_thread<R: FnOnce() -> Ref<C>>(&self, id: usize, to_ref: R) -> (thread: Option<
        ThreadRef<C>,
    >)
        requires
            id != 0 ==> to_ref.requires(()),
        ensures
            id == 0 ==> thread is None,
            id != 0 ==> thread is Some && thread->0.thread.id == id && to_ref.ensures(
                (),
                thread->0.thref,
            ),
    {
        if id != 0 {
            let thref = to_ref();
            Some(ThreadRef { thread: Thread::new(id), thref })
        } else {
            None
        }
    }

    /// The context that the machine just created and pushed, and names `id`,
    /// kept alive by the reference `thref` to the top of the stack.
    pub fn push_thread_new(&self, id: usize, thref: Ref<C>) -> (thread: ThreadRef<C>)
        requires
            id != 0,
        ensures
            thread.thread.id == id,
            thread.thref == thref,
    {
        ThreadRef { thread: Thread::new(id), thref }
    }

    /// The buffer that the machine found at `address` with `len` bytes;
    /// `None` where it found none (address zero).
    pub fn to_buffer(&self, address: usize, len: usize) -> (buffer: Option<(usize, usize)>)
        ensures
            address != 0 ==> buffer == Some((address, len)),
            address == 0 ==> buffer is None,
    {
        if address != 0 {
            Some((address, len))
        } else {
            None
        }
    }

    /// The reference under the key `key` that the machine gave for a slot of
    /// this stack. It is owned by the instance, whose root context the
    /// machine names `root`, whichever context this stack belongs to.
    pub fn to_ref(&self, root: usize, key: i32) -> (r: Ref<C>)
        requires
            root != 0,
        ensures
            r.main.thread.id == root,
            r.key == key,
    {
        Ref::new(ThreadMain::new(root), key)
    }

    /// Drops the key and the value of the entry that a walk just visited.
    pub fn iter_leave(&mut self, walk: &TableIter)
        ensures
            final(self).thread == old(self).thread,
            final(self)@ == old(self).plus(old(self)@, StackOp::Pop(2)),
    {
        self.pop(2);
    }

    /// A walk over the entries of the table at `tblidx`, at its start.
    pub fn iter(&self, tblidx: i32) -> (walk: TableIter)
        ensures
            walk.tblidx == tblidx,
            walk.index == 0,
    {
        TableIter { tblidx, index: 0 }
    }
}

} // verus!
