//! A library: named constants, native functions and nested libraries, as
//! plain data, and the program that builds it as a table.

use vstd::prelude::*;
use vstd::std_specs::convert::IntoSpec;
use vstd::string::StringSliceAdditionalSpecFns;

use crate::extra::{check_name, Function};
use crate::frame::Slot;
use crate::ops::{
    grown, lemma_run_concat, lemma_run_cons, lemma_run_one, run, step, Instr, StackOp, Stacks, Step,
};
use crate::stack::Stack;
use crate::thread::Thread;
use crate::Config;

verus! {

/// A constant of a library. Numbers and vectors are held by their bit
/// patterns.
#[derive(Clone, Copy, Debug)]
pub enum LibraryConstant {
    Bool(bool),
    Number(u64),
    String(&'static str),
    Vector(u32, u32, u32),
}

/// One entry of a library.
pub enum LibraryItem<C: Config> {
    Library(Library<C>),
    Constant(LibraryConstant),
    Function(Function<C>),
}

/// A library: its entries by name, in the order in which they were added.
pub struct Library<C: Config>(pub Vec<(&'static str, LibraryItem<C>)>);

impl<C: Config> Default for Library<C> {
    /// A library without entries.
    fn default() -> (lib: Self)
        ensures
            lib.0@ == Seq::<(&'static str, LibraryItem<C>)>::empty(),
    {
        Library(Vec::new())
    }
}

impl From<bool> for LibraryConstant {
    fn from(value: bool) -> (constant: LibraryConstant) {
        LibraryConstant::Bool(value)
    }
}

impl vstd::std_specs::convert::FromSpecImpl<bool> for LibraryConstant {
    open spec fn obeys_from_spec() -> bool {
        true
    }

    open spec fn from_spec(value: bool) -> LibraryConstant {
        LibraryConstant::Bool(value)
    }
}

impl From<&'static str> for LibraryConstant {
    fn from(value: &'static str) -> (constant: LibraryConstant) {
        LibraryConstant::String(value)
    }
}

impl vstd::std_specs::convert::FromSpecImpl<&'static str> for LibraryConstant {
    open spec fn obeys_from_spec() -> bool {
        true
    }

    open spec fn from_spec(value: &'static str) -> LibraryConstant {
        LibraryConstant::String(value)
    }
}

impl<C: Config> From<Library<C>> for LibraryItem<C> {
    fn from(lib: Library<C>) -> (item: LibraryItem<C>) {
        LibraryItem::Library(lib)
    }
}

impl<C: Config> vstd::std_specs::convert::FromSpecImpl<Library<C>> for LibraryItem<C> {
    open spec fn obeys_from_spec() -> bool {
        true
    }

    open spec fn from_spec(lib: Library<C>) -> LibraryItem<C> {
        LibraryItem::Library(lib)
    }
}

impl<C: Config> From<LibraryConstant> for LibraryItem<C> {
    fn from(constant: LibraryConstant) -> (item: LibraryItem<C>) {
        LibraryItem::Constant(constant)
    }
}

impl<C: Config> vstd::std_specs::convert::FromSpecImpl<LibraryConstant> for LibraryItem<C> {
    open spec fn obeys_from_spec() -> bool {
        true
    }

    open spec fn from_spec(constant: LibraryConstant) -> LibraryItem<C> {
        LibraryItem::Constant(constant)
    }
}

impl<C: Config> From<Function<C>> for LibraryItem<C> {
    fn from(func: Function<C>) -> (item: LibraryItem<C>) {
        LibraryItem::Function(func)
    }
}

impl<C: Config> vstd::std_specs::convert::FromSpecImpl<Function<C>> for LibraryItem<C> {
    open spec fn obeys_from_spec() -> bool {
        true
    }

    open spec fn from_spec(func: Function<C>) -> LibraryItem<C> {
        LibraryItem::Function(func)
    }
}

impl LibraryConstant {
    /// The instruction that pushes the constant.
    pub open spec fn op<C: Config>(self) -> StackOp<C, Seq<u8>> {
        match self {
            LibraryConstant::Bool(value) => StackOp::PushBoolean(value),
            LibraryConstant::Number(bits) => StackOp::PushNumber(bits),
            LibraryConstant::String(text) => StackOp::PushString(text.spec_bytes()),
            LibraryConstant::Vector(x, y, z) => StackOp::PushVector(x, y, z),
        }
    }

    /// The program that pushes the constant on the stack of `on`: it makes
    /// room for one value and pushes it.
    pub open spec fn program<C: Config>(self, on: Thread<C>) -> Seq<Step<C>> {
        seq![Instr { on, op: StackOp::Reserve(1) }, Instr { on, op: self.op() }]
    }

    /// Pushes the constant.
    pub fn push<C: Config>(&self, stack: &mut Stack<C>)
        ensures
            final(stack).thread == old(stack).thread,
            final(stack)@ == old(stack)@ + self.program(old(stack).thread),
    {
        stack.reserve(1);
        match self {
            LibraryConstant::Bool(value) => stack.push_boolean(*value),
            LibraryConstant::Number(bits) => stack.push_number(*bits),
            LibraryConstant::String(text) => stack.push_string(text.as_bytes()),
            LibraryConstant::Vector(x, y, z) => stack.push_vector((*x, *y, *z)),
        }
        assert(stack@ =~= old(stack)@ + self.program(old(stack).thread));
    }
}

impl<C: Config> LibraryItem<C> {
    /// Whether the machine can take the name of every function in the item.
    pub open spec fn names_ok(self) -> bool
        decreases self,
    {
        match self {
            LibraryItem::Library(lib) => lib.names_ok(),
            LibraryItem::Constant(_) => true,
            LibraryItem::Function(func) => func.name_ok(),
        }
    }

    /// The program that pushes the item on the stack of `on`: a nested
    /// library as a table of its own, a constant as its value, a function as
    /// a native function that captures nothing.
    pub open spec fn program(self, on: Thread<C>) -> Seq<Step<C>>
        decreases self,
    {
        match self {
            LibraryItem::Library(lib) => lib.program(on),
            LibraryItem::Constant(constant) => constant.program(on),
            LibraryItem::Function(func) => seq![
                Instr { on, op: StackOp::Reserve(1) },
                Instr { on, op: StackOp::PushClosure { func, nups: 0 } },
            ],
        }
    }

    /// Tests whether the machine can take the name of every function in the
    /// item.
    pub fn check_names(&self) -> (ok: bool)
        ensures
            ok == self.names_ok(),
        decreases self,
    {
        match self {
            LibraryItem::Library(lib) => lib.check_names(),
            LibraryItem::Constant(_) => true,
            LibraryItem::Function(func) => check_name(func.name()),
        }
    }

    /// Pushes the item.
    pub fn push(&self, stack: &mut Stack<C>)
        requires
            self.names_ok(),
        ensures
            final(stack).thread == old(stack).thread,
            final(stack)@ == old(stack)@ + self.program(old(stack).thread),
        decreases self,
    {
        match self {
            LibraryItem::Library(lib) => lib.push(stack),
            LibraryItem::Constant(constant) => constant.push(stack),
            LibraryItem::Function(func) => {
                stack.reserve(1);
                stack.push_function(func);
                assert(stack@ =~= old(stack)@ + self.program(old(stack).thread));
            },
        }
    }
}

impl<C: Config> Library<C> {
    /// The entries of the library, in the order in which they were added.
    pub open spec fn entries(self) -> Seq<(&'static str, LibraryItem<C>)> {
        self.0@
    }

    /// Whether the machine can take the name of every function in the
    /// entries from the `i`-th on.
    pub open spec fn entries_ok(items: Seq<(&'static str, LibraryItem<C>)>, i: int) -> bool
        decreases items, items.len() - i,
    {
        if 0 <= i < items.len() {
            items[i].1.names_ok() && Self::entries_ok(items, i + 1)
        } else {
            true
        }
    }

    /// Whether the machine can take the name of every function in the
    /// library, nested libraries included.
    pub open spec fn names_ok(self) -> bool
        decreases self,
    {
        Self::entries_ok(self.0@, 0)
    }

    /// The program that adds one entry to the table on top of the stack of
    /// `on`: it pushes the name, then the item, and stores the item under
    /// the name in the table two slots below.
    pub open spec fn entry_program(entry: (&'static str, LibraryItem<C>), on: Thread<C>) -> Seq<
        Step<C>,
    >
        decreases entry,
    {
        seq![Instr { on, op: StackOp::PushString(entry.0.spec_bytes()) }] + entry.1.program(on)
            + seq![Instr { on, op: StackOp::TableSetRaw(-3i32) }]
    }

    /// The program that adds the entries from the `i`-th on, in order.
    pub open spec fn entries_program(
        items: Seq<(&'static str, LibraryItem<C>)>,
        i: int,
        on: Thread<C>,
    ) -> Seq<Step<C>>
        decreases items, items.len() - i,
    {
        if 0 <= i < items.len() {
            Self::entry_program(items[i], on) + Self::entries_program(items, i + 1, on)
        } else {
            Seq::empty()
        }
    }

    /// The program that builds the library as a fresh table on top of the
    /// stack of `on`: it makes room for two values, pushes an empty table and
    /// adds the entries in order. It is a function of the library and the
    /// context alone.
    pub open spec fn program(self, on: Thread<C>) -> Seq<Step<C>>
        decreases self,
    {
        seq![
            Instr { on, op: StackOp::Reserve(2) },
            Instr { on, op: StackOp::PushTable { narr: 0, nrec: 0 } },
        ] + Self::entries_program(self.0@, 0, on)
    }

    /// The library with what `item` converts to added under `name`, after
    /// its other entries.
    pub fn with<I: Into<LibraryItem<C>>>(self, name: &'static str, item: I) -> (lib: Self)
        ensures
            I::obeys_into_spec() ==> lib.entries() == self.entries().push(
                (name, item.into_spec()),
            ),
            lib.entries().len() == self.entries().len() + 1,
            lib.entries().drop_last() == self.entries(),
            lib.entries().last().0 == name,
    {
        let mut lib = self;
        lib.0.push((name, item.into()));
        assert(lib.entries().drop_last() =~= self.entries());
        lib
    }

    /// The library with `item` added under `name`, after its other entries.
    pub fn with_item(self, name: &'static str, item: LibraryItem<C>) -> (lib: Self)
        ensures
            lib.entries() == self.entries().push((name, item)),
    {
        let mut lib = self;
        lib.0.push((name, item));
        lib
    }

    /// The library with the constant `constant` added under `name`.
    pub fn with_constant(self, name: &'static str, constant: LibraryConstant) -> (lib: Self)
        ensures
            lib.entries() == self.entries().push((name, LibraryItem::Constant(constant))),
    {
        self.with_item(name, LibraryItem::Constant(constant))
    }

    /// The library with the function `func` added under `name`.
    pub fn with_function(self, name: &'static str, func: Function<C>) -> (lib: Self)
        ensures
            lib.entries() == self.entries().push((name, LibraryItem::Function(func))),
    {
        self.with_item(name, LibraryItem::Function(func))
    }

    /// The library with a function of a single entry point added under
    /// `name`, which is also the function's own name.
    pub fn with_function_norm(self, name: &'static str, func: C::Function) -> (lib: Self)
        ensures
            lib.entries() == self.entries().push(
                (name, LibraryItem::Function(Function::Normal { name, func })),
            ),
    {
        self.with_function(name, Function::norm(name, func))
    }

    /// The library with a function with a continuation added under `name`,
    /// which is also the function's own name.
    pub fn with_function_cont(
        self,
        name: &'static str,
        func: C::Function,
        cont: C::Continuation,
    ) -> (lib: Self)
        ensures
            lib.entries() == self.entries().push(
                (name, LibraryItem::Function(Function::Continuation { name, func, cont })),
            ),
    {
        self.with_function(name, Function::cont(name, func, cont))
    }

    /// Tests whether the machine can take the name of every function in the
    /// library, nested libraries included.
    pub fn check_names(&self) -> (ok: bool)
        ensures
            ok == self.names_ok(),
        decreases self,
    {
        let n = self.0.len();
        let mut i: usize = 0;
        while i < n
            invariant
                n == self.0.len(),
                0 <= i <= n,
                Self::entries_ok(self.0@, 0) == Self::entries_ok(self.0@, i as int),
            decreases n - i,
        {
            if !self.0[i].1.check_names() {
                return false;
            }
            i += 1;
        }
        true
    }

    /// Builds the library as a fresh table on top of the stack. The library
    /// itself is left as it is and can be built again, on this stack or on
    /// another.
    pub fn push(&self, stack: &mut Stack<C>)
        requires
            self.names_ok(),
        ensures
            final(stack).thread == old(stack).thread,
            final(stack)@ == old(stack)@ + self.program(old(stack).thread),
        decreases self,
    {
        let ghost on = stack.thread;
        stack.reserve(2);
        stack.push_table();
        let n = self.0.len();
        let mut i: usize = 0;
        assert(stack@ + Self::entries_program(self.0@, 0, on) =~= old(stack)@ + self.program(on));
        while i < n
            invariant
                n == self.0.len(),
                0 <= i <= n,
                stack.thread == on,
                Self::entries_ok(self.0@, i as int),
                stack@ + Self::entries_program(self.0@, i as int, on) == old(stack)@ + self.program(
                    on,
                ),
            decreases n - i,
        {
            let ghost before = stack@;
            let entry = &self.0[i];
            stack.push_string(entry.0.as_bytes());
            entry.1.push(stack);
            stack.table_set_raw(-3);
            proof {
                assert(stack@ =~= before + Self::entry_program(self.0@[i as int], on));
                assert(before + Self::entries_program(self.0@, i as int, on) =~= stack@
                    + Self::entries_program(self.0@, i + 1, on));
            }
            i += 1;
        }
        assert(stack@ + Self::entries_program(self.0@, n as int, on) =~= stack@);
    }
}

impl LibraryConstant {
    /// What the model knows of the constant once it is on a stack.
    pub open spec fn slot(self) -> Slot {
        match self {
            LibraryConstant::Bool(value) => Slot::Boolean(value),
            LibraryConstant::Number(bits) => Slot::Number(bits),
            LibraryConstant::String(text) => Slot::String(text.spec_bytes()),
            LibraryConstant::Vector(x, y, z) => Slot::Vector(x, y, z),
        }
    }
}

impl<C: Config> LibraryItem<C> {
    /// What the model knows of the item once it is on a stack.
    pub open spec fn slot(self) -> Slot {
        match self {
            LibraryItem::Library(_) => Slot::Table,
            LibraryItem::Constant(constant) => constant.slot(),
            LibraryItem::Function(_) => Slot::Function,
        }
    }
}

/// Pushing a constant is accepted on any stack, whatever room it has, and
/// leaves exactly the constant on top, bit for bit.
pub proof fn lemma_constant_push<C: Config>(constant: LibraryConstant, on: Thread<C>, stacks: Stacks)
    requires
        stacks.dom().contains(on.id),
        stacks[on.id].wf(),
    ensures
        run(stacks, constant.program(on)) is Some,
        grown(stacks, run(stacks, constant.program(on))->0, on.id, seq![constant.slot()]),
{
    let first = Instr { on, op: StackOp::<C, Seq<u8>>::Reserve(1) };
    let second = Instr { on, op: constant.op::<C>() };
    assert(constant.program(on) =~= seq![first] + seq![second]);
    lemma_run_cons(stacks, first, seq![second]);
    let middle = step(stacks, first)->0;
    lemma_run_one(middle, second);
    let end = step(middle, second)->0;
    assert(end =~= stacks.insert(on.id, end[on.id]));
    assert(end[on.id].slots =~= stacks[on.id].slots + seq![constant.slot()]);
}

/// Pushing an item is accepted on any stack, whatever room it has, and
/// leaves exactly one value on top: the item.
pub proof fn lemma_item_push<C: Config>(item: LibraryItem<C>, on: Thread<C>, stacks: Stacks)
    requires
        stacks.dom().contains(on.id),
        stacks[on.id].wf(),
        item.names_ok(),
    ensures
        run(stacks, item.program(on)) is Some,
        grown(stacks, run(stacks, item.program(on))->0, on.id, seq![item.slot()]),
    decreases item,
{
    match item {
        LibraryItem::Library(lib) => {
            lemma_library_push(lib, on, stacks);
        },
        LibraryItem::Constant(constant) => {
            lemma_constant_push(constant, on, stacks);
        },
        LibraryItem::Function(func) => {
            let first = Instr { on, op: StackOp::<C, Seq<u8>>::Reserve(1) };
            let second = Instr { on, op: StackOp::<C, Seq<u8>>::PushClosure { func, nups: 0 } };
            assert(item.program(on) =~= seq![first] + seq![second]);
            lemma_run_cons(stacks, first, seq![second]);
            let middle = step(stacks, first)->0;
            lemma_run_one(middle, second);
            assert(middle[on.id].slots.take(middle[on.id].top() - 0) =~= middle[on.id].slots);
            let end = step(middle, second)->0;
            assert(end =~= stacks.insert(on.id, end[on.id]));
            assert(end[on.id].slots =~= stacks[on.id].slots + seq![item.slot()]);
        },
    }
}

/// Adding the entries from the `i`-th on to the table on top of a stack with
/// room for one more value is accepted, and leaves the stack as it was.
pub proof fn lemma_entries_push<C: Config>(
    items: Seq<(&'static str, LibraryItem<C>)>,
    i: int,
    on: Thread<C>,
    stacks: Stacks,
)
    requires
        0 <= i <= items.len(),
        stacks.dom().contains(on.id),
        stacks[on.id].wf(),
        stacks[on.id].top() >= 1,
        stacks[on.id].peek() is Table,
        stacks[on.id].free() >= 1,
        Library::entries_ok(items, i),
    ensures
        run(stacks, Library::entries_program(items, i, on)) is Some,
        grown(stacks, run(stacks, Library::entries_program(items, i, on))->0, on.id, Seq::empty()),
    decreases items, items.len() - i,
{
    if i < items.len() {
        let name = Instr { on, op: StackOp::<C, Seq<u8>>::PushString(items[i].0.spec_bytes()) };
        let store = Instr { on, op: StackOp::<C, Seq<u8>>::TableSetRaw(-3i32) };
        let item = items[i].1;
        let rest = Library::entries_program(items, i + 1, on);
        let whole = Library::entries_program(items, i, on);
        assert(whole == Library::entry_program(items[i], on) + rest);
        assert(Library::entry_program(items[i], on) == seq![name] + item.program(on) + seq![store]);
        assert(whole =~= seq![name] + (item.program(on) + (seq![store] + rest)));
        lemma_run_cons(stacks, name, item.program(on) + (seq![store] + rest));
        let named = step(stacks, name)->0;
        assert(named[on.id].slots == stacks[on.id].slots.push(Slot::String(items[i].0.spec_bytes())));
        lemma_run_concat(named, item.program(on), seq![store] + rest);
        lemma_item_push(item, on, named);
        let valued = run(named, item.program(on))->0;
        lemma_run_cons(valued, store, rest);
        let frame = valued[on.id];
        let base = stacks[on.id].slots;
        assert(frame.slots =~= base.push(Slot::String(items[i].0.spec_bytes())).push(item.slot()));
        assert(frame.position(-3) == Some(frame.top() - 3));
        assert(frame.slots[frame.top() - 3] == base.last());
        assert(frame.table_at(-3));
        assert(frame.slots[frame.top() - 2].is_key());
        let stored = step(valued, store)->0;
        assert(stored[on.id].slots =~= base);
        lemma_entries_push(items, i + 1, on, stored);
        let end = run(stored, rest)->0;
        assert(end =~= stacks.insert(on.id, end[on.id]));
        assert(end[on.id].slots =~= stacks[on.id].slots + Seq::<Slot>::empty());
    } else {
        assert(stacks =~= stacks.insert(on.id, stacks[on.id]));
        assert(stacks[on.id].slots =~= stacks[on.id].slots + Seq::<Slot>::empty());
    }
}

/// Building a library is accepted on any stack, whatever room it has and
/// whatever it holds, and leaves exactly one new value on top: a table.
/// Everything below it, and every other stack, is as it was.
pub proof fn lemma_library_push<C: Config>(lib: Library<C>, on: Thread<C>, stacks: Stacks)
    requires
        stacks.dom().contains(on.id),
        stacks[on.id].wf(),
        lib.names_ok(),
    ensures
        run(stacks, lib.program(on)) is Some,
        grown(stacks, run(stacks, lib.program(on))->0, on.id, seq![Slot::Table]),
    decreases lib,
{
    let room = Instr { on, op: StackOp::<C, Seq<u8>>::Reserve(2) };
    let table = Instr { on, op: StackOp::<C, Seq<u8>>::PushTable { narr: 0, nrec: 0 } };
    let entries = Library::entries_program(lib.0@, 0, on);
    assert(lib.program(on) =~= seq![room] + (seq![table] + entries));
    lemma_run_cons(stacks, room, seq![table] + entries);
    let roomy = step(stacks, room)->0;
    lemma_run_cons(roomy, table, entries);
    let tabled = step(roomy, table)->0;
    lemma_entries_push(lib.0@, 0, on, tabled);
    let end = run(tabled, entries)->0;
    assert(end =~= stacks.insert(on.id, end[on.id]));
    assert(end[on.id].slots =~= stacks[on.id].slots + seq![Slot::Table]);
}

} // verus!
