//! One instance of the machine, as the host keeps track of it: the
//! instructions waiting for its root context, the libraries it has opened and
//! the host types it knows.

use vstd::prelude::*;
use vstd::string::StringSliceAdditionalSpecFns;

use crate::extra::{name_is_c_string, Function, Ref};
use crate::library::Library;
use crate::ops::{Instr, StackOp, Step};
use crate::stack::Stack;
use crate::sys::LUA_GLOBALSINDEX;
use crate::thread::{Thread, ThreadMain, ThreadRef};
use crate::userdata::{Methods, Userdata};
use crate::Config;

verus! {

/// The field of a metatable that holds the name of the host type.
pub const TYPE_FIELD: &'static str = "__type";

/// The field of a metatable that serves method calls.
pub const NAMECALL_FIELD: &'static str = "__namecall";

/// The field of a metatable that serves attribute lookups.
pub const INDEX_FIELD: &'static str = "__index";

/// The machine can take the names of the three fields of a metatable that
/// this crate sets.
pub proof fn lemma_field_names()
    ensures
        name_is_c_string(TYPE_FIELD),
        name_is_c_string(NAMECALL_FIELD),
        name_is_c_string(INDEX_FIELD),
{
    reveal_strlit("__type");
    reveal_strlit("__namecall");
    reveal_strlit("__index");
    vstd::utf8::is_ascii_chars_encode_utf8(TYPE_FIELD@);
    vstd::utf8::is_ascii_chars_encode_utf8(NAMECALL_FIELD@);
    vstd::utf8::is_ascii_chars_encode_utf8(INDEX_FIELD@);
    assert forall|i: int| 0 <= i < TYPE_FIELD.spec_bytes().len() implies TYPE_FIELD.spec_bytes()[i]
        != 0u8 by {
        assert(TYPE_FIELD@[i] as u8 == TYPE_FIELD.spec_bytes()[i]);
    }
    assert forall|i: int|
        0 <= i < NAMECALL_FIELD.spec_bytes().len() implies NAMECALL_FIELD.spec_bytes()[i]
        != 0u8 by {
        assert(NAMECALL_FIELD@[i] as u8 == NAMECALL_FIELD.spec_bytes()[i]);
    }
    assert forall|i: int|
        0 <= i < INDEX_FIELD.spec_bytes().len() implies INDEX_FIELD.spec_bytes()[i] != 0u8 by {
        assert(INDEX_FIELD@[i] as u8 == INDEX_FIELD.spec_bytes()[i]);
    }
}

/// One step of taking an instance down.
#[derive(Clone, Copy, Debug, PartialEq, Eq, Structural)]
pub enum Teardown {
    /// Close the machine; this runs every pending finalizer.
    CloseMachine,
    /// Drop the data shared by the instance.
    DropMainData,
    /// Drop the allocator.
    DropAllocator,
}

/// One instance of the machine.
pub struct State<C: Config> {
    /// The stack of the root context.
    pub stack: Stack<C>,
    /// The libraries that were opened, by the name they were opened under.
    pub libraries: Vec<(&'static str, Library<C>)>,
    /// The tags of the host types that were opened, each once.
    pub userdata: Vec<u32>,
}

impl<C: Config> State<C> {
    /// Whether the host type with the tag `tag` was opened in this instance.
    pub open spec fn registered(self, tag: u32) -> bool {
        self.userdata@.contains(tag)
    }

    /// The program that opens `library` under the global name `name`: it
    /// makes room for three values, pushes the name, builds the library and
    /// stores it under the name in the table of globals.
    pub open spec fn library_program(on: Thread<C>, name: &'static str, library: Library<C>) -> Seq<
        Step<C>,
    > {
        seq![
            Instr { on, op: StackOp::Reserve(3) },
            Instr { on, op: StackOp::PushString(name.spec_bytes()) },
        ] + library.program(on) + seq![Instr { on, op: StackOp::TableSetRaw(LUA_GLOBALSINDEX) }]
    }

    /// The program that adds one method to the method table on top of the
    /// stack.
    pub open spec fn method_program(on: Thread<C>, method: (&'static str, Function<C>)) -> Seq<
        Step<C>,
    > {
        seq![
            Instr { on, op: StackOp::PushString(method.0.spec_bytes()) },
            Instr { on, op: StackOp::PushClosure { func: method.1, nups: 0 } },
            Instr { on, op: StackOp::TableSetRaw(-3i32) },
        ]
    }

    /// The program that adds the methods from the `i`-th on, in order.
    pub open spec fn methods_program(
        on: Thread<C>,
        methods: Seq<(&'static str, Function<C>)>,
        i: int,
    ) -> Seq<Step<C>>
        decreases methods.len() - i,
    {
        if 0 <= i < methods.len() {
            Self::method_program(on, methods[i]) + Self::methods_program(on, methods, i + 1)
        } else {
            Seq::empty()
        }
    }

    /// The program that opens the host type with tag `tag` and name `name`:
    /// it builds a metatable that holds the name of the type and, for both
    /// attribute lookups and method calls, one table of the methods; it makes
    /// that table the metatable of every block with the tag, and installs the
    /// destructor for the tag.
    pub open spec fn userdata_program(
        on: Thread<C>,
        tag: u32,
        name: &'static str,
        methods: Seq<(&'static str, Function<C>)>,
    ) -> Seq<Step<C>> {
        seq![
            Instr { on, op: StackOp::PushTable { narr: 0, nrec: 0 } },
            Instr { on, op: StackOp::PushString(name.spec_bytes()) },
            Instr { on, op: StackOp::TableSetRawField(-2i32, TYPE_FIELD) },
            Instr { on, op: StackOp::PushTable { narr: 0, nrec: methods.len() as usize as u32 } },
        ] + Self::methods_program(on, methods, 0) + seq![
            Instr { on, op: StackOp::PushCopy(-1i32) },
            Instr { on, op: StackOp::TableSetRawField(-3i32, NAMECALL_FIELD) },
            Instr { on, op: StackOp::TableSetRawField(-2i32, INDEX_FIELD) },
            Instr { on, op: StackOp::SetUserdataMetatable(tag) },
            Instr { on, op: StackOp::SetUserdataDtor(tag) },
        ]
    }

    /// Whether `after` is `before` with the host type of tag `tag` and name
    /// `name` opened with `methods`: the program that opens it waits on the
    /// root stack, and the tag is known. Opening a type again replaces what
    /// the machine holds for its tag.
    pub open spec fn opened(
        before: Self,
        after: Self,
        tag: u32,
        name: &'static str,
        methods: Seq<(&'static str, Function<C>)>,
    ) -> bool {
        &&& after.stack.thread == before.stack.thread
        &&& after.stack@ == before.stack@ + Self::userdata_program(
            before.stack.thread,
            tag,
            name,
            methods,
        )
        &&& after.libraries@ == before.libraries@
        &&& after.userdata@ == if before.registered(tag) {
            before.userdata@
        } else {
            before.userdata@.push(tag)
        }
    }

    /// The instance whose root context the machine names `root`. A machine
    /// that could not be created has no name, and there is no instance of it.
    pub fn new(root: usize) -> (state: Self)
        requires
            root != 0,
        ensures
            state.stack.thread.id == root,
            state.stack@ == Seq::<Step<C>>::empty(),
            state.libraries@.len() == 0,
            state.userdata@.len() == 0,
    {
        State { stack: Stack::new(Thread::new(root)), libraries: Vec::new(), userdata: Vec::new() }
    }

    /// The machine's name for the instance: that of its root context.
    pub fn as_ptr(&self) -> (id: usize)
        ensures
            id == self.stack.thread.id,
    {
        self.stack.thread.id
    }

    /// The root context.
    pub fn thread(&self) -> (main: ThreadMain<C>)
        ensures
            main.thread == self.stack.thread,
    {
        ThreadMain { thread: self.stack.thread }
    }

    /// The stack of the root context.
    pub fn stack(&mut self) -> (stack: &mut Stack<C>)
        ensures
            *stack == old(self).stack,
            *final(stack) == final(self).stack,
            final(self).libraries == old(self).libraries,
            final(self).userdata == old(self).userdata,
    {
        &mut self.stack
    }

    /// The context whose attached cell holds the shared data of the
    /// instance: the root context.
    pub fn data(&self) -> (owner: usize)
        ensures
            owner == self.stack.thread.id,
    {
        self.stack.thread.id
    }

    /// Opens `library` under the global name `name`, and keeps it.
    pub fn open_library(&mut self, name: &'static str, library: Library<C>)
        requires
            library.names_ok(),
        ensures
            final(self).stack.thread == old(self).stack.thread,
            final(self).stack@ == old(self).stack@ + Self::library_program(
                old(self).stack.thread,
                name,
                library,
            ),
            final(self).libraries@ == old(self).libraries@.push((name, library)),
            final(self).userdata == old(self).userdata,
    {
        self.stack.reserve(3);
        self.stack.push_string(name.as_bytes());
        library.push(&mut self.stack);
        self.stack.table_set_raw(LUA_GLOBALSINDEX);
        assert(self.stack@ =~= old(self).stack@ + Self::library_program(
            old(self).stack.thread,
            name,
            library,
        ));
        self.libraries.push((name, library));
    }

    /// Whether the host type with the tag `tag` was opened in this instance.
    pub fn is_registered(&self, tag: u32) -> (registered: bool)
        ensures
            registered == self.registered(tag),
    {
        let n = self.userdata.len();
        let mut i: usize = 0;
        while i < n
            invariant
                n == self.userdata@.len(),
                0 <= i <= n,
                forall|j: int| 0 <= j < i ==> self.userdata@[j] != tag,
            decreases n - i,
        {
            if self.userdata[i] == tag {
                return true;
            }
            i += 1;
        }
        false
    }

    /// Opens the host type with tag `tag` and name `name`, with `methods` as
    /// what scripts may call on its values. This has to happen before a
    /// value of the type is pushed in this instance.
    pub fn open_userdata_as(&mut self, tag: u32, name: &'static str, methods: Methods<C>)
        requires
            methods.names_ok(),
        ensures
            Self::opened(*old(self), *final(self), tag, name, methods.methods@),
    {
        let ghost on = self.stack.thread;
        let ghost items = methods.methods@;
        let n = methods.methods.len();
        proof {
            lemma_field_names();
        }
        self.stack.push_table();
        self.stack.push_string(name.as_bytes());
        self.stack.table_set_raw_field(-2, TYPE_FIELD);
        self.stack.push_table_with(0,  #[verifier::truncate] (n as u32));
        let ghost head = self.stack@;
        let mut i: usize = 0;
        assert(self.stack@ =~= head + Seq::<Step<C>>::empty());
        while i < n
            invariant
                n == methods.methods@.len(),
                items == methods.methods@,
                0 <= i <= n,
                self.stack.thread == on,
                self.libraries == old(self).libraries,
                self.userdata == old(self).userdata,
                Methods::names_ok_from(items, i as int),
                head + Self::methods_program(on, items, 0) == self.stack@ + Self::methods_program(
                    on,
                    items,
                    i as int,
                ),
            decreases n - i,
        {
            let ghost before = self.stack@;
            let method = &methods.methods[i];
            self.stack.push_string(method.0.as_bytes());
            self.stack.push_function(&method.1);
            self.stack.table_set_raw(-3);
            proof {
                assert(self.stack@ =~= before + Self::method_program(on, items[i as int]));
                assert(before + Self::methods_program(on, items, i as int) =~= self.stack@
                    + Self::methods_program(on, items, i + 1));
            }
            i += 1;
        }
        assert(self.stack@ + Self::methods_program(on, items, n as int) =~= self.stack@);
        self.stack.push_copy(-1);
        self.stack.table_set_raw_field(-3, NAMECALL_FIELD);
        self.stack.table_set_raw_field(-2, INDEX_FIELD);
        self.stack.set_userdata_metatable(tag);
        self.stack.set_userdata_dtor(tag);
        assert(self.stack@ =~= old(self).stack@ + Self::userdata_program(on, tag, name, items));
        if !self.is_registered(tag) {
            self.userdata.push(tag);
        }
    }

    /// Opens the host type `U` with `methods` as what scripts may call on its
    /// values: the type is opened under its own tag and its own name.
    pub fn open_userdata<U: Userdata>(&mut self, methods: Methods<C>)
        requires
            methods.names_ok(),
        ensures
            exists|tag: u32, name: &'static str|
                call_ensures(U::tag, (), tag) && call_ensures(U::name, (), name) && Self::opened(
                    *old(self),
                    *final(self),
                    tag,
                    name,
                    methods.methods@,
                ),
    {
        let tag = U::tag();
        let name = U::name();
        self.open_userdata_as(tag, name, methods);
    }

    /// The secondary context that the machine just created on the root stack
    /// and names `id`, kept alive by the reference under `key` to it. The
    /// object of the context is dropped from the root stack again: the
    /// reference is what keeps it.
    pub fn new_thread(&mut self, id: usize, key: i32) -> (thread: ThreadRef<C>)
        requires
            id != 0,
        ensures
            thread.thread.id == id,
            thread.thref.key == key,
            thread.thref.main.thread == old(self).stack.thread,
            final(self).stack.thread == old(self).stack.thread,
            final(self).stack@ == old(self).stack.plus(old(self).stack@, StackOp::Pop(1)),
            final(self).libraries == old(self).libraries,
            final(self).userdata == old(self).userdata,
    {
        let thref = Ref::new(ThreadMain { thread: self.stack.thread }, key);
        let thread = self.stack.push_thread_new(id, thref);
        self.stack.pop(1);
        thread
    }

    /// The order in which an instance is taken down: the machine is closed
    /// first, while the shared data and the allocator that its finalizers
    /// use are still there; then the shared data is dropped, and the
    /// allocator last.
    pub fn close(&self) -> (order: Vec<Teardown>)
        ensures
            order@ == seq![Teardown::CloseMachine, Teardown::DropMainData, Teardown::DropAllocator],
    {
        let mut order: Vec<Teardown> = Vec::new();
        order.push(Teardown::CloseMachine);
        order.push(Teardown::DropMainData);
        order.push(Teardown::DropAllocator);
        assert(order@ =~= seq![
            Teardown::CloseMachine,
            Teardown::DropMainData,
            Teardown::DropAllocator,
        ]);
        order
    }
}

} // verus!
