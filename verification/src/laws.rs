//! What the programs of this crate do to the stacks of the machine, shown on
//! the model of the stacks.

use vstd::prelude::*;
use vstd::string::StringSliceAdditionalSpecFns;

use crate::extra::Function;
use crate::frame::Slot;
use crate::library::{lemma_library_push, Library};
use crate::ops::{
    grown, lemma_run_concat, lemma_run_cons, lemma_run_one, run, stacks_wf, step, tag_in_range,
    Instr, StackOp, Stacks,
};
use crate::stack::Stack;
use crate::state::{lemma_field_names, State, INDEX_FIELD, NAMECALL_FIELD, TYPE_FIELD};
use crate::sys::LUA_GLOBALSINDEX;
use crate::thread::Thread;
use crate::userdata::Methods;
use crate::Config;

verus! {

/// The instruction that pushes a plain value: nil, a boolean, a bare address,
/// a number, a vector or a byte string. Other values are not pushed by an
/// instruction that holds them.
pub open spec fn push_op<C: Config>(value: Slot) -> Option<StackOp<C, Seq<u8>>> {
    match value {
        Slot::Nil => Some(StackOp::PushNil),
        Slot::Boolean(b) => Some(StackOp::PushBoolean(b)),
        Slot::LightUserdata(address) => Some(StackOp::PushLightUserdata(address)),
        Slot::Number(bits) => Some(StackOp::PushNumber(bits)),
        Slot::Vector(x, y, z) => Some(StackOp::PushVector(x, y, z)),
        Slot::String(bytes) => Some(StackOp::PushString(bytes)),
        _ => None,
    }
}

/// After room for at least one value was made, a plain value that is pushed
/// is the value on top of the stack, and what is read back at the top is that
/// value: the same boolean, the same bits of a number or a vector, the same
/// bytes of a string, whatever bytes they are and however many. Everything
/// below the top is as it was.
pub proof fn lemma_push_then_read<C: Config>(stacks: Stacks, on: Thread<C>, n: i32, value: Slot)
    requires
        stacks.dom().contains(on.id),
        stacks[on.id].wf(),
        n >= 1,
        push_op::<C>(value) is Some,
    ensures
        ({
            let program = seq![
                Instr { on, op: StackOp::<C, Seq<u8>>::Reserve(n) },
                Instr { on, op: push_op::<C>(value)->0 },
            ];
            let after = run(stacks, program);
            &&& after is Some
            &&& grown(stacks, after->0, on.id, seq![value])
            &&& after->0[on.id].slot_at(-1) == Some(value)
            &&& after->0[on.id].slot_at(after->0[on.id].top()) == Some(value)
        }),
{
    let first = Instr { on, op: StackOp::<C, Seq<u8>>::Reserve(n) };
    let second = Instr { on, op: push_op::<C>(value)->0 };
    let program = seq![first, second];
    assert(program =~= seq![first] + seq![second]);
    lemma_run_cons(stacks, first, seq![second]);
    let middle = step(stacks, first)->0;
    lemma_run_one(middle, second);
    let end = step(middle, second)->0;
    assert(end =~= stacks.insert(on.id, end[on.id]));
    assert(end[on.id].slots =~= stacks[on.id].slots + seq![value]);
}

/// Opening a library is accepted on any stack, whatever room it has, and
/// leaves the stack as it was.
pub proof fn lemma_open_library<C: Config>(
    stacks: Stacks,
    on: Thread<C>,
    name: &'static str,
    library: Library<C>,
)
    requires
        stacks.dom().contains(on.id),
        stacks[on.id].wf(),
        library.names_ok(),
    ensures
        run(stacks, State::library_program(on, name, library)) is Some,
        grown(stacks, run(stacks, State::library_program(on, name, library))->0, on.id, Seq::empty()),
{
    let room = Instr { on, op: StackOp::<C, Seq<u8>>::Reserve(3) };
    let key = Instr { on, op: StackOp::<C, Seq<u8>>::PushString(name.spec_bytes()) };
    let store = Instr { on, op: StackOp::<C, Seq<u8>>::TableSetRaw(LUA_GLOBALSINDEX) };
    let build = library.program(on);
    assert(State::library_program(on, name, library) =~= seq![room] + (seq![key] + (build
        + seq![store])));
    lemma_run_cons(stacks, room, seq![key] + (build + seq![store]));
    let roomy = step(stacks, room)->0;
    lemma_run_cons(roomy, key, build + seq![store]);
    let keyed = step(roomy, key)->0;
    lemma_run_concat(keyed, build, seq![store]);
    lemma_library_push(library, on, keyed);
    let built = run(keyed, build)->0;
    lemma_run_one(built, store);
    let frame = built[on.id];
    let base = stacks[on.id].slots;
    assert(frame.slots =~= base.push(Slot::String(name.spec_bytes())).push(Slot::Table));
    let end = step(built, store)->0;
    assert(end[on.id].slots =~= base);
    assert(end =~= stacks.insert(on.id, end[on.id]));
    assert(end[on.id].slots =~= stacks[on.id].slots + Seq::<Slot>::empty());
}

/// Adding the methods from the `i`-th on to the method table on top of a
/// stack with room for two more values is accepted, and leaves the stack as
/// it was.
pub proof fn lemma_methods<C: Config>(
    stacks: Stacks,
    on: Thread<C>,
    methods: Seq<(&'static str, Function<C>)>,
    i: int,
)
    requires
        0 <= i <= methods.len(),
        stacks.dom().contains(on.id),
        stacks[on.id].wf(),
        stacks[on.id].top() >= 1,
        stacks[on.id].peek() is Table,
        stacks[on.id].free() >= 2,
        Methods::names_ok_from(methods, i),
    ensures
        run(stacks, State::methods_program(on, methods, i)) is Some,
        run(stacks, State::methods_program(on, methods, i))->0 == stacks,
    decreases methods.len() - i,
{
    if i < methods.len() {
        let key = Instr { on, op: StackOp::<C, Seq<u8>>::PushString(methods[i].0.spec_bytes()) };
        let value = Instr {
            on,
            op: StackOp::<C, Seq<u8>>::PushClosure { func: methods[i].1, nups: 0 },
        };
        let store = Instr { on, op: StackOp::<C, Seq<u8>>::TableSetRaw(-3i32) };
        let rest = State::methods_program(on, methods, i + 1);
        assert(State::methods_program(on, methods, i) =~= seq![key] + (seq![value] + (seq![store]
            + rest)));
        lemma_run_cons(stacks, key, seq![value] + (seq![store] + rest));
        let keyed = step(stacks, key)->0;
        lemma_run_cons(keyed, value, seq![store] + rest);
        assert(keyed[on.id].slots.take(keyed[on.id].top() - 0) =~= keyed[on.id].slots);
        let valued = step(keyed, value)->0;
        lemma_run_cons(valued, store, rest);
        let frame = valued[on.id];
        let base = stacks[on.id].slots;
        assert(frame.slots =~= base.push(Slot::String(methods[i].0.spec_bytes())).push(
            Slot::Function,
        ));
        assert(frame.slots[frame.top() - 3] == base.last());
        let stored = step(valued, store)->0;
        assert(stored[on.id].slots =~= base);
        assert(stored =~= stacks);
        lemma_methods(stacks, on, methods, i + 1);
    }
}

/// Opening a host type is accepted on any stack with room for four more
/// values, and leaves the stack as it was: the metatable and the method
/// table are built on the stack and are gone from it at the end.
pub proof fn lemma_open_userdata<C: Config>(
    stacks: Stacks,
    on: Thread<C>,
    tag: u32,
    name: &'static str,
    methods: Seq<(&'static str, Function<C>)>,
)
    requires
        stacks.dom().contains(on.id),
        stacks[on.id].wf(),
        stacks[on.id].free() >= 4,
        tag_in_range(tag),
        Methods::names_ok_from(methods, 0),
    ensures
        run(stacks, State::userdata_program(on, tag, name, methods)) is Some,
        run(stacks, State::userdata_program(on, tag, name, methods))->0 == stacks,
{
    lemma_field_names();
    let base = stacks[on.id].slots;
    let meta = Instr { on, op: StackOp::<C, Seq<u8>>::PushTable { narr: 0, nrec: 0 } };
    let named = Instr { on, op: StackOp::<C, Seq<u8>>::PushString(name.spec_bytes()) };
    let set_type = Instr { on, op: StackOp::<C, Seq<u8>>::TableSetRawField(-2i32, TYPE_FIELD) };
    let table = Instr {
        on,
        op: StackOp::<C, Seq<u8>>::PushTable { narr: 0, nrec: methods.len() as usize as u32 },
    };
    let fill = State::methods_program(on, methods, 0);
    let copy = Instr { on, op: StackOp::<C, Seq<u8>>::PushCopy(-1i32) };
    let set_namecall = Instr {
        on,
        op: StackOp::<C, Seq<u8>>::TableSetRawField(-3i32, NAMECALL_FIELD),
    };
    let set_index = Instr { on, op: StackOp::<C, Seq<u8>>::TableSetRawField(-2i32, INDEX_FIELD) };
    let set_meta = Instr { on, op: StackOp::<C, Seq<u8>>::SetUserdataMetatable(tag) };
    let set_dtor = Instr { on, op: StackOp::<C, Seq<u8>>::SetUserdataDtor(tag) };
    let tail4 = seq![set_dtor];
    let tail3 = seq![set_meta] + tail4;
    let tail2 = seq![set_index] + tail3;
    let tail1 = seq![set_namecall] + tail2;
    let tail0 = seq![copy] + tail1;
    let body = fill + tail0;
    assert(State::userdata_program(on, tag, name, methods) =~= seq![meta] + (seq![named] + (
    seq![set_type] + (seq![table] + body))));
    lemma_run_cons(stacks, meta, seq![named] + (seq![set_type] + (seq![table] + body)));
    let s1 = step(stacks, meta)->0;
    assert(s1[on.id].slots =~= base.push(Slot::Table));
    lemma_run_cons(s1, named, seq![set_type] + (seq![table] + body));
    let s2 = step(s1, named)->0;
    assert(s2[on.id].slots =~= base.push(Slot::Table).push(Slot::String(name.spec_bytes())));
    lemma_run_cons(s2, set_type, seq![table] + body);
    let s3 = step(s2, set_type)->0;
    assert(s3[on.id].slots =~= base.push(Slot::Table));
    lemma_run_cons(s3, table, body);
    let s4 = step(s3, table)->0;
    assert(s4[on.id].slots =~= base.push(Slot::Table).push(Slot::Table));
    lemma_run_concat(s4, fill, tail0);
    lemma_methods(s4, on, methods, 0);
    lemma_run_cons(s4, copy, tail1);
    let s5 = step(s4, copy)->0;
    assert(s5[on.id].slots =~= base.push(Slot::Table).push(Slot::Table).push(Slot::Table));
    lemma_run_cons(s5, set_namecall, tail2);
    let s6 = step(s5, set_namecall)->0;
    assert(s6[on.id].slots =~= base.push(Slot::Table).push(Slot::Table));
    lemma_run_cons(s6, set_index, tail3);
    let s7 = step(s6, set_index)->0;
    assert(s7[on.id].slots =~= base.push(Slot::Table));
    lemma_run_cons(s7, set_meta, tail4);
    let s8 = step(s7, set_meta)->0;
    assert(s8[on.id].slots =~= base);
    lemma_run_one(s8, set_dtor);
    let s9 = step(s8, set_dtor)->0;
    assert(s9 =~= stacks);
}

/// Pushing the object of a context is accepted where the receiving stack has
/// room for one more value, and leaves exactly that object on top of it. The
/// stack of a context other than the receiver serves as a way station: it
/// holds what it held before.
pub proof fn lemma_push_thread<C: Config>(stacks: Stacks, me: Thread<C>, thread: Thread<C>)
    requires
        stacks.dom().contains(me.id),
        stacks.dom().contains(thread.id),
        stacks_wf(stacks),
        stacks[me.id].free() >= 1,
    ensures
        ({
            let after = run(stacks, Stack::push_thread_program(me, thread));
            &&& after is Some
            &&& after->0.dom() == stacks.dom()
            &&& after->0[me.id].slots == stacks[me.id].slots.push(Slot::Thread(thread.id))
            &&& after->0[me.id].capacity == stacks[me.id].capacity
            &&& thread.id != me.id ==> after->0[thread.id].slots == stacks[thread.id].slots
            &&& forall|other: usize|
                other != me.id && other != thread.id && stacks.dom().contains(other)
                    ==> after->0[other] == stacks[other]
        }),
{
    assert(stacks[me.id].wf());
    assert(stacks[thread.id].wf());
    if thread.id == me.id {
        let push = Instr { on: me, op: StackOp::<C, Seq<u8>>::PushThread };
        assert(Stack::push_thread_program(me, thread) =~= seq![push]);
        lemma_run_one(stacks, push);
        let end = step(stacks, push)->0;
        assert(end.dom() =~= stacks.dom());
    } else {
        let room = Instr { on: thread, op: StackOp::<C, Seq<u8>>::Reserve(1) };
        let push = Instr { on: thread, op: StackOp::<C, Seq<u8>>::PushThread };
        let hand = Instr { on: thread, op: StackOp::<C, Seq<u8>>::XMove { to: me, n: 1 } };
        assert(Stack::push_thread_program(me, thread) =~= seq![room] + (seq![push] + seq![hand]));
        lemma_run_cons(stacks, room, seq![push] + seq![hand]);
        let s1 = step(stacks, room)->0;
        lemma_run_cons(s1, push, seq![hand]);
        let s2 = step(s1, push)->0;
        lemma_run_one(s2, hand);
        let from = s2[thread.id];
        assert(from.slots =~= stacks[thread.id].slots.push(Slot::Thread(thread.id)));
        assert(from.slots.skip(from.top() - 1) =~= seq![Slot::Thread(thread.id)]);
        assert(from.slots.take(from.top() - 1) =~= stacks[thread.id].slots);
        let end = step(s2, hand)->0;
        assert(end.dom() =~= stacks.dom());
        assert(end[me.id].slots =~= stacks[me.id].slots.push(Slot::Thread(thread.id)));
    }
}

} // verus!
