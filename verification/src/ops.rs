//! The stack instructions that the host hands to the machine, and their
//! documented effect on the model of the machine's stacks.

use vstd::prelude::*;

use crate::extra::{name_is_c_string, Function};
use crate::frame::{Frame, Slot};
use crate::sys::LUA_UTAG_LIMIT;
use crate::thread::Thread;
use crate::Config;

verus! {

/// One instruction for the stack of a context. `B` is how the instruction
/// holds a byte string: `Vec<u8>` where it is built and run, `Seq<u8>` where
/// it is reasoned about. Numbers and vectors are held by their bit patterns.
pub enum StackOp<C: Config, B> {
    /// Make room for this many more values.
    Reserve(i32),
    /// Set the top of the stack to this index.
    SetTop(i32),
    /// Drop this many values from the top.
    Pop(i32),
    /// Take out the value at the index.
    Remove(i32),
    /// Move the top value to the index.
    Insert(i32),
    /// Take the top value off and put it at the index.
    Replace(i32),
    /// Move the `n` topmost values to the stack of `to`.
    XMove { to: Thread<C>, n: u32 },
    /// Push a copy of the value at `idx` onto the stack of `to`.
    XPush { to: Thread<C>, idx: i32 },
    /// Push a copy of the value at the index.
    PushCopy(i32),
    PushNil,
    PushBoolean(bool),
    PushLightUserdata(usize),
    PushNumber(u64),
    PushVector(u32, u32, u32),
    PushString(B),
    /// Push a new table with room for `narr` array entries and `nrec` other
    /// entries.
    PushTable { narr: u32, nrec: u32 },
    /// Take `nups` values off and push the native function that captures
    /// them.
    PushClosure { func: Function<C>, nups: u32 },
    /// Load the compiled chunk `bytes` under the display name `name` and push
    /// what loading gives: the chunk's function, or a message.
    PushBytecode { name: &'static str, bytes: B },
    /// Push a new block of `size` bytes of host memory with the tag `tag` and
    /// the metatable registered for that tag.
    PushUserdata { tag: u32, size: usize },
    /// Push the object of the context whose stack this is.
    PushThread,
    /// Replace the key on top by the value it has in the value at the index.
    TableGet(i32),
    /// Store the top value under the key below it in the value at the index.
    TableSet(i32),
    /// Push the value of the named field of the value at the index.
    TableGetField(i32, &'static str),
    /// Store the top value in the named field of the value at the index.
    TableSetField(i32, &'static str),
    /// As `TableGet`, on a table and past any override.
    TableGetRaw(i32),
    /// As `TableSet`, on a table and past any override.
    TableSetRaw(i32),
    /// Push the entry with the given integer key of the table at the index.
    TableGetRawI(i32, i32),
    /// Store the top value under the given integer key in the table at the
    /// index.
    TableSetRawI(i32, i32),
    /// As `TableGetField`, on a table and past any override.
    TableGetRawField(i32, &'static str),
    /// As `TableSetField`, on a table and past any override.
    TableSetRawField(i32, &'static str),
    /// Mark the table at the index read-only, or writable again.
    TableSetReadonly(i32, bool),
    /// Take the table on top off and make it the metatable of every block
    /// with this tag.
    SetUserdataMetatable(u32),
    /// Install the destructor trampoline for blocks with this tag.
    SetUserdataDtor(u32),
}

/// An instruction together with the context on whose stack it runs.
pub struct Instr<C: Config, B> {
    pub on: Thread<C>,
    pub op: StackOp<C, B>,
}

/// An instruction as it is reasoned about.
pub type Op<C> = StackOp<C, Seq<u8>>;

/// An addressed instruction as it is reasoned about.
pub type Step<C> = Instr<C, Seq<u8>>;

/// The stacks of the contexts of one machine, by the name of the context.
pub type Stacks = Map<usize, Frame>;

impl<C: Config> View for StackOp<C, Vec<u8>> {
    type V = StackOp<C, Seq<u8>>;

    open spec fn view(&self) -> StackOp<C, Seq<u8>> {
        match *self {
            StackOp::Reserve(n) => StackOp::Reserve(n),
            StackOp::SetTop(idx) => StackOp::SetTop(idx),
            StackOp::Pop(n) => StackOp::Pop(n),
            StackOp::Remove(idx) => StackOp::Remove(idx),
            StackOp::Insert(idx) => StackOp::Insert(idx),
            StackOp::Replace(idx) => StackOp::Replace(idx),
            StackOp::XMove { to, n } => StackOp::XMove { to, n },
            StackOp::XPush { to, idx } => StackOp::XPush { to, idx },
            StackOp::PushCopy(idx) => StackOp::PushCopy(idx),
            StackOp::PushNil => StackOp::PushNil,
            StackOp::PushBoolean(value) => StackOp::PushBoolean(value),
            StackOp::PushLightUserdata(value) => StackOp::PushLightUserdata(value),
            StackOp::PushNumber(bits) => StackOp::PushNumber(bits),
            StackOp::PushVector(x, y, z) => StackOp::PushVector(x, y, z),
            StackOp::PushString(bytes) => StackOp::PushString(bytes@),
            StackOp::PushTable { narr, nrec } => StackOp::PushTable { narr, nrec },
            StackOp::PushClosure { func, nups } => StackOp::PushClosure { func, nups },
            StackOp::PushBytecode { name, bytes } => StackOp::PushBytecode { name, bytes: bytes@ },
            StackOp::PushUserdata { tag, size } => StackOp::PushUserdata { tag, size },
            StackOp::PushThread => StackOp::PushThread,
            StackOp::TableGet(idx) => StackOp::TableGet(idx),
            StackOp::TableSet(idx) => StackOp::TableSet(idx),
            StackOp::TableGetField(idx, field) => StackOp::TableGetField(idx, field),
            StackOp::TableSetField(idx, field) => StackOp::TableSetField(idx, field),
            StackOp::TableGetRaw(idx) => StackOp::TableGetRaw(idx),
            StackOp::TableSetRaw(idx) => StackOp::TableSetRaw(idx),
            StackOp::TableGetRawI(idx, i) => StackOp::TableGetRawI(idx, i),
            StackOp::TableSetRawI(idx, i) => StackOp::TableSetRawI(idx, i),
            StackOp::TableGetRawField(idx, field) => StackOp::TableGetRawField(idx, field),
            StackOp::TableSetRawField(idx, field) => StackOp::TableSetRawField(idx, field),
            StackOp::TableSetReadonly(idx, readonly) => StackOp::TableSetReadonly(idx, readonly),
            StackOp::SetUserdataMetatable(tag) => StackOp::SetUserdataMetatable(tag),
            StackOp::SetUserdataDtor(tag) => StackOp::SetUserdataDtor(tag),
        }
    }
}

impl<C: Config> View for Instr<C, Vec<u8>> {
    type V = Instr<C, Seq<u8>>;

    open spec fn view(&self) -> Instr<C, Seq<u8>> {
        Instr { on: self.on, op: self.op@ }
    }
}

/// Whether `tag` can be the tag of a block of host memory.
pub open spec fn tag_in_range(tag: u32) -> bool {
    tag < LUA_UTAG_LIMIT
}

impl<C: Config> StackOp<C, Seq<u8>> {
    /// The frame of context `on` after the instruction, for an instruction
    /// that touches no other stack. `None` where the model cannot show that
    /// the machine accepts the instruction.
    pub open spec fn apply(self, on: usize, frame: Frame) -> Option<Frame> {
        match self {
            StackOp::Reserve(n) => frame.reserve(n as int),
            StackOp::SetTop(idx) => frame.set_top(idx as int),
            StackOp::Pop(n) => frame.pop(n as int),
            StackOp::Remove(idx) => frame.remove(idx as int),
            StackOp::Insert(idx) => frame.insert(idx as int),
            StackOp::Replace(idx) => frame.replace(idx as int),
            StackOp::XMove { .. } => None,
            StackOp::XPush { .. } => None,
            StackOp::PushCopy(idx) => frame.push_copy(idx as int),
            StackOp::PushNil => frame.push(Slot::Nil),
            StackOp::PushBoolean(value) => frame.push(Slot::Boolean(value)),
            StackOp::PushLightUserdata(value) => frame.push(Slot::LightUserdata(value)),
            StackOp::PushNumber(bits) => frame.push(Slot::Number(bits)),
            StackOp::PushVector(x, y, z) => frame.push(Slot::Vector(x, y, z)),
            StackOp::PushString(bytes) => frame.push(Slot::String(bytes)),
            StackOp::PushTable { .. } => frame.push(Slot::Table),
            StackOp::PushClosure { func, nups } => if func.name_ok() {
                frame.push_closure(nups as int)
            } else {
                None
            },
            StackOp::PushBytecode { name, bytes } => if name_is_c_string(name) && bytes.len() > 0 {
                frame.push(Slot::Unknown)
            } else {
                None
            },
            StackOp::PushUserdata { tag, .. } => if tag_in_range(tag) {
                frame.push(Slot::Userdata(tag))
            } else {
                None
            },
            StackOp::PushThread => frame.push(Slot::Thread(on)),
            StackOp::TableGet(idx) => frame.table_get(idx as int, false),
            StackOp::TableSet(idx) => frame.table_set(idx as int, false),
            StackOp::TableGetField(idx, field) => if name_is_c_string(field) {
                frame.table_get_keyed(idx as int, false)
            } else {
                None
            },
            StackOp::TableSetField(idx, field) => if name_is_c_string(field) {
                frame.table_set_keyed(idx as int, false)
            } else {
                None
            },
            StackOp::TableGetRaw(idx) => frame.table_get(idx as int, true),
            StackOp::TableSetRaw(idx) => frame.table_set(idx as int, true),
            StackOp::TableGetRawI(idx, _) => frame.table_get_keyed(idx as int, true),
            StackOp::TableSetRawI(idx, _) => frame.table_set_keyed(idx as int, true),
            StackOp::TableGetRawField(idx, field) => if name_is_c_string(field) {
                frame.table_get_keyed(idx as int, true)
            } else {
                None
            },
            StackOp::TableSetRawField(idx, field) => if name_is_c_string(field) {
                frame.table_set_keyed(idx as int, true)
            } else {
                None
            },
            StackOp::TableSetReadonly(idx, _) => if frame.table_at(idx as int) {
                Some(frame)
            } else {
                None
            },
            StackOp::SetUserdataMetatable(tag) => if tag_in_range(tag) {
                frame.take_metatable()
            } else {
                None
            },
            StackOp::SetUserdataDtor(tag) => if tag_in_range(tag) {
                Some(frame)
            } else {
                None
            },
        }
    }
}

/// The stacks after the `n` topmost values of `on` were moved to `to`. A
/// context moves nothing to itself.
pub open spec fn xmove(stacks: Stacks, on: usize, to: usize, n: int) -> Option<Stacks> {
    if to == on {
        Some(stacks)
    } else if stacks.dom().contains(to) && 0 <= n <= stacks[on].top() && stacks[to].free() >= n {
        let from = stacks[on];
        let moved = from.slots.skip(from.top() - n);
        Some(
            stacks.insert(on, Frame { slots: from.slots.take(from.top() - n), capacity: from.capacity })
                .insert(to, Frame { slots: stacks[to].slots + moved, capacity: stacks[to].capacity }),
        )
    } else {
        None
    }
}

/// The stacks after a copy of the value at `idx` of `on` was pushed onto
/// `to`.
pub open spec fn xpush(stacks: Stacks, on: usize, to: usize, idx: int) -> Option<Stacks> {
    if stacks.dom().contains(to) {
        match stacks[on].slot_at(idx) {
            Some(slot) => match stacks[to].push(slot) {
                Some(frame) => Some(stacks.insert(to, frame)),
                None => None,
            },
            None => None,
        }
    } else {
        None
    }
}

/// The stacks after one instruction. `None` where the model cannot show that
/// the machine accepts it.
pub open spec fn step<C: Config>(stacks: Stacks, instr: Step<C>) -> Option<Stacks> {
    let on = instr.on.id;
    if !stacks.dom().contains(on) {
        None
    } else {
        match instr.op {
            StackOp::XMove { to, n } => xmove(stacks, on, to.id, n as int),
            StackOp::XPush { to, idx } => xpush(stacks, on, to.id, idx as int),
            op => match op.apply(on, stacks[on]) {
                Some(frame) => Some(stacks.insert(on, frame)),
                None => None,
            },
        }
    }
}

/// The stacks after the instructions of `program`, run in order. `None`
/// where the model cannot show that the machine accepts each of them.
pub open spec fn run<C: Config>(stacks: Stacks, program: Seq<Step<C>>) -> Option<Stacks>
    decreases program.len(),
{
    if program.len() == 0 {
        Some(stacks)
    } else {
        match step(stacks, program[0]) {
            Some(next) => run(next, program.skip(1)),
            None => None,
        }
    }
}

/// Every frame of `stacks` keeps within its slots.
pub open spec fn stacks_wf(stacks: Stacks) -> bool {
    forall|t: usize| stacks.dom().contains(t) ==> (#[trigger] stacks[t]).wf()
}

/// Running one instruction is taking one step.
pub proof fn lemma_run_one<C: Config>(stacks: Stacks, instr: Step<C>)
    ensures
        run(stacks, seq![instr]) == step(stacks, instr),
{
    let program = seq![instr];
    assert(program.len() == 1);
    assert(program[0] == instr);
    assert(program.skip(1).len() == 0);
    match step(stacks, instr) {
        Some(next) => {
            assert(run(next, program.skip(1)) == Some(next));
        },
        None => {},
    }
}

/// Running two programs one after the other is running the first and then,
/// from where it ended, the second.
pub proof fn lemma_run_concat<C: Config>(stacks: Stacks, first: Seq<Step<C>>, second: Seq<Step<C>>)
    ensures
        run(stacks, first + second) == (match run(stacks, first) {
            Some(middle) => run(middle, second),
            None => None,
        }),
    decreases first.len(),
{
    if first.len() == 0 {
        assert(first + second =~= second);
    } else {
        let whole = first + second;
        assert(whole[0] == first[0]);
        assert(whole.skip(1) =~= first.skip(1) + second);
        match step(stacks, first[0]) {
            Some(next) => {
                lemma_run_concat(next, first.skip(1), second);
            },
            None => {},
        }
    }
}

/// A program that the model accepts leaves every frame within its slots and
/// creates no stack.
pub proof fn lemma_run_keeps_wf<C: Config>(stacks: Stacks, program: Seq<Step<C>>)
    requires
        stacks_wf(stacks),
        run(stacks, program) is Some,
    ensures
        stacks_wf(run(stacks, program)->0),
        run(stacks, program)->0.dom() == stacks.dom(),
    decreases program.len(),
{
    if program.len() > 0 {
        let next = step(stacks, program[0])->0;
        lemma_step_keeps_wf(stacks, program[0]);
        lemma_run_keeps_wf(next, program.skip(1));
    }
}

/// An instruction that the model accepts leaves every frame within its slots
/// and creates no stack.
pub proof fn lemma_step_keeps_wf<C: Config>(stacks: Stacks, instr: Step<C>)
    requires
        stacks_wf(stacks),
        step(stacks, instr) is Some,
    ensures
        stacks_wf(step(stacks, instr)->0),
        step(stacks, instr)->0.dom() == stacks.dom(),
{
    let on = instr.on.id;
    let next = step(stacks, instr)->0;
    assert(stacks[on].wf());
    match instr.op {
        StackOp::XMove { to, n } => {
            if to.id != on {
                assert(stacks[to.id].wf());
            }
            assert(next.dom() =~= stacks.dom());
            assert forall|t: usize| next.dom().contains(t) implies (#[trigger] next[t]).wf() by {
                if t != on && t != to.id {
                    assert(stacks[t].wf());
                }
            }
        },
        StackOp::XPush { to, idx } => {
            assert(stacks[to.id].wf());
            assert(next.dom() =~= stacks.dom());
            assert forall|t: usize| next.dom().contains(t) implies (#[trigger] next[t]).wf() by {
                if t != to.id {
                    assert(stacks[t].wf());
                }
            }
        },
        op => {
            assert(next.dom() =~= stacks.dom());
            assert forall|t: usize| next.dom().contains(t) implies (#[trigger] next[t]).wf() by {
                if t != on {
                    assert(stacks[t].wf());
                }
            }
        },
    }
}

/// Whether `after` differs from `before` at most in the frame of `on`, which
/// holds the same values as before or `extra` more on top, has not lost
/// room, and keeps within its slots.
pub open spec fn grown(before: Stacks, after: Stacks, on: usize, extra: Seq<Slot>) -> bool {
    &&& before.dom().contains(on)
    &&& after == before.insert(on, after[on])
    &&& after[on].slots == before[on].slots + extra
    &&& after[on].capacity >= before[on].capacity
    &&& after[on].wf()
}

/// Running a program that starts with `first` is taking that step and
/// running the rest from there.
pub proof fn lemma_run_cons<C: Config>(stacks: Stacks, first: Step<C>, rest: Seq<Step<C>>)
    ensures
        run(stacks, seq![first] + rest) == (match step(stacks, first) {
            Some(next) => run(next, rest),
            None => None,
        }),
{
    lemma_run_concat(stacks, seq![first], rest);
    lemma_run_one(stacks, first);
}

} // verus!
