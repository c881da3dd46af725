//! A model of what the host can know about the stacks of a machine: for each
//! context, the values that its running frame holds, and how many slots the
//! frame may use.
//!
//! The model follows the documented effect of each stack instruction on the
//! depth of the stack and on the kinds of its values. It does not follow what
//! tables hold, whether a table is read-only, or what a script does when an
//! access runs an override.

use vstd::prelude::*;

use crate::extra::Type;
use crate::sys::{LUA_ENVIRONINDEX, LUA_GLOBALSINDEX, LUA_REGISTRYINDEX};

verus! {

/// What is known of one value on a stack. Numbers and vectors are held by
/// their bit patterns.
pub enum Slot {
    Nil,
    Boolean(bool),
    LightUserdata(usize),
    Number(u64),
    Vector(u32, u32, u32),
    String(Seq<u8>),
    Table,
    Function,
    /// A tagged block of host memory.
    Userdata(u32),
    /// The object of the context with this name.
    Thread(usize),
    /// Some value; nothing is known of it.
    Unknown,
}

impl Slot {
    /// The kind of the value, where it is known.
    pub open spec fn kind(self) -> Option<Type> {
        match self {
            Slot::Nil => Some(Type::Nil),
            Slot::Boolean(_) => Some(Type::Boolean),
            Slot::LightUserdata(_) => Some(Type::LightUserdata),
            Slot::Number(_) => Some(Type::Number),
            Slot::Vector(_, _, _) => Some(Type::Vector),
            Slot::String(_) => Some(Type::String),
            Slot::Table => Some(Type::Table),
            Slot::Function => Some(Type::Function),
            Slot::Userdata(_) => Some(Type::Userdata),
            Slot::Thread(_) => Some(Type::Thread),
            Slot::Unknown => None,
        }
    }

    /// Whether the value is known to be usable as a key of a table: its kind
    /// is known and is not nil.
    pub open spec fn is_key(self) -> bool {
        !(self is Nil) && !(self is Unknown)
    }
}

/// The running frame of one context: its values from the bottom up, and the
/// number of slots it may hold.
pub struct Frame {
    pub slots: Seq<Slot>,
    pub capacity: int,
}

/// Whether `idx` addresses one of the three registries, each of which is a
/// table.
pub open spec fn is_registry_index(idx: int) -> bool {
    idx == LUA_REGISTRYINDEX || idx == LUA_ENVIRONINDEX || idx == LUA_GLOBALSINDEX
}

/// Whether `idx` addresses a value captured by the running function.
pub open spec fn is_upvalue_index(idx: int) -> bool {
    idx < LUA_GLOBALSINDEX
}

impl Frame {
    /// No frame holds more values than it has slots.
    pub open spec fn wf(self) -> bool {
        self.slots.len() <= self.capacity
    }

    /// The number of values in the frame, which is also the index of its top.
    pub open spec fn top(self) -> int {
        self.slots.len() as int
    }

    /// How many more values the frame may hold.
    pub open spec fn free(self) -> int {
        self.capacity - self.slots.len()
    }

    /// Where in `slots` the index `idx` points: a positive index counts from
    /// the bottom, starting at one; a negative index counts back from the
    /// top. `None` for zero, for an index outside the frame and for a
    /// pseudo-index.
    pub open spec fn position(self, idx: int) -> Option<int> {
        if 1 <= idx <= self.top() {
            Some(idx - 1)
        } else if -self.top() <= idx <= -1 && LUA_REGISTRYINDEX < idx {
            Some(self.top() + idx)
        } else {
            None
        }
    }

    /// The index `idx` as one that does not move when the top does: positive
    /// indices and pseudo-indices stay, negative ones are counted from the
    /// bottom.
    pub open spec fn abs_index(self, idx: int) -> int {
        if idx > 0 || idx <= LUA_REGISTRYINDEX {
            idx
        } else {
            self.top() + idx + 1
        }
    }

    /// What is known of the value that `idx` addresses; `None` where it
    /// addresses none.
    pub open spec fn slot_at(self, idx: int) -> Option<Slot> {
        if is_registry_index(idx) {
            Some(Slot::Table)
        } else if is_upvalue_index(idx) {
            Some(Slot::Unknown)
        } else {
            match self.position(idx) {
                Some(p) => Some(self.slots[p]),
                None => None,
            }
        }
    }

    /// Whether `idx` is known to address a table.
    pub open spec fn table_at(self, idx: int) -> bool {
        self.slot_at(idx) == Some(Slot::Table)
    }

    /// The value on top of the frame.
    pub open spec fn peek(self) -> Slot
        recommends
            self.top() > 0,
    {
        self.slots.last()
    }

    /// The frame with at least `n` free slots.
    pub open spec fn reserve(self, n: int) -> Option<Frame> {
        if n < 0 {
            None
        } else if self.free() >= n {
            Some(self)
        } else {
            Some(Frame { slots: self.slots, capacity: self.top() + n })
        }
    }

    /// The frame with `slot` on top, if it has a free slot for it.
    pub open spec fn push(self, slot: Slot) -> Option<Frame> {
        if self.free() >= 1 {
            Some(Frame { slots: self.slots.push(slot), capacity: self.capacity })
        } else {
            None
        }
    }

    /// The frame without its `n` topmost values, if it has that many.
    pub open spec fn pop(self, n: int) -> Option<Frame> {
        if 0 <= n <= self.top() {
            Some(Frame { slots: self.slots.take(self.top() - n), capacity: self.capacity })
        } else {
            None
        }
    }

    /// The frame with its top set to `idx`: values above the new top are
    /// dropped, and new slots below it hold nil.
    pub open spec fn set_top(self, idx: int) -> Option<Frame> {
        if idx >= 0 {
            if idx <= self.top() {
                self.pop(self.top() - idx)
            } else if idx <= self.capacity {
                Some(
                    Frame {
                        slots: self.slots + Seq::new((idx - self.top()) as nat, |i: int| Slot::Nil),
                        capacity: self.capacity,
                    },
                )
            } else {
                None
            }
        } else {
            self.pop(-idx - 1)
        }
    }

    /// The frame without the value at `idx`; the values above it move down.
    pub open spec fn remove(self, idx: int) -> Option<Frame> {
        match self.position(idx) {
            Some(p) => Some(Frame { slots: self.slots.remove(p), capacity: self.capacity }),
            None => None,
        }
    }

    /// The frame with its top value moved to `idx`; the values from there on
    /// move up.
    pub open spec fn insert(self, idx: int) -> Option<Frame> {
        match self.position(idx) {
            Some(p) => Some(
                Frame { slots: self.slots.drop_last().insert(p, self.peek()), capacity: self.capacity },
            ),
            None => None,
        }
    }

    /// The frame with its top value taken off and put in place of the value
    /// at `idx`. Where `idx` addresses a registry or a captured value, the
    /// top value leaves the stack.
    pub open spec fn replace(self, idx: int) -> Option<Frame> {
        if self.top() < 1 {
            None
        } else if idx <= LUA_REGISTRYINDEX {
            self.pop(1)
        } else {
            match self.position(idx) {
                Some(p) => Some(
                    Frame { slots: self.slots.update(p, self.peek()).drop_last(), capacity: self.capacity },
                ),
                None => None,
            }
        }
    }

    /// The frame with a copy of the value at `idx` on top.
    pub open spec fn push_copy(self, idx: int) -> Option<Frame> {
        match self.slot_at(idx) {
            Some(slot) => self.push(slot),
            None => None,
        }
    }

    /// Whether `idx` is known to address a value that can be looked into and
    /// stored into: a table, or a block of host memory, which its metatable
    /// serves.
    pub open spec fn indexable_at(self, idx: int) -> bool {
        self.slot_at(idx) matches Some(slot) && (slot is Table || slot is Userdata)
    }

    /// Whether the value at `idx` can be the target of a table access: a raw
    /// access needs a table, any other needs a value that can be looked into.
    pub open spec fn target_at(self, idx: int, raw: bool) -> bool {
        if raw {
            self.table_at(idx)
        } else {
            self.indexable_at(idx)
        }
    }

    /// The frame after a lookup in the value at `idx` with the key on top:
    /// the key is replaced by what was found, of which nothing is known.
    pub open spec fn table_get(self, idx: int, raw: bool) -> Option<Frame> {
        if self.top() >= 1 && self.target_at(idx, raw) {
            Some(Frame { slots: self.slots.drop_last().push(Slot::Unknown), capacity: self.capacity })
        } else {
            None
        }
    }

    /// The frame after a store into the value at `idx` of the value on top
    /// under the key below it: both leave the stack. The key has to be known
    /// not to be nil.
    pub open spec fn table_set(self, idx: int, raw: bool) -> Option<Frame> {
        if self.top() >= 2 && self.target_at(idx, raw) && self.slots[self.top() - 2].is_key() {
            self.pop(2)
        } else {
            None
        }
    }

    /// The frame after a lookup in the value at `idx` with a key that is not
    /// on the stack: what was found is on top.
    pub open spec fn table_get_keyed(self, idx: int, raw: bool) -> Option<Frame> {
        if self.target_at(idx, raw) {
            self.push(Slot::Unknown)
        } else {
            None
        }
    }

    /// The frame after a store into the value at `idx` of the value on top
    /// under a key that is not on the stack: the value leaves the stack.
    pub open spec fn table_set_keyed(self, idx: int, raw: bool) -> Option<Frame> {
        if self.top() >= 1 && self.target_at(idx, raw) {
            self.pop(1)
        } else {
            None
        }
    }

    /// The frame after a function was made from its `nups` topmost values.
    pub open spec fn push_closure(self, nups: int) -> Option<Frame> {
        match self.pop(nups) {
            Some(frame) => frame.push(Slot::Function),
            None => None,
        }
    }

    /// The frame after the table on top was taken off and made the shared
    /// metatable of a tag.
    pub open spec fn take_metatable(self) -> Option<Frame> {
        if self.top() >= 1 && self.peek() is Table {
            self.pop(1)
        } else {
            None
        }
    }
}

/// Every step of the model keeps a frame within its slots.
pub proof fn lemma_frame_steps_keep_wf(frame: Frame, idx: int, n: int, slot: Slot, raw: bool)
    requires
        frame.wf(),
    ensures
        frame.reserve(n) matches Some(f) ==> f.wf() && f.slots == frame.slots && f.free() >= n
            && f.capacity >= frame.capacity,
        frame.push(slot) matches Some(f) ==> f.wf(),
        frame.pop(n) matches Some(f) ==> f.wf(),
        frame.set_top(idx) matches Some(f) ==> f.wf() && f.top() == (if idx >= 0 {
            idx
        } else {
            frame.top() + idx + 1
        }),
        frame.remove(idx) matches Some(f) ==> f.wf() && f.top() == frame.top() - 1,
        frame.insert(idx) matches Some(f) ==> f.wf() && f.top() == frame.top(),
        frame.replace(idx) matches Some(f) ==> f.wf() && f.top() == frame.top() - 1,
        frame.push_copy(idx) matches Some(f) ==> f.wf() && f.top() == frame.top() + 1,
        frame.table_get(idx, raw) matches Some(f) ==> f.wf() && f.top() == frame.top(),
        frame.table_set(idx, raw) matches Some(f) ==> f.wf() && f.top() == frame.top() - 2,
        frame.table_get_keyed(idx, raw) matches Some(f) ==> f.wf() && f.top() == frame.top() + 1,
        frame.table_set_keyed(idx, raw) matches Some(f) ==> f.wf() && f.top() == frame.top() - 1,
        frame.push_closure(n) matches Some(f) ==> f.wf() && f.top() == frame.top() - n + 1,
        frame.take_metatable() matches Some(f) ==> f.wf() && f.top() == frame.top() - 1,
{
}

/// A negative index and its absolute form address the same slot, and the
/// absolute form of an index inside the frame lies between one and the top.
pub proof fn lemma_abs_index(frame: Frame, idx: int)
    requires
        frame.position(idx) is Some,
    ensures
        1 <= frame.abs_index(idx) <= frame.top(),
        frame.position(frame.abs_index(idx)) == frame.position(idx),
        frame.abs_index(frame.abs_index(idx)) == frame.abs_index(idx),
{
}

/// Dropping the `n` topmost values and setting the top `n` steps lower are the
/// same.
pub proof fn lemma_pop_is_set_top(frame: Frame, n: int)
    requires
        n >= 0,
    ensures
        frame.set_top(crate::sys::spec_pop(n)) == frame.pop(n),
{
}

} // verus!
