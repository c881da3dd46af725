//! Handles to execution contexts, the request that resumes one, and the
//! events by which the machine announces that a context was created or has
//! died.

use std::marker::PhantomData;
use vstd::prelude::*;

use crate::extra::{Ref, Status};
use crate::Config;

verus! {

/// A handle to one execution context of an instance configured by `C`. The
/// handle does not own the context; `id` is the machine's name for it and is
/// never zero for a live context.
pub struct Thread<C> {
    pub id: usize,
    pub marker: PhantomData<C>,
}

impl<C> Clone for Thread<C> {
    fn clone(&self) -> (copy: Self)
        ensures
            copy == *self,
    {
        Thread { id: self.id, marker: PhantomData }
    }
}

impl<C> Copy for Thread<C> {

}

/// The root context of an instance. It lives as long as the instance, and the
/// data attached to it is the instance's shared data.
pub struct ThreadMain<C> {
    pub thread: Thread<C>,
}

impl<C> Clone for ThreadMain<C> {
    fn clone(&self) -> (copy: Self)
        ensures
            copy == *self,
    {
        ThreadMain { thread: self.thread }
    }
}

impl<C> Copy for ThreadMain<C> {

}

/// A secondary context together with the reference that keeps it alive.
pub struct ThreadRef<C: Config> {
    pub thread: Thread<C>,
    pub thref: Ref<C>,
}

/// What is handed to the machine to resume a context.
#[derive(Clone, Copy, Debug, PartialEq, Eq, Structural)]
pub struct Resume {
    /// The context to run.
    pub thread: usize,
    /// The context that resumes it, for the accounting of call depth; zero if
    /// there is none.
    pub from: usize,
    /// How many values on top of the context's stack are the arguments.
    pub nargs: i32,
}

impl<C: Config> Thread<C> {
    /// The handle to the context that the machine names `id`.
    pub fn new(id: usize) -> (thread: Self)
        requires
            id != 0,
        ensures
            thread.id == id,
    {
        Thread { id, marker: PhantomData }
    }

    /// The machine's name for the context.
    pub fn as_ptr(&self) -> (id: usize)
        ensures
            id == self.id,
    {
        self.id
    }

    /// The root context of the instance, which the machine names `root`.
    pub fn main(&self, root: usize) -> (main: ThreadMain<C>)
        requires
            root != 0,
        ensures
            main.thread.id == root,
    {
        ThreadMain { thread: Thread { id: root, marker: PhantomData } }
    }

    /// Whether this context is the root context `main`.
    pub open spec fn spec_is_main(&self, main: &ThreadMain<C>) -> bool {
        self.id == main.thread.id
    }

    /// Whether this context is the root context `main`.
    pub fn is_main(&self, main: &ThreadMain<C>) -> (root: bool)
        ensures
            root == self.spec_is_main(main),
    {
        self.id == main.thread.id
    }

    /// The context whose attached cell holds this context's own data. The
    /// root context has none of that kind: what is attached to it is the
    /// shared data of the instance.
    pub fn data(&self, main: &ThreadMain<C>) -> (owner: usize)
        requires
            !self.spec_is_main(main),
        ensures
            owner == self.id,
    {
        self.id
    }

    /// The request that resumes this context with the `nargs` values on top
    /// of its stack as arguments, on behalf of `from` if there is one.
    pub fn resume(&self, from: Option<&Thread<C>>, nargs: u32) -> (request: Resume)
        requires
            nargs <= i32::MAX,
        ensures
            request.thread == self.id,
            request.nargs == nargs,
            request.from == (match from {
                Some(thread) => thread.id,
                None => 0usize,
            }),
    {
        let from = match from {
            Some(thread) => thread.id,
            None => 0,
        };
        Resume { thread: self.id, from, nargs: nargs as i32 }
    }

    /// The status with which a resumption ended, read from the integer that
    /// the machine returned.
    pub fn resumed(&self, code: i32) -> (status: Option<Status>)
        ensures
            status == Status::spec_from_code(code as int),
    {
        Status::from_code(code)
    }
}

impl<C: Config> ThreadMain<C> {
    /// The root context that the machine names `id`.
    pub fn new(id: usize) -> (main: Self)
        requires
            id != 0,
        ensures
            main.thread.id == id,
    {
        ThreadMain { thread: Thread { id, marker: PhantomData } }
    }

    /// The root context as a plain context handle.
    pub fn thread(&self) -> (thread: Thread<C>)
        ensures
            thread == self.thread,
    {
        self.thread
    }

    /// The context whose attached cell holds the shared data of the
    /// instance: the root context itself.
    pub fn data(&self) -> (owner: usize)
        ensures
            owner == self.thread.id,
    {
        self.thread.id
    }
}

impl<C: Config> ThreadRef<C> {
    /// The context as a plain context handle.
    pub fn thread(&self) -> (thread: Thread<C>)
        ensures
            thread == self.thread,
    {
        self.thread
    }
}

/// What the machine announces about a secondary context.
pub enum ThreadEvent<C> {
    /// `thread` was created from `parent`: its data is to be made and
    /// attached to it.
    Created { parent: Thread<C>, thread: Thread<C> },
    /// `thread` is dead: the data attached to it is to be destroyed.
    Destroyed { thread: Thread<C> },
}

/// One call of the machine's context hook: the creating context (zero when
/// the call announces a death) and the context the call is about.
pub struct HookCall {
    pub parent: usize,
    pub thread: usize,
}

/// Reads a call of the context hook: with a parent it announces a creation,
/// without one a death.
pub open spec fn spec_userthread<C>(parent: usize, thread: usize) -> ThreadEvent<C> {
    if parent != 0 {
        ThreadEvent::Created {
            parent: Thread { id: parent, marker: PhantomData },
            thread: Thread { id: thread, marker: PhantomData },
        }
    } else {
        ThreadEvent::Destroyed { thread: Thread { id: thread, marker: PhantomData } }
    }
}

/// The context hook of an instance: reads what the machine announces.
pub fn userthread<C: Config>(parent: usize, thread: usize) -> (event: ThreadEvent<C>)
    requires
        thread != 0,
    ensures
        event == spec_userthread::<C>(parent, thread),
{
    if parent != 0 {
        ThreadEvent::Created {
            parent: Thread { id: parent, marker: PhantomData },
            thread: Thread { id: thread, marker: PhantomData },
        }
    } else {
        ThreadEvent::Destroyed { thread: Thread { id: thread, marker: PhantomData } }
    }
}

impl<C> ThreadEvent<C> {
    /// Whether the event asks for the data of context `thread` to be made.
    pub open spec fn makes(self, thread: usize) -> bool {
        self matches ThreadEvent::Created { thread: made, .. } && made.id == thread
    }

    /// Whether the event asks for the data of context `thread` to be
    /// destroyed.
    pub open spec fn destroys(self, thread: usize) -> bool {
        self matches ThreadEvent::Destroyed { thread: dead } && dead.id == thread
    }
}

impl HookCall {
    /// What the hook reads from this call.
    pub open spec fn event<C>(self) -> ThreadEvent<C> {
        spec_userthread::<C>(self.parent, self.thread)
    }
}

/// How many times the hook asks for the data of context `thread` to be made
/// in answer to `calls`.
pub open spec fn constructions<C>(calls: Seq<HookCall>, thread: usize) -> nat
    decreases calls.len(),
{
    if calls.len() == 0 {
        0
    } else {
        constructions::<C>(calls.drop_last(), thread) + if calls.last().event::<C>().makes(thread) {
            1nat
        } else {
            0nat
        }
    }
}

/// How many times the hook asks for the data of context `thread` to be
/// destroyed in answer to `calls`.
pub open spec fn destructions<C>(calls: Seq<HookCall>, thread: usize) -> nat
    decreases calls.len(),
{
    if calls.len() == 0 {
        0
    } else {
        destructions::<C>(calls.drop_last(), thread) + if calls.last().event::<C>().destroys(
            thread,
        ) {
            1nat
        } else {
            0nat
        }
    }
}

/// What the machine promises about the hook calls for one context up to now:
/// it announces the creation at most once, and a death only after the
/// creation and at most once.
pub open spec fn delivered_in_order<C>(calls: Seq<HookCall>, thread: usize) -> bool {
    forall|n: int|
        0 <= n <= calls.len() ==> {
            let seen = #[trigger] calls.take(n);
            destructions::<C>(seen, thread) <= constructions::<C>(seen, thread) <= 1
        }
}

/// The counts after one more call are the counts before it, plus one where
/// the hook reads the call as an event about `thread`.
pub proof fn lemma_counts_push<C>(calls: Seq<HookCall>, call: HookCall, thread: usize)
    ensures
        constructions::<C>(calls.push(call), thread) == constructions::<C>(calls, thread)
            + if call.event::<C>().makes(thread) {
            1nat
        } else {
            0nat
        },
        destructions::<C>(calls.push(call), thread) == destructions::<C>(calls, thread)
            + if call.event::<C>().destroys(thread) {
            1nat
        } else {
            0nat
        },
{
    assert(calls.push(call).drop_last() =~= calls);
    assert(calls.push(call).last() == call);
}

/// The data of a context exists exactly between the announcement of its
/// creation and the announcement of its death: under the machine's promise,
/// at every moment the hook has asked for it to be made at most once and to
/// be destroyed at most once, never to be destroyed before it was made; once
/// the creation was announced it has been made exactly once, and once the
/// death was announced as well it has been destroyed exactly once.
pub proof fn lemma_context_data_exactly_once<C>(
    calls: Seq<HookCall>,
    thread: usize,
    c: int,
    d: int,
)
    requires
        delivered_in_order::<C>(calls, thread),
        0 <= c < calls.len(),
        calls[c].event::<C>().makes(thread),
    ensures
        constructions::<C>(calls, thread) == 1,
        destructions::<C>(calls, thread) <= 1,
        constructions::<C>(calls.take(c), thread) == 0,
        destructions::<C>(calls.take(c + 1), thread) == 0,
        (0 <= d < calls.len() && calls[d].event::<C>().destroys(thread)) ==> (c < d
            && destructions::<C>(calls, thread) == 1 && destructions::<C>(calls.take(d), thread)
            == 0),
{
    lemma_counts_monotone::<C>(calls, thread, c + 1, calls.len() as int);
    lemma_counts_monotone::<C>(calls, thread, c, c + 1);
    assert(calls.take(calls.len() as int) =~= calls);
    assert(calls.take(c + 1) =~= calls.take(c).push(calls[c]));
    lemma_counts_push::<C>(calls.take(c), calls[c], thread);
    let whole = calls.take(calls.len() as int);
    let upto = calls.take(c + 1);
    let before = calls.take(c);
    assert(destructions::<C>(whole, thread) <= constructions::<C>(whole, thread) <= 1);
    assert(destructions::<C>(upto, thread) <= constructions::<C>(upto, thread) <= 1);
    assert(destructions::<C>(before, thread) <= constructions::<C>(before, thread) <= 1);
    if 0 <= d < calls.len() && calls[d].event::<C>().destroys(thread) {
        assert(calls.take(d + 1) =~= calls.take(d).push(calls[d]));
        lemma_counts_push::<C>(calls.take(d), calls[d], thread);
        let with_d = calls.take(d + 1);
        let before_d = calls.take(d);
        assert(destructions::<C>(with_d, thread) <= constructions::<C>(with_d, thread) <= 1);
        assert(destructions::<C>(before_d, thread) <= constructions::<C>(before_d, thread) <= 1);
        lemma_counts_monotone::<C>(calls, thread, d + 1, calls.len() as int);
        if d < c {
            lemma_counts_monotone::<C>(calls, thread, d + 1, c);
        }
    }
}

/// Neither count ever goes down as calls arrive.
pub proof fn lemma_counts_monotone<C>(calls: Seq<HookCall>, thread: usize, m: int, n: int)
    requires
        0 <= m <= n <= calls.len(),
    ensures
        constructions::<C>(calls.take(m), thread) <= constructions::<C>(calls.take(n), thread),
        destructions::<C>(calls.take(m), thread) <= destructions::<C>(calls.take(n), thread),
    decreases n - m,
{
    if m < n {
        lemma_counts_monotone::<C>(calls, thread, m, n - 1);
        assert(calls.take(n) =~= calls.take(n - 1).push(calls[n - 1]));
        lemma_counts_push::<C>(calls.take(n - 1), calls[n - 1], thread);
    }
}

} // verus!
