//! Host object types: the tag that names each of them to the machine, and the
//! methods that scripts may call on their values.

use vstd::prelude::*;

use crate::extra::{check_name, Function};
use crate::sys::LUA_UTAG_LIMIT;
use crate::Config;

verus! {

/// A host type whose values can live inside the machine.
pub trait Userdata {
    /// The tag that names the type to the machine: the same at every query.
    fn tag() -> u32;

    /// The name of the type, as scripts see it.
    fn name() -> &'static str;
}

/// The source of tags: it hands out 1, 2, 3, ... and never the same tag
/// twice. One counter serves every instance of the machine in the process.
pub struct TagCounter {
    next: u32,
}

impl TagCounter {
    #[verifier::type_invariant]
    spec fn inv(self) -> bool {
        1 <= self.next <= LUA_UTAG_LIMIT
    }

    /// The tag that the counter hands out next.
    pub closed spec fn spec_next(self) -> u32 {
        self.next
    }

    /// Whether every tag below the limit has been handed out.
    pub open spec fn spec_exhausted(self) -> bool {
        self.spec_next() >= LUA_UTAG_LIMIT
    }

    /// A counter that has handed out nothing yet.
    pub fn new() -> (counter: Self)
        ensures
            counter.spec_next() == 1,
    {
        TagCounter { next: 1 }
    }

    /// The tag that the counter hands out next.
    pub fn next(&self) -> (next: u32)
        ensures
            next == self.spec_next(),
            1 <= next <= LUA_UTAG_LIMIT,
    {
        proof {
            use_type_invariant(self);
        }
        self.next
    }

    /// Whether every tag below the limit has been handed out.
    pub fn exhausted(&self) -> (exhausted: bool)
        ensures
            exhausted == self.spec_exhausted(),
    {
        self.next >= LUA_UTAG_LIMIT as u32
    }
}

/// A tag that was never handed out before. To ask for more tags than the
/// machine has is a fault of the host: the limit is on the number of host
/// types in the whole process.
pub fn unique_tag(counter: &mut TagCounter) -> (tag: u32)
    requires
        !old(counter).spec_exhausted(),
    ensures
        tag == old(counter).spec_next(),
        final(counter).spec_next() == tag + 1,
        1 <= tag < LUA_UTAG_LIMIT,
{
    proof {
        use_type_invariant(&*counter);
    }
    let tag = counter.next;
    counter.next = tag + 1;
    tag
}

/// The tags of the host types of a process, by a key that stands for the
/// type. A type gets its tag when it is first asked for, and keeps it.
pub struct TagRegistry {
    counter: TagCounter,
    keys: Vec<usize>,
    tags: Vec<u32>,
}

impl TagRegistry {
    /// What every registry keeps: no key stands twice, the tags were handed
    /// out in rising order, and each of them came from the counter.
    pub closed spec fn wf(self) -> bool {
        &&& self.counter.spec_next() <= LUA_UTAG_LIMIT
        &&& self.keys@.len() == self.tags@.len()
        &&& forall|i: int, j: int|
            0 <= i < j < self.keys@.len() ==> self.keys@[i] != self.keys@[j] && self.tags@[i]
                < self.tags@[j]
        &&& forall|i: int|
            0 <= i < self.tags@.len() ==> 1 <= #[trigger] self.tags@[i] < self.counter.spec_next()
    }

    /// Where `key` stands among the keys that have a tag.
    closed spec fn index_of(self, key: usize) -> int {
        choose|i: int| 0 <= i < self.keys@.len() && self.keys@[i] == key
    }

    /// Whether the type that `key` stands for has a tag.
    pub closed spec fn has(self, key: usize) -> bool {
        exists|i: int| 0 <= i < self.keys@.len() && self.keys@[i] == key
    }

    /// The tag of the type that `key` stands for, where it has one.
    pub closed spec fn tag_of(self, key: usize) -> u32 {
        self.tags@[self.index_of(key)]
    }

    /// The tag that the next new type gets.
    pub closed spec fn spec_next(self) -> u32 {
        self.counter.spec_next()
    }

    /// A registry in which no type has a tag yet.
    pub fn new() -> (registry: Self)
        ensures
            registry.wf(),
            forall|key: usize| !registry.has(key),
            registry.spec_next() == 1,
    {
        TagRegistry { counter: TagCounter::new(), keys: Vec::new(), tags: Vec::new() }
    }

    /// The tag of the type that `key` stands for, if it has one.
    pub fn lookup(&self, key: usize) -> (tag: Option<u32>)
        requires
            self.wf(),
        ensures
            tag is Some <==> self.has(key),
            tag is Some ==> tag->0 == self.tag_of(key) && 1 <= tag->0 < LUA_UTAG_LIMIT,
    {
        let n = self.keys.len();
        let mut i: usize = 0;
        while i < n
            invariant
                n == self.keys@.len(),
                n == self.tags@.len(),
                self.wf(),
                0 <= i <= n,
                forall|j: int| 0 <= j < i ==> self.keys@[j] != key,
            decreases n - i,
        {
            if self.keys[i] == key {
                proof {
                    self.lemma_index(i as int);
                }
                return Some(self.tags[i]);
            }
            i += 1;
        }
        None
    }

    /// The tag of the type that `key` stands for. The first query for a type
    /// takes a new tag for it; every later query gives the same tag. To ask
    /// for a new tag when none is left is a fault of the host.
    pub fn tag(&mut self, key: usize) -> (tag: u32)
        requires
            old(self).wf(),
            old(self).has(key) || old(self).spec_next() < LUA_UTAG_LIMIT,
        ensures
            final(self).wf(),
            final(self).has(key),
            final(self).tag_of(key) == tag,
            1 <= tag < LUA_UTAG_LIMIT,
            old(self).has(key) ==> tag == old(self).tag_of(key) && final(self).spec_next() == old(
                self,
            ).spec_next(),
            !old(self).has(key) ==> tag == old(self).spec_next() && final(self).spec_next() == tag
                + 1,
            forall|other: usize|
                other != key ==> (final(self).has(other) <==> old(self).has(other)),
            forall|other: usize|
                old(self).has(other) ==> final(self).tag_of(other) == old(self).tag_of(other),
    {
        match self.lookup(key) {
            Some(tag) => tag,
            None => {
                let ghost before = *self;
                let tag = unique_tag(&mut self.counter);
                self.keys.push(key);
                self.tags.push(tag);
                proof {
                    let last = before.keys@.len() as int;
                    assert(self.keys@[last] == key);
                    assert(self.wf());
                    self.lemma_index(last);
                    assert forall|other: usize| old(self).has(other) implies self.tag_of(other)
                        == old(self).tag_of(other) by {
                        let i = before.index_of(other);
                        assert(self.keys@[i] == other);
                        self.lemma_index(i);
                    }
                    assert forall|other: usize| other != key implies (self.has(other) <==> old(
                        self,
                    ).has(other)) by {
                        if self.has(other) {
                            let i = self.index_of(other);
                            assert(before.keys@[i] == other);
                        }
                        if before.has(other) {
                            let i = before.index_of(other);
                            assert(self.keys@[i] == other);
                        }
                    }
                }
                tag
            },
        }
    }

    /// Whether every tag below the limit has been handed out.
    pub fn exhausted(&self) -> (exhausted: bool)
        ensures
            exhausted == (self.spec_next() >= LUA_UTAG_LIMIT),
    {
        self.counter.exhausted()
    }

    /// A tag for no type in particular: it was never handed out before, and
    /// no type will get it.
    pub fn fresh(&mut self) -> (tag: u32)
        requires
            old(self).wf(),
            old(self).spec_next() < LUA_UTAG_LIMIT,
        ensures
            final(self).wf(),
            tag == old(self).spec_next(),
            final(self).spec_next() == tag + 1,
            1 <= tag < LUA_UTAG_LIMIT,
            forall|key: usize| final(self).has(key) <==> old(self).has(key),
            forall|key: usize|
                old(self).has(key) ==> final(self).tag_of(key) == old(self).tag_of(key)
                    && final(self).tag_of(key) != tag,
    {
        let tag = unique_tag(&mut self.counter);
        proof {
            assert forall|key: usize| old(self).has(key) implies self.tag_of(key) == old(
                self,
            ).tag_of(key) && self.tag_of(key) != tag by {
                let i = old(self).index_of(key);
                assert(self.keys@[i] == key);
                self.lemma_index(i);
                old(self).lemma_index(i);
            }
        }
        tag
    }

    /// The tag of the type that `key` stands for, as `tag` gives it; `None`,
    /// and nothing changed, where the type has no tag yet and none is left.
    pub fn try_tag(&mut self, key: usize) -> (tag: Option<u32>)
        requires
            old(self).wf(),
        ensures
            final(self).wf(),
            tag is None <==> !old(self).has(key) && old(self).spec_next() >= LUA_UTAG_LIMIT,
            tag is None ==> *final(self) == *old(self),
            tag matches Some(t) ==> final(self).has(key) && final(self).tag_of(key) == t && 1 <= t
                < LUA_UTAG_LIMIT && (old(self).has(key) ==> t == old(self).tag_of(key)) && (!old(
                self,
            ).has(key) ==> t == old(self).spec_next()),
            forall|other: usize|
                other != key ==> (final(self).has(other) <==> old(self).has(other)),
            forall|other: usize|
                old(self).has(other) ==> final(self).tag_of(other) == old(self).tag_of(other),
    {
        match self.lookup(key) {
            Some(tag) => Some(tag),
            None => {
                if self.counter.exhausted() {
                    None
                } else {
                    Some(self.tag(key))
                }
            },
        }
    }

    /// The key at place `i` has the tag at place `i`.
    proof fn lemma_index(self, i: int)
        requires
            self.wf(),
            0 <= i < self.keys@.len(),
        ensures
            self.has(self.keys@[i]),
            self.index_of(self.keys@[i]) == i,
            self.tag_of(self.keys@[i]) == self.tags@[i],
    {
        let j = self.index_of(self.keys@[i]);
        if j < i {
            assert(self.keys@[j] != self.keys@[i]);
        }
        if i < j {
            assert(self.keys@[i] != self.keys@[j]);
        }
    }

    /// Two different host types never have the same tag, and every tag lies
    /// between one and the limit.
    pub proof fn lemma_tags_distinct(self, a: usize, b: usize)
        requires
            self.wf(),
            self.has(a),
            self.has(b),
            a != b,
        ensures
            self.tag_of(a) != self.tag_of(b),
            1 <= self.tag_of(a) < LUA_UTAG_LIMIT,
            1 <= self.tag_of(b) < LUA_UTAG_LIMIT,
    {
        let i = self.index_of(a);
        let j = self.index_of(b);
        if i < j {
            assert(self.tags@[i] < self.tags@[j]);
        } else if j < i {
            assert(self.tags@[j] < self.tags@[i]);
        }
    }
}

/// The methods of a host type: native functions by name, in the order in
/// which they were added.
pub struct Methods<C: Config> {
    pub methods: Vec<(&'static str, Function<C>)>,
}

impl<C: Config> Default for Methods<C> {
    fn default() -> (methods: Self)
        ensures
            methods.methods@ == Seq::<(&'static str, Function<C>)>::empty(),
    {
        Methods { methods: Vec::new() }
    }
}

impl<C: Config> Methods<C> {
    /// Whether the machine can take the name of every function among the
    /// methods from the `i`-th on.
    pub open spec fn names_ok_from(methods: Seq<(&'static str, Function<C>)>, i: int) -> bool
        decreases methods.len() - i,
    {
        if 0 <= i < methods.len() {
            methods[i].1.name_ok() && Self::names_ok_from(methods, i + 1)
        } else {
            true
        }
    }

    /// Whether the machine can take the name of every function among the
    /// methods.
    pub open spec fn names_ok(self) -> bool {
        Self::names_ok_from(self.methods@, 0)
    }

    /// The methods with `func` added under `name`.
    pub fn with_method(self, name: &'static str, func: Function<C>) -> (methods: Self)
        ensures
            methods.methods@ == self.methods@.push((name, func)),
    {
        let mut methods = self;
        methods.methods.push((name, func));
        methods
    }

    /// The methods with a function of a single entry point added under
    /// `name`, which is also the function's own name.
    pub fn with_method_norm(self, name: &'static str, func: C::Function) -> (methods: Self)
        ensures
            methods.methods@ == self.methods@.push((name, Function::Normal { name, func })),
    {
        self.with_method(name, Function::norm(name, func))
    }

    /// The methods with a function with a continuation added under `name`,
    /// which is also the function's own name.
    pub fn with_method_cont(
        self,
        name: &'static str,
        func: C::Function,
        cont: C::Continuation,
    ) -> (methods: Self)
        ensures
            methods.methods@ == self.methods@.push(
                (name, Function::Continuation { name, func, cont }),
            ),
    {
        self.with_method(name, Function::cont(name, func, cont))
    }

    /// Tests whether the machine can take the name of every function among
    /// the methods.
    pub fn check_names(&self) -> (ok: bool)
        ensures
            ok == self.names_ok(),
    {
        let n = self.methods.len();
        let mut i: usize = 0;
        while i < n
            invariant
                n == self.methods@.len(),
                0 <= i <= n,
                Self::names_ok_from(self.methods@, 0) == Self::names_ok_from(
                    self.methods@,
                    i as int,
                ),
            decreases n - i,
        {
            if !check_name(self.methods[i].1.name()) {
                return false;
            }
            i += 1;
        }
        true
    }
}

} // verus!
