//! Resource handles: one shared ownership block per foreign resource.
//!
//! A block records the resource's address, an opaque payload, whether the
//! block owns the resource, and how many references to it are live. Taking a
//! further reference and giving one up are the only two events; the block
//! decides on each drop whether the release routine has to run now.

use vstd::prelude::*;
use core::marker::PhantomData;

verus! {

/// What a block says about its resource: where it is, what payload goes back
/// to the release routine, and whether there is a release routine at all.
pub struct LLShim<K, T> {
    val: usize,
    key: K,
    owning: bool,
    phantom: PhantomData<T>,
}

/// The shared ownership block of one resource, with its reference count.
pub struct LLHandle<K, T> {
    shim: LLShim<K, T>,
    refs: usize,
}

/// The mathematical content of a handle.
pub struct Block<K> {
    pub ptr: usize,
    pub key: K,
    pub owning: bool,
    pub refs: nat,
}

/// What can happen to a block: one more reference, or one fewer.
pub enum Event {
    Clone,
    Drop,
}

impl<K> Block<K> {
    /// At least one reference is left.
    pub open spec fn live(self) -> bool {
        self.refs > 0
    }

    /// Owning blocks point somewhere. Every block that is made is such a
    /// block, and no event changes that.
    pub open spec fn wf(self) -> bool {
        self.owning ==> self.ptr != 0
    }

    /// A drop in this state is the one that runs the release routine.
    pub open spec fn fires(self) -> bool {
        self.owning && self.refs == 1
    }

    /// The block after one event. A block without references stays as it is.
    pub open spec fn step(self, e: Event) -> Self {
        if self.refs == 0 {
            self
        } else {
            match e {
                Event::Clone => Block { refs: self.refs + 1, ..self },
                Event::Drop => Block { refs: (self.refs - 1) as nat, ..self },
            }
        }
    }

    /// The block after a sequence of events.
    pub open spec fn run(self, evs: Seq<Event>) -> Self
        decreases evs.len(),
    {
        if evs.len() == 0 {
            self
        } else {
            self.step(evs[0]).run(evs.drop_first())
        }
    }

    /// How often the release routine runs during a sequence of events.
    pub open spec fn released(self, evs: Seq<Event>) -> nat
        decreases evs.len(),
    {
        if evs.len() == 0 {
            0
        } else {
            let now: nat = if evs[0] is Drop && self.fires() { 1 } else { 0 };
            now + self.step(evs[0]).released(evs.drop_first())
        }
    }
}

/// `n` times the same event.
pub open spec fn repeat(e: Event, n: nat) -> Seq<Event> {
    Seq::new(n, |i: int| e)
}

impl<K, T> View for LLHandle<K, T> {
    type V = Block<K>;

    closed spec fn view(&self) -> Block<K> {
        Block {
            ptr: self.shim.val,
            key: self.shim.key,
            owning: self.shim.owning,
            refs: self.refs as nat,
        }
    }
}

impl<K, T> LLHandle<K, T> {
    /// An owning block never points nowhere.
    #[verifier::type_invariant]
    closed spec fn inv(self) -> bool {
        self.shim.owning ==> self.shim.val != 0
    }

    /// A new owning block for the resource at `ptr`, with one reference.
    /// `key` is handed to the release routine together with `ptr` when the
    /// last reference goes.
    pub fn from_raw_parts(ptr: usize, key: K) -> (h: Self)
        requires
            ptr != 0,
        ensures
            h@ == (Block { ptr, key, owning: true, refs: 1 }),
            h@.wf(),
    {
        LLHandle { shim: LLShim { val: ptr, key, owning: true, phantom: PhantomData }, refs: 1 }
    }

    /// A block for a resource that something else owns: nothing is ever
    /// released through it.
    pub fn leaked(ptr: usize, key: K) -> (h: Self)
        ensures
            h@ == (Block { ptr, key, owning: false, refs: 1 }),
            h@.wf(),
    {
        LLHandle { shim: LLShim { val: ptr, key, owning: false, phantom: PhantomData }, refs: 1 }
    }

    /// The address of the resource. In an owning block it is never 0.
    pub fn ptr(&self) -> (p: usize)
        ensures
            p == self@.ptr,
            self@.wf(),
    {
        proof {
            use_type_invariant(self);
        }
        self.shim.val
    }

    /// The payload.
    pub fn key(&self) -> (k: &K)
        ensures
            *k == self@.key,
    {
        &self.shim.key
    }

    /// Whether the release routine runs when the last reference goes.
    pub fn is_owning(&self) -> (b: bool)
        ensures
            b == self@.owning,
    {
        self.shim.owning
    }

    /// The number of live references.
    pub fn refs(&self) -> (n: usize)
        ensures
            n == self@.refs,
    {
        self.refs
    }

    /// Takes one more reference. The backend is not touched.
    pub fn retain(&mut self)
        requires
            old(self)@.live(),
            old(self)@.refs < usize::MAX,
        ensures
            final(self)@ == old(self)@.step(Event::Clone),
            final(self)@.refs == old(self)@.refs + 1,
    {
        proof {
            use_type_invariant(&*self);
        }
        self.refs = self.refs + 1;
    }

    /// Gives one reference up. Returns `true` exactly when this was the last
    /// reference of an owning block: the caller then runs the release routine
    /// on `ptr()` and `key()`, once. Dropping from a block without references
    /// changes nothing.
    pub fn release(&mut self) -> (run_routine: bool)
        ensures
            final(self)@ == old(self)@.step(Event::Drop),
            run_routine == old(self)@.fires(),
            run_routine ==> old(self)@.ptr != 0,
    {
        proof {
            use_type_invariant(&*self);
        }
        if self.refs == 0 {
            false
        } else {
            self.refs = self.refs - 1;
            self.refs == 0 && self.shim.owning
        }
    }
}

/// Events in sequence: running `a` and then `b` is running `a + b`, and the
/// release routine runs as often as in both parts together.
pub proof fn lemma_run_concat<K>(b: Block<K>, a: Seq<Event>, c: Seq<Event>)
    ensures
        b.run(a + c) == b.run(a).run(c),
        b.released(a + c) == b.released(a) + b.run(a).released(c),
    decreases a.len(),
{
    if a.len() == 0 {
        assert(a + c =~= c);
    } else {
        assert((a + c).drop_first() =~= a.drop_first() + c);
        lemma_run_concat(b.step(a[0]), a.drop_first(), c);
    }
}

/// `n` clones of a live block add `n` references and release nothing.
pub proof fn lemma_clones<K>(b: Block<K>, n: nat)
    requires
        b.live(),
    ensures
        b.run(repeat(Event::Clone, n)) == (Block { refs: b.refs + n, ..b }),
        b.released(repeat(Event::Clone, n)) == 0,
    decreases n,
{
    let evs = repeat(Event::Clone, n);
    if n > 0 {
        assert(evs.drop_first() =~= repeat(Event::Clone, (n - 1) as nat));
        lemma_clones(b.step(Event::Clone), (n - 1) as nat);
    }
}

/// `n` drops from a block that has at least `n` references take `n`
/// references away; the release routine runs once if the block owns its
/// resource and the last reference was among them, and not at all otherwise.
pub proof fn lemma_drops<K>(b: Block<K>, n: nat)
    requires
        n <= b.refs,
    ensures
        b.run(repeat(Event::Drop, n)) == (Block { refs: (b.refs - n) as nat, ..b }),
        b.released(repeat(Event::Drop, n)) == if b.owning && n == b.refs && n > 0 {
            1nat
        } else {
            0nat
        },
    decreases n,
{
    let evs = repeat(Event::Drop, n);
    if n > 0 {
        assert(evs.drop_first() =~= repeat(Event::Drop, (n - 1) as nat));
        lemma_drops(b.step(Event::Drop), (n - 1) as nat);
    }
}

/// A fresh owning block that is cloned `n` times and then dropped `n + 1`
/// times runs its release routine exactly once: at the last drop and not
/// before, on the address and the payload it was created with.
pub proof fn lemma_owned_released_once<K>(b: Block<K>, n: nat)
    requires
        b.owning,
        b.refs == 1,
    ensures
        b.released(repeat(Event::Clone, n) + repeat(Event::Drop, n + 1)) == 1,
        b.released(repeat(Event::Clone, n) + repeat(Event::Drop, n)) == 0,
        b.run(repeat(Event::Clone, n) + repeat(Event::Drop, n)).fires(),
        b.run(repeat(Event::Clone, n) + repeat(Event::Drop, n)).ptr == b.ptr,
        b.run(repeat(Event::Clone, n) + repeat(Event::Drop, n)).key == b.key,
        !b.run(repeat(Event::Clone, n) + repeat(Event::Drop, n + 1)).live(),
{
    let clones = repeat(Event::Clone, n);
    let mid = b.run(clones);
    lemma_clones(b, n);
    lemma_drops(mid, n);
    lemma_drops(mid, n + 1);
    lemma_run_concat(b, clones, repeat(Event::Drop, n));
    lemma_run_concat(b, clones, repeat(Event::Drop, n + 1));
}

/// Whatever the order of clones and drops, the release routine of a block
/// never runs twice, and it has run exactly when an owning block that was
/// live has no reference left. A block without references never comes back
/// to life, and no event changes the address, the payload or the ownership.
pub proof fn lemma_released_at_most_once<K>(b: Block<K>, evs: Seq<Event>)
    ensures
        b.released(evs) <= 1,
        b.released(evs) == 1 <==> b.owning && b.live() && !b.run(evs).live(),
        !b.live() ==> !b.run(evs).live(),
        b.run(evs).ptr == b.ptr,
        b.run(evs).key == b.key,
        b.run(evs).owning == b.owning,
        b.wf() ==> b.run(evs).wf(),
    decreases evs.len(),
{
    if evs.len() > 0 {
        lemma_released_at_most_once(b.step(evs[0]), evs.drop_first());
    }
}

/// A block that does not own its resource never runs a release routine,
/// however it is cloned and dropped.
pub proof fn lemma_leaked_never_released<K>(b: Block<K>, evs: Seq<Event>)
    requires
        !b.owning,
    ensures
        b.released(evs) == 0,
{
    lemma_released_at_most_once(b, evs);
}

} // verus!
