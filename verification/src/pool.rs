//! The pool: a cache of idle engine instances plus the recipe to create
//! more.
//!
//! Creating an engine instance is expensive (a database is loaded and
//! parsed), so instances released by pool-affiliated leases are kept in an
//! idle set and handed out again on checkout. The idle set is unbounded and
//! never proactively shrinks.
//!
//! The types here are the sequential core of the pool: the free-list
//! discipline itself. The unverified rim shares one [`Reservoir`] among
//! threads behind a mutual-exclusion lock held only for the duration of one
//! [`Reservoir::checkout`] or [`Reservoir::give_back`]; instance creation
//! never happens under the lock, so an expensive creation never blocks other
//! threads' checkouts or returns.

use vstd::prelude::*;
use vstd::seq_lib::group_to_multiset_ensures;

use crate::config::Source;
use crate::error::Error;

verus! {

broadcast use group_to_multiset_ensures;

/// The idle set: engine instances currently unused, available for checkout.
pub struct Reservoir<C> {
    unused: Vec<C>,
}

impl<C> View for Reservoir<C> {
    type V = Seq<C>;

    closed spec fn view(&self) -> Seq<C> {
        self.unused@
    }
}

impl<C> Reservoir<C> {
    /// An empty idle set.
    pub fn new() -> (r: Self)
        ensures
            r@ == Seq::<C>::empty(),
    {
        let r = Reservoir { unused: Vec::new() };
        assert(r@ =~= Seq::<C>::empty());
        r
    }

    /// Takes one idle instance out, if there is one. A yielded instance
    /// leaves the idle set, so no two checkouts can obtain the same idle
    /// instance.
    pub fn checkout(&mut self) -> (r: Option<C>)
        ensures
            match r {
                Some(cookie) => old(self)@.len() > 0 && cookie == old(self)@.last() && final(self)@
                    == old(self)@.drop_last(),
                None => old(self)@.len() == 0 && final(self)@ == old(self)@,
            },
    {
        self.unused.pop()
    }

    /// Returns an instance to the idle set, growing it by exactly one.
    pub fn give_back(&mut self, cookie: C)
        ensures
            final(self)@ == old(self)@.push(cookie),
    {
        self.unused.push(cookie);
    }

    /// The number of idle instances.
    pub fn len(&self) -> (n: usize)
        ensures
            n == self@.len(),
    {
        self.unused.len()
    }
}

impl<C> Default for Reservoir<C> {
    /// An empty idle set.
    fn default() -> (r: Self)
        ensures
            r@ == Seq::<C>::empty(),
    {
        Reservoir::new()
    }
}

/// Releasing a pool-affiliated lease grows the idle set by exactly one —
/// whatever the history of the released instance — and adds exactly the
/// released instance to its contents.
pub proof fn lemma_give_back_grows_idle_by_one<C>(before: Seq<C>, after: Seq<C>, cookie: C)
    requires
        after == before.push(cookie),
    ensures
        after.len() == before.len() + 1,
        after.to_multiset() == before.to_multiset().insert(cookie),
{
    assert(after.to_multiset() =~= before.to_multiset().insert(cookie));
}

/// A successful checkout removes exactly the yielded instance from the idle
/// set: the yielded instance together with what remains makes up precisely
/// what was idle before, so two checkouts can never yield the same idle
/// instance.
pub proof fn lemma_checkout_exclusive<C>(before: Seq<C>, after: Seq<C>, got: C)
    requires
        before.len() > 0,
        got == before.last(),
        after == before.drop_last(),
    ensures
        after.len() + 1 == before.len(),
        after.to_multiset().insert(got) == before.to_multiset(),
{
    assert(before =~= after.push(got));
    assert(after.push(got).to_multiset() =~= after.to_multiset().insert(got));
}

/// How many of a series of checkouts are served from the idle set. One step
/// mirrors [`Reservoir::checkout`]: an idle instance is reused exactly when
/// one is present, and a reuse leaves one instance fewer idle. A created
/// instance is out in use, so it does not rejoin the idle set during the
/// series.
pub open spec fn spec_reuses(idle: nat, checkouts: nat) -> nat
    decreases checkouts,
{
    if checkouts == 0 {
        0
    } else if idle > 0 {
        1 + spec_reuses((idle - 1) as nat, (checkouts - 1) as nat)
    } else {
        spec_reuses(idle, (checkouts - 1) as nat)
    }
}

/// How many of a series of checkouts must create a fresh instance, under the
/// same step semantics as [`spec_reuses`].
pub open spec fn spec_creations(idle: nat, checkouts: nat) -> nat
    decreases checkouts,
{
    if checkouts == 0 {
        0
    } else if idle > 0 {
        spec_creations((idle - 1) as nat, (checkouts - 1) as nat)
    } else {
        1 + spec_creations(idle, (checkouts - 1) as nat)
    }
}

/// A series of `checkouts` checkouts against an idle set seeded with `idle`
/// instances reuses as many instances as are available — never more — and
/// creates exactly one fresh instance per checkout left unserved.
pub proof fn lemma_checkout_series(idle: nat, checkouts: nat)
    ensures
        spec_reuses(idle, checkouts) == if checkouts <= idle {
            checkouts
        } else {
            idle
        },
        spec_creations(idle, checkouts) == if checkouts <= idle {
            0nat
        } else {
            (checkouts - idle) as nat
        },
        spec_reuses(idle, checkouts) + spec_creations(idle, checkouts) == checkouts,
    decreases checkouts,
{
    if checkouts > 0 {
        if idle > 0 {
            lemma_checkout_series((idle - 1) as nat, (checkouts - 1) as nat);
        } else {
            lemma_checkout_series(idle, (checkouts - 1) as nat);
        }
    }
}

/// A thread-safe pool is this sequential core — the recipe and the idle set
/// — shared behind the rim's lock.
pub struct Pool<C> {
    flags: i32,
    source: Source,
    reservoir: Reservoir<C>,
}

impl<C> Pool<C> {
    /// The flag bitset of the pool's recipe.
    pub closed spec fn spec_flags(&self) -> i32 {
        self.flags
    }

    /// The database source of the pool's recipe.
    pub closed spec fn spec_source(&self) -> Source {
        self.source
    }

    /// The instances currently idle.
    pub closed spec fn spec_idle(&self) -> Seq<C> {
        self.reservoir@
    }

    /// Stores the recipe; no instance is created eagerly.
    pub fn new(flags: i32, source: Source) -> (p: Self)
        ensures
            p.spec_flags() == flags,
            p.spec_source() == source,
            p.spec_idle() == Seq::<C>::empty(),
    {
        Pool { flags, source, reservoir: Reservoir::new() }
    }

    /// Returns the flag bitset of the pool's recipe.
    pub fn flags(&self) -> (r: i32)
        ensures
            r == self.spec_flags(),
    {
        self.flags
    }

    /// Returns the database source of the pool's recipe.
    pub fn source(&self) -> (r: &Source)
        ensures
            *r == self.spec_source(),
    {
        &self.source
    }

    /// Takes one idle instance, if there is one; when none is present the
    /// caller creates a fresh instance from the pool's recipe instead,
    /// outside any lock.
    pub fn checkout_idle(&mut self) -> (r: Option<C>)
        ensures
            final(self).spec_flags() == old(self).spec_flags(),
            final(self).spec_source() == old(self).spec_source(),
            match r {
                Some(cookie) => old(self).spec_idle().len() > 0 && cookie == old(self).spec_idle().last()
                    && final(self).spec_idle() == old(self).spec_idle().drop_last(),
                None => old(self).spec_idle().len() == 0 && final(self).spec_idle() == old(self).spec_idle(),
            },
    {
        self.reservoir.checkout()
    }

    /// Returns an instance to the pool's idle set, growing it by exactly
    /// one.
    pub fn give_back(&mut self, cookie: C)
        ensures
            final(self).spec_flags() == old(self).spec_flags(),
            final(self).spec_source() == old(self).spec_source(),
            final(self).spec_idle() == old(self).spec_idle().push(cookie),
    {
        self.reservoir.give_back(cookie);
    }

    /// The number of idle instances.
    pub fn idle_len(&self) -> (n: usize)
        ensures
            n == self.spec_idle().len(),
    {
        self.reservoir.len()
    }
}

/// Classifies the attempt to acquire the idle-set lock: a lock found in a
/// broken state maps to [`Error::PoolPoisoned`] rather than proceeding with
/// a possibly inconsistent idle set.
pub fn classify_lock<G>(guard: Option<G>) -> (r: Result<G, Error>)
    ensures
        match guard {
            Some(g) => r matches Ok(rg) && rg == g,
            None => r matches Err(e) && e == Error::PoolPoisoned,
        },
{
    match guard {
        Some(g) => Ok(g),
        None => Err(Error::PoolPoisoned),
    }
}

/// The per-buffer sizes handed to the engine alongside a list of database
/// buffers. The two parallel arrays the engine's buffer-loading call takes
/// are derived from the same storage, so they agree index by index.
pub fn buffer_sizes(buffers: &Vec<Vec<u8>>) -> (r: Vec<usize>)
    ensures
        r@.len() == buffers@.len(),
        forall|i: int| 0 <= i < buffers@.len() ==> r@[i] == buffers@[i]@.len(),
{
    let mut sizes: Vec<usize> = Vec::new();
    let mut i: usize = 0;
    while i < buffers.len()
        invariant
            i <= buffers@.len(),
            sizes@.len() == i,
            forall|j: int| 0 <= j < i ==> sizes@[j] == buffers@[j]@.len(),
        decreases buffers@.len() - i,
    {
        sizes.push(buffers[i].len());
        i = i + 1;
    }
    sizes
}

} // verus!
