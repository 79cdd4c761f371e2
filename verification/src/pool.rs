use vstd::prelude::*;

verus! {

/// Most pooled notification connections one worker keeps.
pub const PER_WORKER_POOL_SIZE: usize = 512;

/// A last-in first-out pool of reusable objects, holding at most
/// [`PER_WORKER_POOL_SIZE`] of them.
pub struct ObjectPool<T>(Vec<T>);

impl<T> View for ObjectPool<T> {
    type V = Seq<T>;

    /// The pooled objects, oldest first.
    closed spec fn view(&self) -> Seq<T> {
        self.0@
    }
}

/// The pool after offering `obj`: unchanged when full, else with `obj` on top.
pub open spec fn pool_put<T>(pool: Seq<T>, obj: T) -> Seq<T> {
    if pool.len() >= PER_WORKER_POOL_SIZE {
        pool
    } else {
        pool.push(obj)
    }
}

/// What taking from the pool yields: the most recently pooled object and the
/// rest of the pool, or nothing from an empty pool.
pub open spec fn pool_get<T>(pool: Seq<T>) -> (Option<T>, Seq<T>) {
    if pool.len() == 0 {
        (None, pool)
    } else {
        (Some(pool.last()), pool.drop_last())
    }
}

impl<T> ObjectPool<T> {
    #[verifier::type_invariant]
    spec fn bounded(self) -> bool {
        self.0@.len() <= PER_WORKER_POOL_SIZE
    }

    /// An empty pool with room reserved for `capacity` objects.
    pub fn new(capacity: usize) -> (r: Self)
        ensures
            r@ == Seq::<T>::empty(),
    {
        ObjectPool(Vec::with_capacity(capacity))
    }

    /// Number of pooled objects.
    pub fn len(&self) -> (r: usize)
        ensures
            r == self@.len(),
            r <= PER_WORKER_POOL_SIZE,
    {
        proof {
            use_type_invariant(self);
        }
        self.0.len()
    }

    /// Takes the most recently pooled object, if any.
    pub fn get(&mut self) -> (r: Option<T>)
        ensures
            (r, final(self)@) == pool_get(old(self)@),
    {
        proof {
            use_type_invariant(&*self);
        }
        let mut items = Vec::new();
        std::mem::swap(&mut items, &mut self.0);
        let taken = items.pop();
        self.0 = items;
        taken
    }

    /// Offers an object back to the pool; returns whether it was kept. A full
    /// pool refuses the object and stays unchanged.
    pub fn put(&mut self, obj: T) -> (r: bool)
        ensures
            r == (old(self)@.len() < PER_WORKER_POOL_SIZE),
            final(self)@ == pool_put(old(self)@, obj),
            final(self)@.len() <= PER_WORKER_POOL_SIZE,
    {
        proof {
            use_type_invariant(&*self);
        }
        if self.0.len() == PER_WORKER_POOL_SIZE {
            return false;
        }
        let mut items = Vec::new();
        std::mem::swap(&mut items, &mut self.0);
        items.push(obj);
        self.0 = items;
        true
    }
}

/// An object put into a pool with room is the next one taken, and taking it
/// leaves the pool as it was; a full pool is left unchanged by a put.
pub proof fn put_then_get_returns_the_object<T>(pool: Seq<T>, obj: T)
    ensures
        pool.len() < PER_WORKER_POOL_SIZE ==> pool_get(pool_put(pool, obj)) == (
            Some(obj),
            pool,
        ),
        pool.len() >= PER_WORKER_POOL_SIZE ==> pool_put(pool, obj) == pool,
        pool_put(pool, obj).len() <= if pool.len() <= PER_WORKER_POOL_SIZE {
            PER_WORKER_POOL_SIZE as int
        } else {
            pool.len() as int
        },
{
    if pool.len() < PER_WORKER_POOL_SIZE {
        assert(pool.push(obj).drop_last() =~= pool);
    }
}

} // verus!
