//! Fixed-capacity history of samples, newest first.

use vstd::prelude::*;

verus! {

/// A circular buffer holding at most `capacity` samples.
///
/// While it is filling, a new sample is put at index 0 of the storage. Once
/// full, the cursor steps backwards and the oldest sample is overwritten.
/// The logical content (the view) is the stored samples from newest to oldest.
#[derive(Debug)]
pub struct Ring<T> {
    len: usize,
    vec: Vec<T>,
    cursor: usize,
    pub name: String,
}

impl<T> Ring<T> {
    /// Storage invariant: never more than the capacity; the cursor is 0 while
    /// filling and always a valid slot once anything is stored.
    pub closed spec fn wf(&self) -> bool {
        &&& self.vec.len() <= self.len
        &&& (self.vec.len() < self.len ==> self.cursor == 0)
        &&& (self.vec.len() == 0 ==> self.cursor == 0)
        &&& (self.vec.len() > 0 ==> self.cursor < self.vec.len())
    }

    /// The most samples the ring keeps.
    pub closed spec fn capacity(&self) -> nat {
        self.len as nat
    }

    /// The ring's label.
    pub closed spec fn label(&self) -> Seq<char> {
        self.name@
    }

    /// The stored samples, newest first.
    pub closed spec fn samples(&self) -> Seq<T> {
        self.vec@.subrange(self.cursor as int, self.vec@.len() as int) + self.vec@.subrange(
            0,
            self.cursor as int,
        )
    }
}

impl<T> Ring<T> {
    /// A well-formed ring never holds more samples than its capacity.
    pub proof fn lemma_within_capacity(&self)
        requires
            self.wf(),
        ensures
            self@.len() <= self.capacity(),
    {
    }
}

impl<T> View for Ring<T> {
    type V = Seq<T>;

    open spec fn view(&self) -> Seq<T> {
        self.samples()
    }
}

/// What inserting `v` does to the newest-first content of a ring of
/// capacity `cap`: `v` becomes the newest and, when full, the oldest leaves.
pub open spec fn after_insert<T>(content: Seq<T>, cap: nat, v: T) -> Seq<T> {
    if cap == 0 {
        content
    } else if content.len() < cap {
        seq![v] + content
    } else {
        seq![v] + content.drop_last()
    }
}

/// The newest-first content of a ring of capacity `cap` that started empty
/// and then had `vals` inserted in order.
pub open spec fn filled<T>(cap: nat, vals: Seq<T>) -> Seq<T>
    decreases vals.len(),
{
    if vals.len() == 0 {
        Seq::empty()
    } else {
        after_insert(filled(cap, vals.drop_last()), cap, vals.last())
    }
}

/// The last `k` of `vals`, most recent first.
pub open spec fn last_reversed<T>(vals: Seq<T>, k: nat) -> Seq<T> {
    Seq::new(k, |i: int| vals[vals.len() - 1 - i])
}

pub open spec fn min_nat(a: nat, b: nat) -> nat {
    if a <= b {
        a
    } else {
        b
    }
}

/// After any sequence of insertions a ring holds exactly the last
/// `min(n, capacity)` inserted values, most recent first.
pub proof fn lemma_filled_is_last_values<T>(cap: nat, vals: Seq<T>)
    ensures
        filled(cap, vals) == last_reversed(vals, min_nat(vals.len(), cap)),
    decreases vals.len(),
{
    if vals.len() > 0 {
        let pre = vals.drop_last();
        lemma_filled_is_last_values(cap, pre);
        assert(filled(cap, vals) =~= last_reversed(vals, min_nat(vals.len(), cap)));
    } else {
        assert(filled(cap, vals) =~= last_reversed(vals, 0));
    }
}

/// Occupancy: after `n` insertions a ring of capacity `cap` holds
/// `min(n, cap)` samples.
pub proof fn lemma_occupancy<T>(cap: nat, vals: Seq<T>)
    ensures
        filled(cap, vals).len() == min_nat(vals.len(), cap),
{
    lemma_filled_is_last_values(cap, vals);
}

/// The newest sample is the value inserted last.
pub proof fn lemma_newest_is_last_inserted<T>(cap: nat, vals: Seq<T>)
    requires
        cap > 0,
        vals.len() > 0,
    ensures
        filled(cap, vals).len() > 0,
        filled(cap, vals)[0] == vals.last(),
{
    lemma_filled_is_last_values(cap, vals);
}

/// Wraparound: after `cap + k` insertions the ring yields exactly the last
/// `cap` inserted values, most recent first, and never more than `cap`.
pub proof fn lemma_wraparound<T>(cap: nat, vals: Seq<T>, k: nat)
    requires
        vals.len() == cap + k,
    ensures
        filled(cap, vals).len() == cap,
        forall|i: int| 0 <= i < cap ==> #[trigger] filled(cap, vals)[i] == vals[cap + k - 1 - i],
{
    lemma_filled_is_last_values(cap, vals);
}

impl<T> Ring<T> {
    pub fn new(length: usize) -> (r: Self)
        ensures
            r.wf(),
            r@ == Seq::<T>::empty(),
            r@.len() <= r.capacity(),
            r.capacity() == length,
            r.label() == Seq::<char>::empty(),
    {
        let r = Ring { len: length, vec: Vec::with_capacity(length), cursor: 0, name: String::new() };
        assert(r.samples() =~= Seq::<T>::empty());
        r
    }

    pub fn name(self, name: &str) -> (r: Self)
        requires
            self.wf(),
        ensures
            r.wf(),
            r@ == self@,
            r.capacity() == self.capacity(),
            r.label() == name@,
    {
        Ring { len: self.len, vec: self.vec, cursor: self.cursor, name: name.to_owned() }
    }

    /// Records `v` as the newest sample. A ring of capacity 0 stores nothing.
    pub fn insert_at_first(&mut self, v: T)
        requires
            old(self).wf(),
        ensures
            final(self).wf(),
            final(self)@.len() <= final(self).capacity(),
            old(self).capacity() > 0 ==> final(self)@ == (seq![v] + old(self)@).take(
                min_nat(old(self)@.len() + 1, old(self).capacity()) as int,
            ),
            final(self)@ == after_insert(old(self)@, old(self).capacity(), v),
            final(self).capacity() == old(self).capacity(),
            final(self).label() == old(self).label(),
    {
        if self.len == 0 {
            return;
        }
        if self.vec.len() < self.len {
            self.vec.insert(0, v);
            proof {
                assert(self.samples() =~= seq![v] + old(self)@);
                assert(old(self)@.len() == old(self).vec@.len());
                assert((seq![v] + old(self)@).take((old(self)@.len() + 1) as int) =~= seq![v] + old(self)@);
            }
        } else {
            let c = self.cursor;
            let new_cursor: usize = if c == 0 {
                self.len - 1
            } else {
                c - 1
            };
            self.cursor = new_cursor;
            self.vec.set(new_cursor, v);
            proof {
                assert(self.samples() =~= seq![v] + old(self)@.drop_last());
                assert(old(self)@.len() == old(self).vec@.len());
                assert((seq![v] + old(self)@).take(self.len as int) =~= seq![v] + old(self)@.drop_last());
            }
        }
    }

    pub fn newest(&self) -> (r: Option<&T>)
        requires
            self.wf(),
        ensures
            match r {
                None => self@.len() == 0,
                Some(x) => self@.len() > 0 && *x == self@[0],
            },
    {
        if self.vec.len() == 0 {
            None
        } else {
            Some(&self.vec[self.cursor])
        }
    }

    /// The number of stored samples.
    pub fn len(&self) -> (r: usize)
        requires
            self.wf(),
        ensures
            r == self@.len(),
    {
        self.vec.len()
    }

    /// A fresh walk over the samples from newest to oldest. Each call starts
    /// over, so reading twice without an insert in between yields the same.
    pub fn new_to_old_iter(&self) -> (it: IterRing<'_, T>)
        requires
            self.wf(),
        ensures
            it.items() == self@,
            it.position() == 0,
    {
        IterRing { vec: &self.vec, cursor: self.cursor, pos: 0, len: self.vec.len() }
    }
}

/// A walk over a ring's samples, newest first.
pub struct IterRing<'r, T> {
    vec: &'r Vec<T>,
    cursor: usize,
    pos: usize,
    len: usize,
}

impl<'r, T> IterRing<'r, T> {
    #[verifier::type_invariant]
    spec fn inv(self) -> bool {
        &&& self.len == self.vec.len()
        &&& self.pos <= self.len
        &&& (self.len == 0 ==> self.cursor == 0)
        &&& (self.len > 0 ==> self.cursor < self.len)
    }

    /// Every sample of the walk, in the order it yields them.
    pub closed spec fn items(&self) -> Seq<T> {
        self.vec@.subrange(self.cursor as int, self.vec@.len() as int) + self.vec@.subrange(
            0,
            self.cursor as int,
        )
    }

    /// How many samples the walk has yielded so far.
    pub closed spec fn position(&self) -> nat {
        self.pos as nat
    }

    /// The total number of samples of the walk.
    pub fn len(&self) -> (r: usize)
        ensures
            r == self.items().len(),
    {
        proof {
            use_type_invariant(self);
        }
        self.len
    }

    /// The next sample, or `None` once all have been yielded.
    pub fn next(&mut self) -> (r: Option<&'r T>)
        ensures
            final(self).items() == old(self).items(),
            old(self).position() < old(self).items().len() ==> {
                &&& r matches Some(x)
                &&& *x == old(self).items()[old(self).position() as int]
                &&& final(self).position() == old(self).position() + 1
            },
            old(self).position() >= old(self).items().len() ==> {
                &&& r is None
                &&& final(self).position() == old(self).position()
            },
    {
        proof {
            use_type_invariant(&*self);
        }
        if self.pos >= self.len {
            return None;
        }
        let off = self.len - self.cursor;
        let idx: usize = if self.pos < off {
            self.cursor + self.pos
        } else {
            self.pos - off
        };
        let v: &'r Vec<T> = self.vec;
        self.pos = self.pos + 1;
        Some(&v[idx])
    }
}

} // verus!
