//! Queues of vertices, one per render pass.

use vstd::prelude::*;

verus! {

/// Number of slots added beyond the one asked for when the list of queues
/// has to grow.
pub const GROWTH: usize = 8;

/// The vertices queued for `pass`: none where the list has no slot for it.
pub open spec fn queued<V>(q: Seq<Seq<V>>, pass: int) -> Seq<V> {
    if 0 <= pass < q.len() {
        q[pass]
    } else {
        Seq::empty()
    }
}

/// The list `q`, extended by empty queues so that it has a slot for `pass`.
/// A list that has to grow is given `pass + GROWTH` slots.
pub open spec fn grown<V>(q: Seq<Seq<V>>, pass: int) -> Seq<Seq<V>> {
    if q.len() <= pass {
        q + Seq::new((pass + GROWTH - q.len()) as nat, |i: int| Seq::<V>::empty())
    } else {
        q
    }
}

/// The list `q` after `verts` were appended to the queue of `pass`.
pub open spec fn appended<V>(q: Seq<Seq<V>>, pass: int, verts: Seq<V>) -> Seq<Seq<V>>
    recommends
        0 <= pass,
{
    grown(q, pass).update(pass, grown(q, pass)[pass] + verts)
}

/// The list `q` after the queue of `pass` was emptied.
pub open spec fn cleared<V>(q: Seq<Seq<V>>, pass: int) -> Seq<Seq<V>> {
    if 0 <= pass < q.len() {
        q.update(pass, Seq::empty())
    } else {
        q
    }
}

/// An ordered list of vertex queues, indexed by pass number.
pub struct Passes<V> {
    slots: Vec<Vec<V>>,
}

impl<V> View for Passes<V> {
    type V = Seq<Seq<V>>;

    closed spec fn view(&self) -> Seq<Seq<V>> {
        Seq::new(self.slots@.len(), |i: int| self.slots@[i]@)
    }
}

impl<V: Copy> Passes<V> {
    /// A list without slots.
    pub fn new() -> (p: Self)
        ensures
            p@ == Seq::<Seq<V>>::empty(),
    {
        let p = Passes { slots: Vec::new() };
        assert(p@ =~= Seq::<Seq<V>>::empty());
        p
    }

    /// The number of slots.
    pub fn len(&self) -> (n: usize)
        ensures
            n == self@.len(),
    {
        self.slots.len()
    }

    /// The number of vertices queued for `pass`.
    pub fn count(&self, pass: usize) -> (n: usize)
        ensures
            n == queued(self@, pass as int).len(),
    {
        if pass < self.slots.len() {
            self.slots[pass].len()
        } else {
            0
        }
    }

    /// Appends `verts` to the queue of `pass`, growing the list where it has
    /// no slot for `pass` yet.
    pub fn add_vertices(&mut self, pass: usize, verts: &[V])
        requires
            pass + GROWTH <= usize::MAX,
        ensures
            final(self)@ == appended(old(self)@, pass as int, verts@),
    {
        if self.slots.len() <= pass {
            // We only need one more, but no harm in adding extra
            let target: usize = pass + GROWTH;
            while self.slots.len() < target
                invariant
                    old(self)@.len() <= self.slots@.len() <= target,
                    forall|i: int|
                        0 <= i < old(self)@.len() ==> (#[trigger] self.slots@[i])@ == old(self)@[i],
                    forall|i: int|
                        old(self)@.len() <= i < self.slots@.len() ==> (#[trigger] self.slots@[i])@
                            == Seq::<V>::empty(),
                decreases target - self.slots@.len(),
            {
                self.slots.push(Vec::new());
            }
        }
        assert(self@ =~= grown(old(self)@, pass as int));
        let ghost before = self@;
        let n: usize = verts.len();
        let mut i: usize = 0;
        while i < n
            invariant
                i <= n == verts@.len(),
                pass < self.slots@.len() == before.len(),
                forall|j: int|
                    0 <= j < before.len() && j != pass ==> (#[trigger] self.slots@[j])@ == before[j],
                self.slots@[pass as int]@ == before[pass as int] + verts@.subrange(0, i as int),
            decreases n - i,
        {
            self.slots[pass].push(verts[i]);
            assert(verts@.subrange(0, i + 1) =~= verts@.subrange(0, i as int).push(verts@[i as int]));
            assert(self.slots@[pass as int]@ =~= before[pass as int] + verts@.subrange(0, i + 1));
            i = i + 1;
        }
        assert(verts@.subrange(0, n as int) =~= verts@);
        assert(self@ =~= appended(old(self)@, pass as int, verts@));
    }

    /// Takes the vertices queued for `pass` out of the list, leaving its
    /// queue empty. Returns `None`, and changes nothing, where the list has
    /// no slot for `pass`.
    pub fn take(&mut self, pass: usize) -> (out: Option<Vec<V>>)
        ensures
            final(self)@ == cleared(old(self)@, pass as int),
            pass < old(self)@.len() ==> out is Some && out->Some_0@ == old(self)@[pass as int],
            pass >= old(self)@.len() ==> out is None,
    {
        if pass >= self.slots.len() {
            return None;
        }
        let n: usize = self.slots[pass].len();
        let mut out: Vec<V> = Vec::with_capacity(n);
        let mut i: usize = 0;
        while i < n
            invariant
                pass < self.slots@.len(),
                i <= n == self.slots@[pass as int]@.len(),
                out@ == self.slots@[pass as int]@.subrange(0, i as int),
                self.slots == old(self).slots,
            decreases n - i,
        {
            out.push(self.slots[pass][i]);
            i = i + 1;
        }
        assert(out@ =~= old(self)@[pass as int]);
        self.slots[pass].clear();
        assert(self@ =~= cleared(old(self)@, pass as int));
        Some(out)
    }
}

} // verus!
