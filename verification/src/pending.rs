//! The table of requests that still wait for their response.

use vstd::prelude::*;

verus! {

/// The identifiers of the outstanding requests, in the order in which they
/// were registered. No identifier occurs twice.
pub struct PendingTable {
    ids: Vec<u64>,
}

/// `ids` without every occurrence of `id`.
pub open spec fn without(ids: Seq<u64>, id: u64) -> Seq<u64> {
    ids.filter(|x: u64| x != id)
}

/// Removing an identifier from a sequence without duplicates leaves a
/// sequence without duplicates that holds every other identifier and not
/// this one, and that is one shorter where the identifier was present.
pub proof fn lemma_without(ids: Seq<u64>, id: u64)
    requires
        ids.no_duplicates(),
    ensures
        without(ids, id).no_duplicates(),
        !without(ids, id).contains(id),
        forall|x: u64| x != id ==> (without(ids, id).contains(x) <==> ids.contains(x)),
        ids.contains(id) ==> without(ids, id).len() + 1 == ids.len(),
        !ids.contains(id) ==> without(ids, id) == ids,
    decreases ids.len(),
{
    reveal(Seq::filter);
    if ids.len() > 0 {
        let front = ids.drop_last();
        let last = ids.last();
        lemma_without(front, id);
        assert forall|x: u64| front.contains(x) implies ids.contains(x) by {
            let i = choose|i: int| 0 <= i < front.len() && front[i] == x;
        }
        assert(!front.contains(last)) by {
            if front.contains(last) {
                let i = choose|i: int| 0 <= i < front.len() && front[i] == last;
            }
        }
        if last != id {
            let shorter = without(front, id);
            let kept = shorter.push(last);
            assert forall|x: u64| x != id implies (kept.contains(x) <==> ids.contains(x)) by {
                if kept.contains(x) {
                    let i = choose|i: int| 0 <= i < kept.len() && kept[i] == x;
                }
                if ids.contains(x) {
                    let i = choose|i: int| 0 <= i < ids.len() && ids[i] == x;
                    if i < front.len() {
                        assert(front[i] == x);
                        assert(shorter.contains(x));
                        let j = choose|j: int| 0 <= j < shorter.len() && shorter[j] == x;
                        assert(kept[j] == x);
                    } else {
                        assert(kept[shorter.len() as int] == x);
                    }
                }
            }
            assert(!kept.contains(id)) by {
                if kept.contains(id) {
                    let i = choose|i: int| 0 <= i < kept.len() && kept[i] == id;
                }
            }
            if ids.contains(id) {
                let i = choose|i: int| 0 <= i < ids.len() && ids[i] == id;
                assert(front[i] == id);
            }
        }
    }
}

impl PendingTable {
    /// The outstanding identifiers, oldest first.
    pub closed spec fn ids(&self) -> Seq<u64> {
        self.ids@
    }

    /// No identifier is outstanding twice.
    pub open spec fn wf(&self) -> bool {
        self.ids().no_duplicates()
    }

    /// A table with no outstanding request.
    pub fn new() -> (table: Self)
        ensures
            table.wf(),
            table.ids() == Seq::<u64>::empty(),
    {
        PendingTable { ids: Vec::new() }
    }

    /// How many requests are outstanding.
    pub fn len(&self) -> (n: usize)
        ensures
            n == self.ids().len(),
    {
        self.ids.len()
    }

    /// Whether `id` is outstanding.
    pub fn contains(&self, id: u64) -> (found: bool)
        ensures
            found == self.ids().contains(id),
    {
        let mut i: usize = 0;
        while i < self.ids.len()
            invariant
                i <= self.ids.len(),
                forall|j: int| 0 <= j < i ==> self.ids@[j] != id,
            decreases self.ids.len() - i,
        {
            if self.ids[i] == id {
                return true;
            }
            i += 1;
        }
        false
    }

    /// Registers `id` as outstanding, unless it already is. Returns whether
    /// it was registered.
    pub fn register(&mut self, id: u64) -> (registered: bool)
        requires
            old(self).wf(),
        ensures
            final(self).wf(),
            registered == !old(self).ids().contains(id),
            registered ==> final(self).ids() == old(self).ids().push(id),
            !registered ==> final(self).ids() == old(self).ids(),
    {
        if self.contains(id) {
            false
        } else {
            self.ids.push(id);
            true
        }
    }

    /// Takes `id` out of the table. Returns whether it was outstanding.
    pub fn resolve(&mut self, id: u64) -> (found: bool)
        requires
            old(self).wf(),
        ensures
            final(self).wf(),
            found == old(self).ids().contains(id),
            final(self).ids() == without(old(self).ids(), id),
    {
        let mut kept: Vec<u64> = Vec::new();
        let mut found = false;
        let mut i: usize = 0;
        proof {
            reveal(Seq::filter);
        }
        while i < self.ids.len()
            invariant
                i <= self.ids.len(),
                kept@ == without(self.ids@.take(i as int), id),
                found == self.ids@.take(i as int).contains(id),
            decreases self.ids.len() - i,
        {
            let x = self.ids[i];
            proof {
                let before = self.ids@.take(i as int);
                let upto = self.ids@.take(i + 1);
                assert(upto.drop_last() =~= before);
                reveal(Seq::filter);
                assert(upto.contains(id) <==> (before.contains(id) || x == id)) by {
                    if x == id {
                        assert(upto[i as int] == id);
                    }
                }
            }
            if x == id {
                found = true;
            } else {
                kept.push(x);
            }
            i += 1;
        }
        proof {
            assert(self.ids@.take(i as int) =~= self.ids@);
            lemma_without(self.ids@, id);
        }
        self.ids = kept;
        found
    }

    /// Empties the table and returns what was outstanding, oldest first.
    pub fn drain(&mut self) -> (all: Vec<u64>)
        ensures
            all@ == old(self).ids(),
            final(self).ids() == Seq::<u64>::empty(),
            final(self).wf(),
    {
        let mut all: Vec<u64> = Vec::new();
        std::mem::swap(&mut self.ids, &mut all);
        all
    }
}

} // verus!
