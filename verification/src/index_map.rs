//! Ordered collections keyed by message position. Messages added under an
//! index keep ordered-map semantics: indices stay strictly ascending and a
//! second write to the same index overwrites the first, so callers may
//! correct earlier mistakes before finishing.

use vstd::prelude::*;

verus! {

/// Messages keyed by their position in the signed vector, held in strictly
/// ascending index order.
pub struct IndexedMessages {
    entries: Vec<(usize, bbs::SignatureMessage)>,
}

impl View for IndexedMessages {
    type V = Seq<(usize, bbs::SignatureMessage)>;

    closed spec fn view(&self) -> Seq<(usize, bbs::SignatureMessage)> {
        self.entries@
    }
}

impl IndexedMessages {
    /// Indices are strictly ascending, so each occurs at most once.
    pub open spec fn wf(&self) -> bool {
        forall|a: int, b: int| 0 <= a < b < self@.len() ==> (#[trigger] self@[a]).0 < (
        #[trigger] self@[b]).0
    }

    /// Whether a message is stored under the index.
    pub open spec fn has_index(&self, index: usize) -> bool {
        exists|j: int| 0 <= j < self@.len() && (#[trigger] self@[j]).0 == index
    }

    /// The message stored under the index.
    pub open spec fn message_at(&self, index: usize) -> bbs::SignatureMessage {
        self@[choose|j: int| 0 <= j < self@.len() && (#[trigger] self@[j]).0 == index].1
    }

    /// The stored indices, in ascending order.
    pub open spec fn indices(&self) -> Seq<usize> {
        self@.map_values(|p: (usize, bbs::SignatureMessage)| p.0)
    }

    /// An empty collection.
    pub fn new() -> (r: IndexedMessages)
        ensures
            r@ =~= Seq::<(usize, bbs::SignatureMessage)>::empty(),
            r.wf(),
    {
        IndexedMessages { entries: Vec::new() }
    }

    /// The number of stored messages.
    pub fn len(&self) -> (r: usize)
        ensures
            r == self@.len(),
    {
        self.entries.len()
    }

    /// Whether no message is stored.
    pub fn is_empty(&self) -> (r: bool)
        ensures
            r == (self@.len() == 0),
    {
        self.entries.len() == 0
    }

    /// The stored pairs in ascending index order, for handing to the
    /// cryptographic calls.
    pub fn pairs(&self) -> (r: &Vec<(usize, bbs::SignatureMessage)>)
        ensures
            r@ == self@,
    {
        &self.entries
    }

    /// Stores a message under an index; a message already stored under the
    /// same index is overwritten, and all other indices keep their messages.
    pub fn set(&mut self, index: usize, message: bbs::SignatureMessage)
        requires
            old(self).wf(),
        ensures
            final(self).wf(),
            final(self).has_index(index),
            final(self).message_at(index) == message,
            forall|i: usize|
                i != index ==> (#[trigger] final(self).has_index(i)) == old(self).has_index(i),
            forall|i: usize|
                i != index && old(self).has_index(i) ==> #[trigger] final(self).message_at(i)
                    == old(self).message_at(i),
            final(self)@.len() == old(self)@.len() + (if old(self).has_index(index) {
                0int
            } else {
                1int
            }),
    {
        let n = self.entries.len();
        let mut j: usize = 0;
        while j < n && self.entries[j].0 < index
            invariant
                j <= n,
                n == self@.len(),
                old(self).wf(),
                *self == *old(self),
                forall|a: int| 0 <= a < j ==> (#[trigger] self@[a]).0 < index,
            decreases n - j,
        {
            j = j + 1;
        }
        proof {
            // entries before j have smaller indices; entries from j on have
            // indices at least `index`
            assert forall|a: int| j <= a < self@.len() implies (#[trigger] self@[a]).0
                >= index by {
                if a > j {
                    assert(self@[j as int].0 < self@[a].0);
                }
            }
        }
        if j < n && self.entries[j].0 == index {
            let ghost prev = self@;
            self.entries.set(j, (index, message));
            proof {
                assert(final_entries_set_ok(prev, self@, j as int, index));
                assert forall|i: usize| i != index implies (#[trigger] self.has_index(i))
                    == has_index_of(prev, i) by {
                    lemma_update_membership(prev, self@, j as int, index, i);
                }
                assert forall|i: usize| i != index && has_index_of(prev, i) implies (
                #[trigger] self.message_at(i)) == message_at_of(prev, i) by {
                    lemma_update_value(prev, self@, j as int, index, i);
                }
            }
        } else {
            let ghost prev = self@;
            self.entries.insert(j, (index, message));
            proof {
                assert(self@ =~= prev.insert(j as int, (index, message)));
                assert forall|a: int, b: int| 0 <= a < b < self@.len() implies (
                #[trigger] self@[a]).0 < (#[trigger] self@[b]).0 by {
                    lemma_insert_sorted(prev, self@, j as int, index);
                }
                assert(self@[j as int].0 == index);
                assert forall|i: usize| i != index implies (#[trigger] self.has_index(i))
                    == has_index_of(prev, i) by {
                    lemma_insert_membership(prev, self@, j as int, index, i);
                }
                assert forall|i: usize| i != index && has_index_of(prev, i) implies (
                #[trigger] self.message_at(i)) == message_at_of(prev, i) by {
                    lemma_insert_value(prev, self@, j as int, index, i);
                }
            }
        }
    }

    /// The stored indices in ascending order, as a vector.
    pub fn index_vec(&self) -> (r: Vec<usize>)
        ensures
            r@ == self.indices(),
    {
        let mut out: Vec<usize> = Vec::new();
        let mut j: usize = 0;
        while j < self.entries.len()
            invariant
                j <= self@.len(),
                out@ == self@.subrange(0, j as int).map_values(
                    |p: (usize, bbs::SignatureMessage)| p.0,
                ),
            decreases self@.len() - j,
        {
            out.push(self.entries[j].0);
            proof {
                assert(out@ =~= self@.subrange(0, j + 1).map_values(
                    |p: (usize, bbs::SignatureMessage)| p.0,
                ));
            }
            j = j + 1;
        }
        proof {
            assert(self@.subrange(0, self@.len() as int) =~= self@);
        }
        out
    }
}

// The helpers below restate membership and lookup over a plain sequence so
// the lemmas can speak of the value before and after a mutation.
pub open spec fn has_index_of(s: Seq<(usize, bbs::SignatureMessage)>, index: usize) -> bool {
    exists|j: int| 0 <= j < s.len() && (#[trigger] s[j]).0 == index
}

pub open spec fn message_at_of(
    s: Seq<(usize, bbs::SignatureMessage)>,
    index: usize,
) -> bbs::SignatureMessage {
    s[choose|j: int| 0 <= j < s.len() && (#[trigger] s[j]).0 == index].1
}

spec fn final_entries_set_ok(
    prev: Seq<(usize, bbs::SignatureMessage)>,
    cur: Seq<(usize, bbs::SignatureMessage)>,
    j: int,
    index: usize,
) -> bool {
    cur == prev.update(j, (index, cur[j].1))
}

proof fn lemma_update_membership(
    prev: Seq<(usize, bbs::SignatureMessage)>,
    cur: Seq<(usize, bbs::SignatureMessage)>,
    j: int,
    index: usize,
    i: usize,
)
    requires
        0 <= j < prev.len(),
        prev[j].0 == index,
        cur.len() == prev.len(),
        cur[j].0 == index,
        forall|a: int| 0 <= a < prev.len() && a != j ==> #[trigger] cur[a] == prev[a],
        i != index,
    ensures
        has_index_of(cur, i) == has_index_of(prev, i),
{
    if has_index_of(cur, i) {
        let w = choose|w: int| 0 <= w < cur.len() && (#[trigger] cur[w]).0 == i;
        assert(w != j);
        assert(prev[w].0 == i);
    }
    if has_index_of(prev, i) {
        let w = choose|w: int| 0 <= w < prev.len() && (#[trigger] prev[w]).0 == i;
        assert(w != j);
        assert(cur[w].0 == i);
    }
}

proof fn lemma_update_value(
    prev: Seq<(usize, bbs::SignatureMessage)>,
    cur: Seq<(usize, bbs::SignatureMessage)>,
    j: int,
    index: usize,
    i: usize,
)
    requires
        0 <= j < prev.len(),
        prev[j].0 == index,
        cur.len() == prev.len(),
        cur[j].0 == index,
        forall|a: int| 0 <= a < prev.len() && a != j ==> #[trigger] cur[a] == prev[a],
        i != index,
        has_index_of(prev, i),
        // both sequences carry each index at most once
        forall|a: int, b: int| 0 <= a < b < prev.len() ==> (#[trigger] prev[a]).0 != (
        #[trigger] prev[b]).0,
    ensures
        message_at_of(cur, i) == message_at_of(prev, i),
{
    let wp = choose|w: int| 0 <= w < prev.len() && (#[trigger] prev[w]).0 == i;
    let wc = choose|w: int| 0 <= w < cur.len() && (#[trigger] cur[w]).0 == i;
    assert(wp != j);
    assert(cur[wp].0 == i);
    assert(wc != j);
    assert(prev[wc].0 == i);
    if wp != wc {
        assert(prev[wp].0 == prev[wc].0);
        assert(false);
    }
}

proof fn lemma_insert_sorted(
    prev: Seq<(usize, bbs::SignatureMessage)>,
    cur: Seq<(usize, bbs::SignatureMessage)>,
    j: int,
    index: usize,
)
    requires
        0 <= j <= prev.len(),
        cur == prev.insert(j, (index, cur[j].1)),
        cur[j].0 == index,
        forall|a: int, b: int| 0 <= a < b < prev.len() ==> (#[trigger] prev[a]).0 < (
        #[trigger] prev[b]).0,
        forall|a: int| 0 <= a < j ==> (#[trigger] prev[a]).0 < index,
        forall|a: int| j <= a < prev.len() ==> (#[trigger] prev[a]).0 > index,
    ensures
        forall|a: int, b: int| 0 <= a < b < cur.len() ==> (#[trigger] cur[a]).0 < (
        #[trigger] cur[b]).0,
{
    assert forall|a: int, b: int| 0 <= a < b < cur.len() implies (#[trigger] cur[a]).0 < (
    #[trigger] cur[b]).0 by {
        if a < j {
            assert(cur[a] == prev[a]);
        }
        if a > j {
            assert(cur[a] == prev[a - 1]);
        }
        if b < j {
            assert(cur[b] == prev[b]);
        }
        if b > j {
            assert(cur[b] == prev[b - 1]);
        }
    }
}

proof fn lemma_insert_membership(
    prev: Seq<(usize, bbs::SignatureMessage)>,
    cur: Seq<(usize, bbs::SignatureMessage)>,
    j: int,
    index: usize,
    i: usize,
)
    requires
        0 <= j <= prev.len(),
        cur == prev.insert(j, (index, cur[j].1)),
        cur[j].0 == index,
        i != index,
    ensures
        has_index_of(cur, i) == has_index_of(prev, i),
{
    if has_index_of(cur, i) {
        let w = choose|w: int| 0 <= w < cur.len() && (#[trigger] cur[w]).0 == i;
        assert(w != j);
        if w < j {
            assert(prev[w].0 == i);
        } else {
            assert(prev[w - 1].0 == i);
        }
    }
    if has_index_of(prev, i) {
        let w = choose|w: int| 0 <= w < prev.len() && (#[trigger] prev[w]).0 == i;
        if w < j {
            assert(cur[w].0 == i);
        } else {
            assert(cur[w + 1].0 == i);
        }
    }
}

proof fn lemma_insert_value(
    prev: Seq<(usize, bbs::SignatureMessage)>,
    cur: Seq<(usize, bbs::SignatureMessage)>,
    j: int,
    index: usize,
    i: usize,
)
    requires
        0 <= j <= prev.len(),
        cur == prev.insert(j, (index, cur[j].1)),
        cur[j].0 == index,
        i != index,
        has_index_of(prev, i),
        forall|a: int, b: int| 0 <= a < b < prev.len() ==> (#[trigger] prev[a]).0 != (
        #[trigger] prev[b]).0,
    ensures
        message_at_of(cur, i) == message_at_of(prev, i),
{
    let wp = choose|w: int| 0 <= w < prev.len() && (#[trigger] prev[w]).0 == i;
    if wp < j {
        assert(cur[wp].0 == i);
    } else {
        assert(cur[wp + 1].0 == i);
    }
    let wc = choose|w: int| 0 <= w < cur.len() && (#[trigger] cur[w]).0 == i;
    assert(wc != j);
    let back: int = if wc < j {
        wc
    } else {
        wc - 1
    };
    assert(prev[back].0 == i);
    if back != wp {
        assert(prev[back].0 == prev[wp].0);
        assert(false);
    }
    assert(cur[wc].1 == prev[back].1);
}

/// A set of message positions, held in strictly ascending order.
pub struct IndexSet {
    items: Vec<usize>,
}

impl View for IndexSet {
    type V = Seq<usize>;

    closed spec fn view(&self) -> Seq<usize> {
        self.items@
    }
}

impl IndexSet {
    /// Positions are strictly ascending, so each occurs at most once.
    pub open spec fn wf(&self) -> bool {
        forall|a: int, b: int| 0 <= a < b < self@.len() ==> self@[a] < self@[b]
    }

    /// Whether the position is in the set.
    pub open spec fn has(&self, pos: usize) -> bool {
        crate::codec::seq_has(self@, pos)
    }

    /// An empty set.
    pub fn new() -> (r: IndexSet)
        ensures
            r@ =~= Seq::<usize>::empty(),
            r.wf(),
    {
        IndexSet { items: Vec::new() }
    }

    /// The number of positions in the set.
    pub fn len(&self) -> (r: usize)
        ensures
            r == self@.len(),
    {
        self.items.len()
    }

    /// Whether the set is empty.
    pub fn is_empty(&self) -> (r: bool)
        ensures
            r == (self@.len() == 0),
    {
        self.items.len() == 0
    }

    /// The positions in ascending order.
    pub fn as_vec(&self) -> (r: &Vec<usize>)
        ensures
            r@ == self@,
    {
        &self.items
    }

    /// Adds a position to the set; adding one already present changes
    /// nothing.
    pub fn insert(&mut self, pos: usize)
        requires
            old(self).wf(),
        ensures
            final(self).wf(),
            final(self).has(pos),
            forall|p: usize| p != pos ==> (#[trigger] final(self).has(p)) == old(self).has(p),
            final(self)@.len() == old(self)@.len() + (if old(self).has(pos) {
                0int
            } else {
                1int
            }),
    {
        let n = self.items.len();
        let mut j: usize = 0;
        while j < n && self.items[j] < pos
            invariant
                j <= n,
                n == self@.len(),
                old(self).wf(),
                *self == *old(self),
                forall|a: int| 0 <= a < j ==> self@[a] < pos,
            decreases n - j,
        {
            j = j + 1;
        }
        proof {
            assert forall|a: int| j <= a < self@.len() implies self@[a] >= pos by {
                if a > j {
                    assert(self@[j as int] < self@[a]);
                }
            }
        }
        if j < n && self.items[j] == pos {
            proof {
                assert(self@[j as int] == pos);
            }
            return ;
        }
        let ghost prev = self@;
        self.items.insert(j, pos);
        proof {
            assert(self@ =~= prev.insert(j as int, pos));
            assert forall|a: int, b: int| 0 <= a < b < self@.len() implies self@[a] < self@[b] by {
                if a < j {
                    assert(self@[a] == prev[a]);
                }
                if a > j {
                    assert(self@[a] == prev[a - 1]);
                }
                if b < j {
                    assert(self@[b] == prev[b]);
                }
                if b > j {
                    assert(self@[b] == prev[b - 1]);
                }
            }
            assert(self@[j as int] == pos);
            assert forall|p: usize| p != pos implies (#[trigger] self.has(p)) == crate::codec::seq_has(
                prev,
                p,
            ) by {
                if crate::codec::seq_has(self@, p) {
                    let w = choose|w: int| 0 <= w < self@.len() && self@[w] == p;
                    if w < j {
                        assert(prev[w] == p);
                    } else {
                        assert(w != j);
                        assert(prev[w - 1] == p);
                    }
                }
                if crate::codec::seq_has(prev, p) {
                    let w = choose|w: int| 0 <= w < prev.len() && prev[w] == p;
                    if w < j {
                        assert(self@[w] == p);
                    } else {
                        assert(self@[w + 1] == p);
                    }
                }
            }
            // the position was not present: everything at or after j exceeds it
            assert(!crate::codec::seq_has(prev, pos)) by {
                if crate::codec::seq_has(prev, pos) {
                    let w = choose|w: int| 0 <= w < prev.len() && prev[w] == pos;
                    if w < j {
                        assert(prev[w] < pos);
                    } else {
                        assert(prev[w] >= pos);
                        assert(prev[w] != pos || w == j);
                        if w == j {
                            assert(prev[j as int] != pos);
                        }
                    }
                }
            }
        }
    }

    /// Whether the position is in the set.
    pub fn contains(&self, pos: usize) -> (r: bool)
        ensures
            r == self.has(pos),
    {
        let mut j: usize = 0;
        while j < self.items.len()
            invariant
                j <= self@.len(),
                forall|a: int| 0 <= a < j ==> self@[a] != pos,
            decreases self@.len() - j,
        {
            if self.items[j] == pos {
                proof {
                    assert(self@[j as int] == pos);
                }
                return true;
            }
            j = j + 1;
        }
        proof {
            assert(!self.has(pos));
        }
        false
    }
}

/// Whether two position vectors hold the same sequence.
pub fn index_vecs_equal(a: &Vec<usize>, b: &Vec<usize>) -> (r: bool)
    ensures
        r == (a@ == b@),
{
    if a.len() != b.len() {
        proof {
            assert(a@ !~= b@);
        }
        return false;
    }
    let mut j: usize = 0;
    while j < a.len()
        invariant
            j <= a@.len(),
            a@.len() == b@.len(),
            forall|t: int| 0 <= t < j ==> a@[t] == b@[t],
        decreases a@.len() - j,
    {
        if a[j] != b[j] {
            proof {
                assert(a@[j as int] != b@[j as int]);
                assert(a@ !~= b@);
            }
            return false;
        }
        j = j + 1;
    }
    proof {
        assert(a@ =~= b@);
    }
    true
}


/// In a strictly ascending sequence every element is at least its position.
pub proof fn lemma_sorted_ge_position(s: Seq<usize>, i: int)
    requires
        forall|a: int, b: int| 0 <= a < b < s.len() ==> s[a] < s[b],
        0 <= i < s.len(),
    ensures
        s[i] >= i,
    decreases i,
{
    if i > 0 {
        lemma_sorted_ge_position(s, i - 1);
        assert(s[i - 1] < s[i]);
    }
}

/// A strictly ascending sequence of positions below a bound has at most
/// `bound` elements.
pub proof fn lemma_sorted_below_bound_len(s: Seq<usize>, bound: usize)
    requires
        forall|a: int, b: int| 0 <= a < b < s.len() ==> s[a] < s[b],
        forall|a: int| 0 <= a < s.len() ==> s[a] < bound,
    ensures
        s.len() <= bound,
{
    if s.len() > bound {
        lemma_sorted_ge_position(s, bound as int);
        assert(s[bound as int] >= bound);
        assert(s[bound as int] < bound);
    }
}

/// Two strictly ascending sequences with the same members are the same
/// sequence.
pub proof fn lemma_sorted_unique_membership_eq(a: Seq<usize>, b: Seq<usize>)
    requires
        forall|x: int, y: int| 0 <= x < y < a.len() ==> a[x] < a[y],
        forall|x: int, y: int| 0 <= x < y < b.len() ==> b[x] < b[y],
        forall|p: usize| crate::codec::seq_has(a, p) <==> crate::codec::seq_has(b, p),
    ensures
        a == b,
    decreases a.len(),
{
    if a.len() == 0 {
        if b.len() > 0 {
            assert(crate::codec::seq_has(b, b[0]));
        }
        assert(a =~= b);
    } else {
        assert(crate::codec::seq_has(a, a[0]));
        assert(crate::codec::seq_has(b, a[0]));
        if b.len() == 0 {
            assert(false);
        }
        assert(crate::codec::seq_has(a, b[0]));
        // each head is the least member of its sequence, so the heads agree
        let wa = choose|w: int| 0 <= w < a.len() && a[w] == b[0];
        let wb = choose|w: int| 0 <= w < b.len() && b[w] == a[0];
        assert(a[0] <= a[wa]) by {
            if wa > 0 {
                assert(a[0] < a[wa]);
            }
        }
        assert(b[0] <= b[wb]) by {
            if wb > 0 {
                assert(b[0] < b[wb]);
            }
        }
        assert(a[0] == b[0]);
        let at = a.drop_first();
        let bt = b.drop_first();
        assert forall|p: usize| crate::codec::seq_has(at, p) <==> crate::codec::seq_has(
            bt,
            p,
        ) by {
            lemma_tail_membership(a, p);
            lemma_tail_membership(b, p);
            assert(a[0] == b[0]);
        }
        lemma_sorted_unique_membership_eq(at, bt);
        assert(a =~= b) by {
            assert(forall|i: int| 1 <= i < a.len() ==> a[i] == at[i - 1] && b[i] == bt[i - 1]);
        }
    }
}

/// In a strictly ascending non-empty sequence, the members of the tail are
/// exactly the members larger than the head.
proof fn lemma_tail_membership(s: Seq<usize>, p: usize)
    requires
        forall|x: int, y: int| 0 <= x < y < s.len() ==> s[x] < s[y],
        s.len() > 0,
    ensures
        crate::codec::seq_has(s.drop_first(), p) <==> (crate::codec::seq_has(s, p) && p != s[0]),
{
    let t = s.drop_first();
    if crate::codec::seq_has(t, p) {
        let w = choose|w: int| 0 <= w < t.len() && t[w] == p;
        assert(s[w + 1] == p);
        assert(s[0] < s[w + 1]);
    }
    if crate::codec::seq_has(s, p) && p != s[0] {
        let w = choose|w: int| 0 <= w < s.len() && s[w] == p;
        assert(w != 0);
        assert(t[w - 1] == p);
    }
}


/// The ascending positions below `bound` that are not in `taken`: the
/// complement the verifier of a blind commitment reconstructs as the
/// revealed generator positions.
pub open spec fn complement_indices(bound: nat, taken: Seq<usize>) -> Seq<usize>
    decreases bound,
{
    if bound == 0 {
        Seq::empty()
    } else {
        complement_indices((bound - 1) as nat, taken) + (if crate::codec::seq_has(
            taken,
            (bound - 1) as usize,
        ) {
            Seq::empty()
        } else {
            seq![(bound - 1) as usize]
        })
    }
}

} // verus!
