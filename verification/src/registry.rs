//! The table of running controllers, keyed by controller id.  Ids are handed
//! out in increasing order and never reused; the table lists its entries in
//! increasing id order.

use vstd::prelude::*;

verus! {

/// Whether the ids of `s` are strictly increasing.
pub open spec fn ids_increasing<H>(s: Seq<(u32, H)>) -> bool {
    forall|i: int, j: int| 0 <= i < j < s.len() ==> s[i].0 < s[j].0
}

/// The handle stored under `id` in `s` (the last entry with that id).
pub open spec fn lookup<H>(s: Seq<(u32, H)>, id: u32) -> Option<H>
    decreases s.len(),
{
    if s.len() == 0 {
        None
    } else if s.last().0 == id {
        Some(s.last().1)
    } else {
        lookup(s.drop_last(), id)
    }
}

/// The map from id to handle that the entries `s` stand for.
pub open spec fn entries_map<H>(s: Seq<(u32, H)>) -> Map<u32, H> {
    Map::new(|k: u32| lookup(s, k) is Some, |k: u32| lookup(s, k)->0)
}

proof fn lemma_lookup_found<H>(s: Seq<(u32, H)>, i: int)
    requires
        ids_increasing(s),
        0 <= i < s.len(),
    ensures
        lookup(s, s[i].0) == Some(s[i].1),
    decreases s.len(),
{
    if i < s.len() - 1 {
        assert(s.drop_last()[i] == s[i]);
        lemma_lookup_found(s.drop_last(), i);
    }
}

proof fn lemma_lookup_absent<H>(s: Seq<(u32, H)>, id: u32)
    requires
        forall|i: int| 0 <= i < s.len() ==> s[i].0 != id,
    ensures
        lookup(s, id) is None,
    decreases s.len(),
{
    if s.len() > 0 {
        assert forall|i: int| 0 <= i < s.drop_last().len() implies s.drop_last()[i].0 != id by {
            assert(s.drop_last()[i] == s[i]);
        }
        lemma_lookup_absent(s.drop_last(), id);
    }
}

/// `lookup` in increasing entries: the entry with the id, or nothing.
proof fn lemma_lookup<H>(s: Seq<(u32, H)>, id: u32)
    requires
        ids_increasing(s),
    ensures
        (exists|i: int| 0 <= i < s.len() && s[i].0 == id) ==> lookup(s, id) is Some,
        forall|i: int| 0 <= i < s.len() && s[i].0 == id ==> lookup(s, id) == Some(s[i].1),
        (forall|i: int| 0 <= i < s.len() ==> s[i].0 != id) ==> lookup(s, id) is None,
{
    assert forall|i: int| 0 <= i < s.len() && s[i].0 == id implies lookup(s, id) == Some(s[i].1) by {
        lemma_lookup_found(s, i);
    }
    if forall|i: int| 0 <= i < s.len() ==> s[i].0 != id {
        lemma_lookup_absent(s, id);
    }
}

proof fn lemma_len<H>(s: Seq<(u32, H)>)
    requires
        ids_increasing(s),
    ensures
        entries_map(s).dom().finite(),
        entries_map(s).len() == s.len(),
    decreases s.len(),
{
    if s.len() == 0 {
        assert(entries_map(s).dom() =~= Set::<u32>::empty());
    } else {
        let t = s.drop_last();
        assert(ids_increasing(t));
        lemma_len(t);
        assert forall|i: int| 0 <= i < t.len() implies t[i].0 != s.last().0 by {
            assert(t[i] == s[i]);
        }
        lemma_lookup_absent(t, s.last().0);
        assert(entries_map(s).dom() =~= entries_map(t).dom().insert(s.last().0));
    }
}

/// A change to the table of controllers.
pub enum RegistryOp<H> {
    /// Register a handle under the next id.
    Add(H),
    /// Unregister the controller with this id.
    Remove(u32),
}

/// The table as a whole: the controllers by id and the id that the next
/// registration hands out.
pub struct RegistryModel<H> {
    pub controllers: Map<u32, H>,
    pub next_id: nat,
}

/// A new table: no controllers, next id 0.
pub open spec fn empty_model<H>() -> RegistryModel<H> {
    RegistryModel { controllers: Map::empty(), next_id: 0 }
}

/// The table after a change: an addition takes the next id, which then moves
/// on by one; a removal leaves the next id as it is.
pub open spec fn op_step<H>(m: RegistryModel<H>, op: RegistryOp<H>) -> RegistryModel<H> {
    match op {
        RegistryOp::Add(h) => RegistryModel {
            controllers: m.controllers.insert(m.next_id as u32, h),
            next_id: m.next_id + 1,
        },
        RegistryOp::Remove(id) => RegistryModel { controllers: m.controllers.remove(id), next_id: m.next_id },
    }
}

/// The table after the changes `ops`, made in order to a new table.
pub open spec fn replay<H>(ops: Seq<RegistryOp<H>>) -> RegistryModel<H>
    decreases ops.len(),
{
    if ops.len() == 0 {
        empty_model()
    } else {
        op_step(replay(ops.drop_last()), ops.last())
    }
}

/// How many of `ops` are additions.
pub open spec fn additions<H>(ops: Seq<RegistryOp<H>>) -> nat
    decreases ops.len(),
{
    if ops.len() == 0 {
        0
    } else {
        additions(ops.drop_last()) + (if ops.last() is Add { 1nat } else { 0nat })
    }
}

/// The id that change `k` of `ops` hands out when it is an addition.
pub open spec fn id_given<H>(ops: Seq<RegistryOp<H>>, k: int) -> nat {
    replay(ops.take(k)).next_id
}

proof fn lemma_replay_invariant<H>(ops: Seq<RegistryOp<H>>)
    requires
        additions(ops) <= u32::MAX,
    ensures
        replay(ops).next_id == additions(ops),
        forall|k: u32| #[trigger] replay(ops).controllers.contains_key(k) ==> k < replay(ops).next_id,
    decreases ops.len(),
{
    if ops.len() > 0 {
        lemma_replay_invariant(ops.drop_last());
    }
}

proof fn lemma_additions_prefix<H>(ops: Seq<RegistryOp<H>>, j: int, k: int)
    requires
        0 <= j <= k <= ops.len(),
    ensures
        additions(ops.take(j)) <= additions(ops.take(k)),
        j < k && ops[j] is Add ==> additions(ops.take(j)) < additions(ops.take(k)),
    decreases k - j,
{
    if j < k {
        lemma_additions_prefix(ops, j, k - 1);
        assert(ops.take(k).drop_last() =~= ops.take(k - 1));
        if j == k - 1 {
            assert(ops.take(k).last() == ops[j]);
        }
    }
    assert(ops.take(ops.len() as int) =~= ops);
}

/// Law: starting from a new table, whatever removals come between, the
/// additions get the ids 0, 1, 2, ... in the order they are made: each gets
/// the number of additions before it, so ids strictly increase and none is
/// handed out twice, and none is that of a controller still registered.
pub proof fn lemma_serial_ids<H>(ops: Seq<RegistryOp<H>>)
    requires
        additions(ops) <= u32::MAX,
    ensures
        forall|k: int| 0 <= k < ops.len() && ops[k] is Add ==> #[trigger] id_given(ops, k) == additions(ops.take(k)),
        forall|j: int, k: int|
            0 <= j < k < ops.len() && ops[j] is Add && ops[k] is Add ==> #[trigger] id_given(ops, j) < #[trigger] id_given(ops, k),
        forall|k: int|
            0 <= k < ops.len() && ops[k] is Add ==> !replay(ops.take(k)).controllers.contains_key(#[trigger] id_given(ops, k) as u32),
        replay(ops).next_id == additions(ops),
{
    lemma_replay_invariant(ops);
    assert(ops.take(ops.len() as int) =~= ops);
    assert forall|k: int| 0 <= k < ops.len() && ops[k] is Add implies #[trigger] id_given(ops, k) == additions(ops.take(k))
        && !replay(ops.take(k)).controllers.contains_key(id_given(ops, k) as u32) by {
        lemma_additions_prefix(ops, k, ops.len() as int);
        lemma_replay_invariant(ops.take(k));
    }
    assert forall|j: int, k: int| 0 <= j < k < ops.len() && ops[j] is Add && ops[k] is Add
        implies #[trigger] id_given(ops, j) < #[trigger] id_given(ops, k) by {
        lemma_additions_prefix(ops, j, k);
        lemma_additions_prefix(ops, k, ops.len() as int);
        lemma_replay_invariant(ops.take(j));
        lemma_replay_invariant(ops.take(k));
    }
}

/// The running controllers: a handle of type `H` per controller id.
///
/// The entries are kept in a vector sorted by id rather than in a `HashMap`:
/// the table is listed in increasing id order, which a `HashMap`'s walk does
/// not give, and since ids are handed out in increasing order a new entry
/// simply goes at the end.
pub struct ControllerRegistry<H> {
    entries: Vec<(u32, H)>,
    next_id: u32,
}

impl<H> View for ControllerRegistry<H> {
    type V = Map<u32, H>;

    /// The controllers, by id.
    closed spec fn view(&self) -> Map<u32, H> {
        entries_map(self.entries@)
    }
}

impl<H> ControllerRegistry<H> {
    /// The table's invariant: entries in strictly increasing id order, every
    /// id below the next one to be handed out.
    pub closed spec fn wf(&self) -> bool {
        &&& ids_increasing(self.entries@)
        &&& forall|i: int| 0 <= i < self.entries@.len() ==> self.entries@[i].0 < self.next_id
    }

    /// The id that the next allocation hands out.
    pub closed spec fn next_id_spec(&self) -> u32 {
        self.next_id
    }

    /// Law: every registered id lies below the next id to be handed out, so a
    /// newly handed-out id is never one already registered, and ids increase.
    pub proof fn lemma_registered_below_next(&self)
        requires
            self.wf(),
        ensures
            forall|k: u32| #[trigger] self@.contains_key(k) ==> k < self.next_id_spec(),
    {
        assert forall|k: u32| #[trigger] self@.contains_key(k) implies k < self.next_id_spec() by {
            lemma_lookup(self.entries@, k);
            if !(exists|i: int| 0 <= i < self.entries@.len() && self.entries@[i].0 == k) {
                assert(lookup(self.entries@, k) is None);
            }
        }
    }

    /// The table as a whole: its controllers and the next id.
    pub open spec fn model(&self) -> RegistryModel<H> {
        RegistryModel { controllers: self@, next_id: self.next_id_spec() as nat }
    }

    /// An empty table whose first id is 0.
    pub fn new() -> (r: Self)
        ensures
            r.wf(),
            r@ == Map::<u32, H>::empty(),
            r.next_id_spec() == 0,
            r.model() == empty_model::<H>(),
    {
        let r = ControllerRegistry { entries: Vec::new(), next_id: 0 };
        assert(r@ =~= Map::<u32, H>::empty());
        r
    }

    /// Whether every id has been handed out.
    pub fn ids_exhausted(&self) -> (b: bool)
        ensures
            b == (self.next_id_spec() == u32::MAX),
    {
        self.next_id == u32::MAX
    }

    /// The id that the next registration hands out.
    pub fn next_id(&self) -> (id: u32)
        ensures
            id == self.next_id_spec(),
    {
        self.next_id
    }

    /// Registers `handle` under a new id, the next one in increasing order,
    /// and returns that id.  Only a registration takes an id.
    pub fn register(&mut self, handle: H) -> (id: u32)
        requires
            old(self).wf(),
            old(self).next_id_spec() < u32::MAX,
        ensures
            final(self).wf(),
            id == old(self).next_id_spec(),
            !old(self)@.contains_key(id),
            final(self).model() == op_step(old(self).model(), RegistryOp::Add(handle)),
    {
        let id = self.next_id;
        let ghost s = self.entries@;
        proof {
            lemma_lookup(s, id);
        }
        self.entries.push((id, handle));
        self.next_id = id + 1;
        proof {
            let t = self.entries@;
            assert(t.drop_last() == s);
            assert forall|k: u32| #[trigger] lookup(t, k) == (if k == id { Some(handle) } else { lookup(s, k) }) by {}
            assert(self@ =~= old(self)@.insert(id, handle));
        }
        id
    }

    fn position(&self, id: u32) -> (p: usize)
        requires
            self.wf(),
        ensures
            p <= self.entries@.len(),
            forall|i: int| 0 <= i < p ==> self.entries@[i].0 < id,
            forall|i: int| p <= i < self.entries@.len() ==> self.entries@[i].0 >= id,
    {
        let mut p: usize = 0;
        while p < self.entries.len() && self.entries[p].0 < id
            invariant
                self.wf(),
                p <= self.entries@.len(),
                forall|i: int| 0 <= i < p ==> self.entries@[i].0 < id,
            decreases self.entries@.len() - p,
        {
            p = p + 1;
        }
        p
    }

    /// The index of the entry with `id`, if any.
    fn index_of(&self, id: u32) -> (r: Option<usize>)
        requires
            self.wf(),
        ensures
            match r {
                Some(i) => i < self.entries@.len() && self.entries@[i as int].0 == id,
                None => forall|i: int| 0 <= i < self.entries@.len() ==> self.entries@[i].0 != id,
            },
    {
        let p = self.position(id);
        if p < self.entries.len() && self.entries[p].0 == id {
            Some(p)
        } else {
            None
        }
    }

    /// Whether a controller with `id` is registered.
    pub fn contains(&self, id: u32) -> (b: bool)
        requires
            self.wf(),
        ensures
            b == self@.contains_key(id),
    {
        proof {
            lemma_lookup(self.entries@, id);
        }
        self.index_of(id).is_some()
    }

    /// The handle of the controller with `id`, if registered.
    pub fn get(&self, id: u32) -> (r: Option<&H>)
        requires
            self.wf(),
        ensures
            match r {
                Some(h) => self@.contains_key(id) && self@[id] == *h,
                None => !self@.contains_key(id),
            },
    {
        proof {
            lemma_lookup(self.entries@, id);
        }
        match self.index_of(id) {
            Some(i) => Some(&self.entries[i].1),
            None => None,
        }
    }

    /// Unregisters the controller with `id`, handing back its handle.
    pub fn remove(&mut self, id: u32) -> (r: Option<H>)
        requires
            old(self).wf(),
        ensures
            final(self).wf(),
            final(self)@ == old(self)@.remove(id),
            final(self).next_id_spec() == old(self).next_id_spec(),
            final(self).model() == op_step(old(self).model(), RegistryOp::Remove(id)),
            match r {
                Some(h) => old(self)@.contains_key(id) && old(self)@[id] == h,
                None => !old(self)@.contains_key(id),
            },
    {
        let ghost s = self.entries@;
        proof {
            lemma_lookup(s, id);
        }
        match self.index_of(id) {
            Some(p) => {
                let (_, h) = self.entries.remove(p);
                let ghost t = self.entries@;
                proof {
                    assert forall|k: u32| #[trigger] lookup(t, k) == (if k == id { None } else { lookup(s, k) }) by {
                        lemma_lookup(t, k);
                        lemma_lookup(s, k);
                        if k == id {
                            assert forall|j: int| 0 <= j < t.len() implies t[j].0 != k by {
                                if j < p { assert(t[j] == s[j]); } else { assert(t[j] == s[j + 1]); }
                            }
                        } else if exists|i: int| 0 <= i < s.len() && s[i].0 == k {
                            let i = choose|i: int| 0 <= i < s.len() && s[i].0 == k;
                            if i < p {
                                assert(t[i] == s[i]);
                            } else {
                                assert(i != p);
                                assert(t[i - 1] == s[i]);
                            }
                        } else {
                            assert forall|j: int| 0 <= j < t.len() implies t[j].0 != k by {
                                if j < p { assert(t[j] == s[j]); } else { assert(t[j] == s[j + 1]); }
                            }
                        }
                    }
                    assert(self@ =~= old(self)@.remove(id));
                }
                Some(h)
            },
            None => {
                assert(self@ =~= old(self)@.remove(id));
                None
            },
        }
    }

    /// The registered ids, in increasing order.
    pub fn ids(&self) -> (r: Vec<u32>)
        requires
            self.wf(),
        ensures
            forall|i: int, j: int| 0 <= i < j < r@.len() ==> r@[i] < r@[j],
            forall|k: u32| r@.contains(k) <==> self@.contains_key(k),
    {
        let mut r: Vec<u32> = Vec::new();
        let mut i: usize = 0;
        while i < self.entries.len()
            invariant
                self.wf(),
                i <= self.entries@.len(),
                r@.len() == i,
                forall|j: int| 0 <= j < i ==> r@[j] == self.entries@[j].0,
            decreases self.entries@.len() - i,
        {
            r.push(self.entries[i].0);
            i = i + 1;
        }
        proof {
            assert forall|k: u32| r@.contains(k) <==> self@.contains_key(k) by {
                lemma_lookup(self.entries@, k);
                if r@.contains(k) {
                    let j = choose|j: int| 0 <= j < r@.len() && r@[j] == k;
                    assert(self.entries@[j].0 == k);
                }
                if self@.contains_key(k) {
                    assert(exists|j: int| 0 <= j < self.entries@.len() && self.entries@[j].0 == k);
                    let j = choose|j: int| 0 <= j < self.entries@.len() && self.entries@[j].0 == k;
                    assert(r@[j] == k);
                }
            }
        }
        r
    }

    /// The number of registered controllers.
    pub fn len(&self) -> (n: usize)
        requires
            self.wf(),
        ensures
            n == self@.len(),
    {
        proof {
            lemma_len(self.entries@);
        }
        self.entries.len()
    }
}

} // verus!
