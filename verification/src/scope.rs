//! Tracking of the reads that are still to come for each value, which decides
//! where a value is duplicated and where it is given away.

use vstd::multiset::Multiset;
use vstd::prelude::*;

use crate::types::TensorType;

verus! {

/// How a node reaches a value it reads.
#[derive(Clone, Copy, Debug, PartialEq, Eq, Structural)]
pub enum Access {
    /// Last read: ownership is handed over.
    Consume,
    /// Reads remain after this one: the value is duplicated.
    Clone,
}

/// The access given to a read after which `remaining` reads are still to come.
pub open spec fn access_for(remaining: Multiset<usize>) -> Access {
    if remaining.len() == 0 {
        Access::Consume
    } else {
        Access::Clone
    }
}

/// Mathematical model of a [`Scope`]: for each value name, the multiset of the
/// positions of the nodes that are still to read it.
pub type Pending = spec_fn(Seq<char>) -> Multiset<usize>;

/// The model in which no read is pending.
pub open spec fn no_reads() -> Pending {
    |name: Seq<char>| Multiset::<usize>::empty()
}

/// The model `pending` with one more read of `name`, by the node at `position`.
pub open spec fn spec_register(pending: Pending, name: Seq<char>, position: usize) -> Pending {
    |other: Seq<char>|
        if other == name {
            pending(other).insert(position)
        } else {
            pending(other)
        }
}

/// The model `pending` without one read of `name` by the node at `position`.
pub open spec fn spec_use(pending: Pending, name: Seq<char>, position: usize) -> Pending {
    |other: Seq<char>|
        if other == name {
            pending(other).remove(position)
        } else {
            pending(other)
        }
}

/// The model `pending` with one more read of each of `names`, all by the node
/// at `position`.
pub open spec fn register_all(pending: Pending, names: Seq<Seq<char>>, position: usize) -> Pending
    decreases names.len(),
{
    if names.len() == 0 {
        pending
    } else {
        spec_register(register_all(pending, names.drop_last(), position), names.last(), position)
    }
}

/// The model after the node at `position` has read each of `names`, in order.
pub open spec fn use_all(pending: Pending, names: Seq<Seq<char>>, position: usize) -> Pending
    decreases names.len(),
{
    if names.len() == 0 {
        pending
    } else {
        spec_use(use_all(pending, names.drop_last(), position), names.last(), position)
    }
}

/// Whether the node at `position` can read each of `names`, in order: each
/// read is still pending when its turn comes.
pub open spec fn can_use_all(pending: Pending, names: Seq<Seq<char>>, position: usize) -> bool {
    forall|k: int|
        0 <= k < names.len() ==> (#[trigger] use_all(pending, names.take(k), position))(
            names[k],
        ).count(position) > 0
}

/// What `use_all` and `can_use_all` say of the one or two reads of a node.
pub proof fn lemma_use_all_unfold(pending: Pending, names: Seq<Seq<char>>, position: usize)
    ensures
        use_all(pending, names.take(0), position) == pending,
        names.len() == 0 ==> use_all(pending, names, position) == pending,
        names.len() >= 1 ==> use_all(pending, names.take(1), position) == spec_use(
            pending,
            names[0],
            position,
        ),
        names.len() == 1 ==> use_all(pending, names, position) == spec_use(
            pending,
            names[0],
            position,
        ),
        names.len() == 2 ==> use_all(pending, names, position) == spec_use(
            spec_use(pending, names[0], position),
            names[1],
            position,
        ),
{
    if names.len() >= 1 {
        assert(names.take(1).drop_last() =~= Seq::<Seq<char>>::empty());
        assert(names.take(1).last() == names[0]);
        assert(use_all(pending, names.take(1).drop_last(), position) == pending);
    }
    if names.len() == 1 {
        assert(names.take(1) =~= names);
    }
    if names.len() == 2 {
        assert(names.drop_last() =~= names.take(1));
    }
}

/// The positions still to read one value.
struct Reads {
    name: String,
    positions: Vec<usize>,
}

/// For each value name, the positions of the reads that are still to come.
pub struct Scope {
    entries: Vec<Reads>,
}

impl View for Scope {
    type V = Pending;

    open spec fn view(&self) -> Pending {
        |name: Seq<char>| self.pending(name)
    }
}

impl Scope {
    /// The index of the entry for `name`, if there is one.
    spec fn find(&self, name: Seq<char>) -> Option<int> {
        if exists|i: int| 0 <= i < self.entries@.len() && self.entries@[i].name@ == name {
            Some(choose|i: int| 0 <= i < self.entries@.len() && self.entries@[i].name@ == name)
        } else {
            None
        }
    }

    /// No name has two entries.
    pub closed spec fn wf(&self) -> bool {
        forall|i: int, j: int|
            0 <= i < j < self.entries@.len() ==> self.entries@[i].name@ != self.entries@[j].name@
    }

    /// The positions of the reads of `name` that are still to come.
    pub closed spec fn pending(&self, name: Seq<char>) -> Multiset<usize> {
        match self.find(name) {
            Some(i) => self.entries@[i].positions@.to_multiset(),
            None => Multiset::empty(),
        }
    }

    proof fn lemma_find(&self, name: Seq<char>, i: int)
        requires
            self.wf(),
            0 <= i < self.entries@.len(),
            self.entries@[i].name@ == name,
        ensures
            self.find(name) == Some(i),
    {
    }

    /// A scope in which no read is pending.
    pub fn new() -> (scope: Scope)
        ensures
            scope.wf(),
            scope@ == no_reads(),
    {
        Scope { entries: Vec::new() }
    }

    fn position_of(&self, name: &str) -> (found: Option<usize>)
        requires
            self.wf(),
        ensures
            match found {
                Some(i) => self.find(name@) == Some(i as int) && i < self.entries@.len(),
                None => self.find(name@) is None,
            },
    {
        let key = name.to_owned();
        let mut i: usize = 0;
        while i < self.entries.len()
            invariant
                i <= self.entries@.len(),
                key@ == name@,
                self.wf(),
                forall|k: int| 0 <= k < i ==> self.entries@[k].name@ != name@,
            decreases self.entries@.len() - i,
        {
            if self.entries[i].name == key {
                proof {
                    self.lemma_find(name@, i as int);
                }
                return Some(i);
            }
            i += 1;
        }
        None
    }

    /// Records that the node at `node_position` will read `name`.
    pub fn register_future_use(&mut self, name: &str, node_position: usize)
        requires
            old(self).wf(),
        ensures
            final(self).wf(),
            final(self)@ == spec_register(old(self)@, name@, node_position),
    {
        broadcast use vstd::seq_lib::group_to_multiset_ensures;

        match self.position_of(name) {
            Some(i) => {
                let mut entry = self.entries.remove(i);
                entry.positions.push(node_position);
                self.entries.insert(i, entry);
                proof {
                    let old_entries = old(self).entries@;
                    let new_entries = self.entries@;
                    assert(new_entries.len() == old_entries.len());
                    assert forall|k: int| 0 <= k < new_entries.len() implies #[trigger] new_entries[k].name@
                        == old_entries[k].name@ by {}
                    self.lemma_find(name@, i as int);
                    assert forall|other: Seq<char>| other != name@ implies final(self).pending(other)
                        == old(self).pending(other) by {
                        lemma_find_same_names(*old(self), *self, other);
                        match old(self).find(other) {
                            Some(k) => {
                                assert(k != i);
                            },
                            None => {},
                        }
                    }
                }
            },
            None => {
                let mut positions: Vec<usize> = Vec::new();
                positions.push(node_position);
                self.entries.push(Reads { name: name.to_owned(), positions });
                proof {
                    let n = old(self).entries@.len() as int;
                    assert(self.entries@[n].positions@ =~= Seq::<usize>::empty().push(node_position));
                    self.lemma_find(name@, n);
                    assert forall|other: Seq<char>| other != name@ implies final(self).pending(other)
                        == old(self).pending(other) by {
                        match old(self).find(other) {
                            Some(k) => {
                                self.lemma_find(other, k);
                            },
                            None => {
                                assert(self.find(other) is None);
                            },
                        }
                    }
                }
            },
        }
    }

    /// Satisfies the read of `name` by the node at `node_position`, and says
    /// how the node reaches the value: by a duplicate while other reads are
    /// still to come, by handing the value over after the last one.
    pub fn use_owned(&mut self, name: &str, node_position: usize) -> (access: Access)
        requires
            old(self).wf(),
            (old(self)@)(name@).count(node_position) > 0,
        ensures
            final(self).wf(),
            final(self)@ == spec_use(old(self)@, name@, node_position),
            access == access_for((final(self)@)(name@)),
    {
        broadcast use vstd::seq_lib::group_to_multiset_ensures;

        match self.position_of(name) {
            Some(i) => {
                let mut entry = self.entries.remove(i);
                let ghost before = entry.positions@;
                let mut j: usize = 0;
                while j < entry.positions.len() && entry.positions[j] != node_position
                    invariant
                        j <= entry.positions@.len(),
                        entry.positions@ == before,
                        before.contains(node_position),
                        forall|k: int| 0 <= k < j ==> before[k] != node_position,
                    decreases entry.positions@.len() - j,
                {
                    j += 1;
                }
                entry.positions.remove(j);
                let access = if entry.positions.len() == 0 {
                    Access::Consume
                } else {
                    Access::Clone
                };
                self.entries.insert(i, entry);
                proof {
                    let old_entries = old(self).entries@;
                    let new_entries = self.entries@;
                    assert(new_entries.len() == old_entries.len());
                    assert forall|k: int| 0 <= k < new_entries.len() implies #[trigger] new_entries[k].name@
                        == old_entries[k].name@ by {}
                    self.lemma_find(name@, i as int);
                    assert forall|other: Seq<char>| other != name@ implies final(self).pending(other)
                        == old(self).pending(other) by {
                        lemma_find_same_names(*old(self), *self, other);
                        match old(self).find(other) {
                            Some(k) => {
                                assert(k != i);
                            },
                            None => {},
                        }
                    }
                }
                access
            },
            None => {
                // A pending read has an entry: this is never reached.
                assert(false);
                Access::Consume
            },
        }
    }

    /// Satisfies the read of `tensor` by the node at `node_position`.
    pub fn tensor_use_owned(&mut self, tensor: &TensorType, node_position: usize) -> (access: Access)
        requires
            old(self).wf(),
            (old(self)@)(tensor@.name).count(node_position) > 0,
        ensures
            final(self).wf(),
            final(self)@ == spec_use(old(self)@, tensor@.name, node_position),
            access == access_for((final(self)@)(tensor@.name)),
    {
        self.use_owned(tensor.name.as_str(), node_position)
    }
}

proof fn lemma_find_same_names(a: Scope, b: Scope, name: Seq<char>)
    requires
        a.wf(),
        b.wf(),
        a.entries@.len() == b.entries@.len(),
        forall|k: int| 0 <= k < a.entries@.len() ==> #[trigger] a.entries@[k].name@ == b.entries@[k].name@,
    ensures
        a.find(name) == b.find(name),
{
    match a.find(name) {
        Some(k) => {
            assert(b.entries@[k].name@ == name);
            b.lemma_find(name, k);
        },
        None => {
            if b.find(name) is Some {
                let k = b.find(name)->0;
                assert(a.entries@[k].name@ == name);
            }
        },
    }
}

} // verus!
