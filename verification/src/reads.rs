//! How many reads of a value are pending at each point of the generation.

use vstd::prelude::*;

use crate::graph::GraphView;
use crate::scope::{can_use_all, register_all, use_all, Pending};
use crate::types::names_of;

verus! {

/// How often `name` occurs in `names`.
pub open spec fn occurrences(names: Seq<Seq<char>>, name: Seq<char>) -> nat
    decreases names.len(),
{
    if names.len() == 0 {
        0
    } else {
        occurrences(names.drop_last(), name) + if names.last() == name {
            1nat
        } else {
            0nat
        }
    }
}

/// `n` less `m`, and zero where `m` is the larger.
pub open spec fn minus(n: nat, m: nat) -> nat {
    if n >= m {
        (n - m) as nat
    } else {
        0
    }
}

/// A longer prefix of `names` holds `name` at least as often as a shorter one.
pub proof fn lemma_occurrences_prefix(names: Seq<Seq<char>>, name: Seq<char>, k: int, m: int)
    requires
        0 <= k <= m <= names.len(),
    ensures
        occurrences(names.take(k), name) <= occurrences(names.take(m), name),
        k < m && names[k] == name ==> occurrences(names.take(k), name) < occurrences(
            names.take(m),
            name,
        ),
    decreases m - k,
{
    if k < m {
        assert(names.take(k + 1).drop_last() =~= names.take(k));
        assert(names.take(k + 1).last() == names[k]);
        lemma_occurrences_prefix(names, name, k + 1, m);
    }
}

/// Registering `names` at `position` adds to the reads of `name` at
/// `position` as many as `names` holds `name`, and nothing elsewhere.
pub proof fn lemma_register_all_count(
    pending: Pending,
    names: Seq<Seq<char>>,
    position: usize,
    name: Seq<char>,
    at: usize,
)
    ensures
        register_all(pending, names, position)(name).count(at) == pending(name).count(at) + if at
            == position {
            occurrences(names, name)
        } else {
            0
        },
    decreases names.len(),
{
    broadcast use vstd::multiset::group_multiset_axioms;

    if names.len() > 0 {
        lemma_register_all_count(pending, names.drop_last(), position, name, at);
    }
}

/// Reading `names` at `position` takes from the reads of `name` at `position`
/// as many as `names` holds `name`, as far as there are any, and nothing
/// elsewhere.
pub proof fn lemma_use_all_count(
    pending: Pending,
    names: Seq<Seq<char>>,
    position: usize,
    name: Seq<char>,
    at: usize,
)
    ensures
        use_all(pending, names, position)(name).count(at) == if at == position {
            minus(pending(name).count(at), occurrences(names, name))
        } else {
            pending(name).count(at)
        },
    decreases names.len(),
{
    broadcast use vstd::multiset::group_multiset_axioms;

    if names.len() > 0 {
        lemma_use_all_count(pending, names.drop_last(), position, name, at);
    }
}

impl GraphView {
    /// The number of nodes can be a position.
    pub open spec fn countable(self) -> bool {
        self.nodes.len() <= usize::MAX
    }

    /// After the first `count` nodes are scanned, the reads of `name` at a
    /// position below `count` are those of the node there.
    pub proof fn lemma_scan_count(self, count: int, name: Seq<char>, at: usize)
        requires
            self.countable(),
            0 <= count <= self.nodes.len(),
        ensures
            self.scan(count)(name).count(at) == if at < count {
                occurrences(self.nodes[at as int].reads(), name)
            } else {
                0
            },
        decreases count,
    {
        broadcast use vstd::multiset::group_multiset_axioms;

        if count > 0 {
            self.lemma_scan_count(count - 1, name, at);
            lemma_register_all_count(
                self.scan(count - 1),
                self.nodes[count - 1].reads(),
                (count - 1) as usize,
                name,
                at,
            );
        }
    }

    /// How many reads of `name` at the position `at` are pending when the
    /// node at `position` runs: none below `position`; those of the node at
    /// a position from `position` on; and at the position after the last node
    /// as many as the declared outputs hold the name.
    pub open spec fn pending_count(self, position: int, name: Seq<char>, at: usize) -> nat {
        if at < position {
            0
        } else if at < self.nodes.len() {
            occurrences(self.nodes[at as int].reads(), name)
        } else if at == self.nodes.len() {
            occurrences(names_of(self.outputs), name)
        } else {
            0
        }
    }

    /// `scope_before` holds the reads that `pending_count` counts.
    pub proof fn lemma_scope_before_count(self, position: int, name: Seq<char>, at: usize)
        requires
            self.countable(),
            0 <= position <= self.nodes.len(),
        ensures
            self.scope_before(position)(name).count(at) == self.pending_count(position, name, at),
        decreases position,
    {
        if position == 0 {
            self.lemma_scan_count(self.nodes.len() as int, name, at);
            lemma_register_all_count(
                self.scan(self.nodes.len() as int),
                names_of(self.outputs),
                self.nodes.len() as usize,
                name,
                at,
            );
        } else {
            self.lemma_scope_before_count(position - 1, name, at);
            lemma_use_all_count(
                self.scope_before(position - 1),
                self.nodes[position - 1].reads(),
                (position - 1) as usize,
                name,
                at,
            );
        }
    }

    /// Each read of a node is pending when its turn comes.
    pub proof fn lemma_can_use(self, position: int)
        requires
            self.countable(),
            0 <= position < self.nodes.len(),
        ensures
            can_use_all(
                self.scope_before(position),
                self.nodes[position].reads(),
                position as usize,
            ),
    {
        let reads = self.nodes[position].reads();
        let before = self.scope_before(position);
        assert forall|k: int| 0 <= k < reads.len() implies (#[trigger] use_all(
            before,
            reads.take(k),
            position as usize,
        ))(reads[k]).count(position as usize) > 0 by {
            self.lemma_scope_before_count(position, reads[k], position as usize);
            lemma_use_all_count(before, reads.take(k), position as usize, reads[k], position as usize);
            lemma_occurrences_prefix(reads, reads[k], k, reads.len() as int);
            assert(reads.take(reads.len() as int) =~= reads);
        }
    }
}

} // verus!
