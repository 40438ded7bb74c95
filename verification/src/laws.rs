//! What holds of every graph and every node.

use vstd::multiset::Multiset;
use vstd::prelude::*;

use crate::code::{ModuleView, StatementView};
use crate::graph::{first_undeclarable, GraphView};
use crate::lower::{
    first_unsupported, generated, lemma_first_unsupported_prefix, recognized, GenerateErrorView,
    LoweringErrorView, OperatorView,
};
use crate::node::expand::{ExpandNodeView, ExpandShapeView};
use crate::node::NodeView;
use crate::source::{field_writable, statement_writable};
use crate::reads::{lemma_use_all_count, minus, occurrences};
use crate::scope::{access_for, lemma_use_all_unfold, use_all, Access};
use crate::types::{names_of, valid_name, TypeView};

verus! {

/// An expand node whose shape is known beforehand reads one value, the
/// tensor. The same node with a shape held by another value reads two: the
/// tensor, and after it that value, under its own type.
pub proof fn lemma_expand_inputs(node: ExpandNodeView, dims: Seq<i64>, source: TypeView)
    ensures
        (ExpandNodeView { shape: ExpandShapeView::Static(dims), ..node }).input_types() == seq![
            TypeView::Tensor(node.input),
        ],
        (ExpandNodeView { shape: ExpandShapeView::Runtime(source), ..node }).input_types().len()
            == 2,
        (ExpandNodeView { shape: ExpandShapeView::Runtime(source), ..node }).input_types()[0]
            == TypeView::Tensor(node.input),
        (ExpandNodeView { shape: ExpandShapeView::Runtime(source), ..node }).input_types()[1]
            == source,
{
}

/// Of the reads of one value, the last is the one that takes it: a read is
/// given the value itself exactly when it is the only one that is still
/// pending, and a duplicate as long as others are.
pub proof fn lemma_last_read_consumes(pending: Multiset<usize>, position: usize)
    requires
        pending.count(position) > 0,
    ensures
        access_for(pending.remove(position)) == if pending.len() == 1 {
            Access::Consume
        } else {
            Access::Clone
        },
{
    broadcast use vstd::multiset::group_multiset_axioms;

    assert(pending.remove(position).len() == pending.len() - 1);
}

impl GraphView {
    /// How the node at `position` reaches the value of its read `index`: the
    /// access that the reads pending after this read give.
    pub open spec fn access(self, position: int, index: int) -> Access {
        let reads = self.nodes[position].reads();
        access_for(
            use_all(self.scope_before(position), reads.take(index + 1), position as usize)(
                reads[index],
            ),
        )
    }

    /// How often the nodes from `from` on read `name`.
    pub open spec fn reads_from(self, from: int, name: Seq<char>) -> nat
        decreases self.nodes.len() - from,
    {
        if from < 0 || from >= self.nodes.len() {
            0
        } else {
            occurrences(self.nodes[from].reads(), name) + self.reads_from(from + 1, name)
        }
    }

    /// How often `name` is read after the read `index` of the node at
    /// `position`: by the later reads of that node, by the nodes after it, and
    /// by the return of the declared outputs.
    pub open spec fn reads_after(self, position: int, index: int, name: Seq<char>) -> nat {
        let reads = self.nodes[position].reads();
        minus(occurrences(reads, name), occurrences(reads.take(index + 1), name))
            + self.reads_from(position + 1, name) + occurrences(names_of(self.outputs), name)
    }

    /// No node from `from` on reads `name` exactly when `reads_from` is zero.
    pub proof fn lemma_reads_from_zero(self, from: int, name: Seq<char>)
        requires
            0 <= from,
        ensures
            self.reads_from(from, name) == 0 <==> forall|at: int|
                from <= at < self.nodes.len() ==> occurrences(
                    #[trigger] self.nodes[at].reads(),
                    name,
                ) == 0,
        decreases self.nodes.len() - from,
    {
        if from < self.nodes.len() {
            self.lemma_reads_from_zero(from + 1, name);
            if self.reads_from(from, name) == 0 {
                assert forall|at: int| from <= at < self.nodes.len() implies occurrences(
                    #[trigger] self.nodes[at].reads(),
                    name,
                ) == 0 by {
                    if at > from {
                        assert(from + 1 <= at);
                    }
                }
            }
        }
    }

    /// A value is handed over at its last read and duplicated at every read
    /// before it: the read `index` of the node at `position` consumes the
    /// value exactly when nothing reads it afterwards. A declared output is
    /// read by the return after every node, so no node consumes it.
    pub proof fn lemma_access_by_remaining_reads(self, position: int, index: int)
        requires
            self.countable(),
            0 <= position < self.nodes.len(),
            0 <= index < self.nodes[position].reads().len(),
        ensures
            self.access(position, index) == if self.reads_after(
                position,
                index,
                self.nodes[position].reads()[index],
            ) == 0 {
                Access::Consume
            } else {
                Access::Clone
            },
    {
        broadcast use vstd::multiset::group_multiset_axioms;

        let reads = self.nodes[position].reads();
        let name = reads[index];
        let before = self.scope_before(position);
        let here = position as usize;
        let after = use_all(before, reads.take(index + 1), here)(name);
        assert forall|at: usize| after.count(at) == (if at == here {
            minus(occurrences(reads, name), occurrences(reads.take(index + 1), name))
        } else {
            self.pending_count(position, name, at)
        }) by {
            self.lemma_scope_before_count(position, name, at);
            lemma_use_all_count(before, reads.take(index + 1), here, name, at);
        }
        self.lemma_reads_from_zero(position + 1, name);
        vstd::multiset::lemma_multiset_empty_len(after);
        if self.reads_after(position, index, name) == 0 {
            assert forall|at: usize| after.count(at) == 0 by {
                if at != here && at >= position && at < self.nodes.len() {
                    assert(occurrences(self.nodes[at as int].reads(), name) == 0);
                }
            }
            assert(after =~= Multiset::empty());
        } else {
            if minus(occurrences(reads, name), occurrences(reads.take(index + 1), name)) > 0 {
                assert(after.count(here) > 0);
            } else if occurrences(names_of(self.outputs), name) > 0 {
                assert(after.count(self.nodes.len() as usize) > 0);
            } else {
                let at = choose|at: int|
                    position + 1 <= at < self.nodes.len() && occurrences(
                        #[trigger] self.nodes[at].reads(),
                        name,
                    ) != 0;
                assert(after.count(at as usize) > 0);
            }
            assert(after.len() > 0);
        }
    }

    /// The tensors that the statement of a node takes are reached as
    /// [`GraphView::access`] says of the node's reads: the one operand of a
    /// unary operation and the tensor of an expand operation by the access of
    /// the first read, the operands of a binary operation by those of the
    /// first and the second.
    pub proof fn lemma_statement_access(self, position: int)
        requires
            0 <= position < self.nodes.len(),
        ensures
            match self.statement(position) {
                StatementView::Constant { .. } => true,
                StatementView::Unary { input, .. } => input.access == self.access(position, 0),
                StatementView::Binary { lhs, rhs, .. } => lhs.access == self.access(position, 0)
                    && rhs.access == self.access(position, 1),
                StatementView::Expand { input, .. } => input.access == self.access(position, 0),
            },
    {
        let reads = self.nodes[position].reads();
        lemma_use_all_unfold(self.scope_before(position), reads, position as usize);
        if reads.len() == 2 {
            assert(reads.take(2) =~= reads);
        }
    }
}

/// The module that is generated, and the error where none is, depend on the
/// nodes in their order and on the declared inputs and outputs, and on
/// nothing else: two graphs that agree in these are generated alike, by
/// whatever calls each was built.
pub proof fn lemma_generation_is_determined(first: GraphView, second: GraphView)
    requires
        first.nodes == second.nodes,
        first.inputs == second.inputs,
        first.outputs == second.outputs,
    ensures
        first.error() == second.error(),
        first.module() == second.module(),
{
}

/// No operator before `count` has an unrecognized kind where all of them are
/// recognized.
proof fn lemma_all_recognized(operators: Seq<OperatorView>, count: int)
    requires
        0 <= count <= operators.len(),
        forall|j: int| 0 <= j < count ==> recognized(#[trigger] operators[j].kind),
    ensures
        first_unsupported(operators, count) is None,
    decreases count,
{
    if count > 0 {
        lemma_all_recognized(operators, count - 1);
    }
}

/// A list of operators that holds one of a kind that is not recognized has no
/// module: generation ends with the error that gives the position and the
/// kind of that operator, the first of its sort.
pub proof fn lemma_unsupported_operator_aborts(
    operators: Seq<OperatorView>,
    position: int,
    inputs: Seq<Seq<char>>,
    outputs: Seq<Seq<char>>,
)
    requires
        0 <= position < operators.len(),
        !recognized(operators[position].kind),
        forall|j: int| 0 <= j < position ==> recognized(#[trigger] operators[j].kind),
    ensures
        generated(operators, inputs, outputs) == Err::<ModuleView, GenerateErrorView>(
            GenerateErrorView::Lowering(
                LoweringErrorView::UnsupportedOperator {
                    position: position as usize,
                    kind: operators[position].kind,
                },
            ),
        ),
{
    lemma_all_recognized(operators, position);
    assert(first_unsupported(operators, position + 1) == Some(position));
    lemma_first_unsupported_prefix(operators, position + 1);
}

impl NodeView {
    /// Every name in the node is a valid value name.
    pub open spec fn names_valid(self) -> bool {
        match self {
            NodeView::Constant(node) => valid_name(node.name) && valid_name(node.output.name),
            NodeView::Unary(node) => valid_name(node.input.name) && valid_name(node.output.name),
            NodeView::Binary(node) => valid_name(node.lhs.name) && valid_name(node.rhs.name)
                && valid_name(node.output.name),
            NodeView::Expand(node) => valid_name(node.input.name) && valid_name(node.output.name)
                && match node.shape {
                ExpandShapeView::Static(_) => true,
                ExpandShapeView::Runtime(source) => valid_name(source.name()),
            },
        }
    }
}

impl GraphView {
    /// Every name in the graph is a valid value name.
    pub open spec fn names_valid(self) -> bool {
        &&& forall|i: int| 0 <= i < self.nodes.len() ==> (#[trigger] self.nodes[i]).names_valid()
        &&& forall|i: int| 0 <= i < self.inputs.len() ==> valid_name((#[trigger] self.inputs[i]).name())
        &&& forall|i: int|
            0 <= i < self.outputs.len() ==> valid_name((#[trigger] self.outputs[i]).name())
    }

    /// The state slots of nodes with valid names have valid names.
    proof fn lemma_fields_writable(self, count: int)
        requires
            self.names_valid(),
            0 <= count <= self.nodes.len(),
        ensures
            forall|i: int|
                0 <= i < self.fields(count).len() ==> field_writable(
                    #[trigger] self.fields(count)[i],
                ),
        decreases count,
    {
        if count > 0 {
            self.lemma_fields_writable(count - 1);
            assert(self.nodes[count - 1].names_valid());
            let before = self.fields(count - 1);
            assert forall|i: int| 0 <= i < self.fields(count).len() implies field_writable(
                #[trigger] self.fields(count)[i],
            ) by {
                if i < before.len() {
                    assert(self.fields(count)[i] == before[i]);
                }
            }
        }
    }

    /// Where every name in a graph is a valid value name and a module is
    /// generated for the graph, the source of that module can be written.
    pub proof fn lemma_module_is_writable(self)
        requires
            self.names_valid(),
            self.error() is None,
        ensures
            self.module().writable(),
    {
        let module = self.module();
        self.lemma_fields_writable(self.nodes.len() as int);
        lemma_none_undeclarable(self.inputs);
        lemma_none_undeclarable(self.outputs);
        assert forall|i: int| 0 <= i < module.body.len() implies statement_writable(
            #[trigger] module.body[i],
        ) by {
            assert(self.nodes[i].names_valid());
        }
    }
}

/// Where none of `types` is undeclarable, each of them has a type that can
/// be written.
proof fn lemma_none_undeclarable(types: Seq<TypeView>)
    requires
        first_undeclarable(types) is None,
    ensures
        forall|i: int| 0 <= i < types.len() ==> !((#[trigger] types[i]) is Other),
    decreases types.len(),
{
    if types.len() > 0 {
        lemma_none_undeclarable(types.drop_last());
        assert forall|i: int| 0 <= i < types.len() implies !((#[trigger] types[i]) is Other) by {
            if i < types.len() - 1 {
                assert(types.drop_last()[i] == types[i]);
            }
        }
    }
}

} // verus!
