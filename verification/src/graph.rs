//! The graph: an ordered list of nodes with the declared inputs and outputs,
//! and the generation of one module from it.

use vstd::prelude::*;

use crate::code::{
    fields_view, statements_view, Field, FieldView, Module, ModuleView, Statement, StatementView,
};
use crate::error::{CodegenError, CodegenErrorView, SignatureError};
use crate::node::{nodes_view, Node, NodeCodegen, NodeView};
use crate::scope::{no_reads, register_all, use_all, Pending, Scope};
use crate::types::{names_of, types_view, ElementKind, Type, TypeView};

verus! {

/// Mathematical model of a [`BurnGraph`].
pub struct GraphView {
    /// The nodes, in the order in which they were registered.
    pub nodes: Seq<NodeView>,
    /// The declared inputs.
    pub inputs: Seq<TypeView>,
    /// The declared outputs.
    pub outputs: Seq<TypeView>,
}

/// The values that all of `nodes` read, node after node.
pub open spec fn all_inputs(nodes: Seq<NodeView>) -> Seq<TypeView>
    decreases nodes.len(),
{
    if nodes.len() == 0 {
        Seq::empty()
    } else {
        all_inputs(nodes.drop_last()) + nodes.last().input_types()
    }
}

/// The values that all of `nodes` produce, node after node.
pub open spec fn all_outputs(nodes: Seq<NodeView>) -> Seq<TypeView>
    decreases nodes.len(),
{
    if nodes.len() == 0 {
        Seq::empty()
    } else {
        all_outputs(nodes.drop_last()) + nodes.last().output_types()
    }
}

/// The last of `known` that has the name `name`.
pub open spec fn lookup(known: Seq<TypeView>, name: Seq<char>) -> Option<TypeView>
    decreases known.len(),
{
    if known.len() == 0 {
        None
    } else if known.last().name() == name {
        Some(known.last())
    } else {
        lookup(known.drop_last(), name)
    }
}

/// The index of the first of `names` that none of `known` has, if there is one.
pub open spec fn first_unknown(known: Seq<TypeView>, names: Seq<Seq<char>>) -> Option<int>
    decreases names.len(),
{
    if names.len() == 0 {
        None
    } else {
        match first_unknown(known, names.drop_last()) {
            Some(i) => Some(i),
            None => if lookup(known, names.last()) is None {
                Some(names.len() - 1)
            } else {
                None
            },
        }
    }
}

/// The types under the names `names`, each the last of `known` with that name.
pub open spec fn resolve(known: Seq<TypeView>, names: Seq<Seq<char>>) -> Seq<TypeView> {
    Seq::new(names.len(), |i: int| lookup(known, names[i])->0)
}

/// The views of a sequence of strings, in order.
pub open spec fn strings_view(strings: Seq<String>) -> Seq<Seq<char>> {
    Seq::new(strings.len(), |i: int| strings[i]@)
}

/// Why `inputs` and `outputs` cannot be declared on `nodes`, if they cannot.
pub open spec fn signature_error(
    nodes: Seq<NodeView>,
    inputs: Seq<Seq<char>>,
    outputs: Seq<Seq<char>>,
) -> Option<SignatureError> {
    if nodes.len() == 0 {
        Some(SignatureError::EmptyGraph)
    } else {
        match first_unknown(all_inputs(nodes), inputs) {
            Some(i) => Some(SignatureError::InputNotFound { index: i as usize }),
            None => match first_unknown(all_outputs(nodes), outputs) {
                Some(i) => Some(SignatureError::OutputNotFound { index: i as usize }),
                None => None,
            },
        }
    }
}

/// The first of `types` that cannot be written in a signature, if there is one.
pub open spec fn first_undeclarable(types: Seq<TypeView>) -> Option<TypeView>
    decreases types.len(),
{
    if types.len() == 0 {
        None
    } else {
        match first_undeclarable(types.drop_last()) {
            Some(t) => Some(t),
            None => if types.last() is Other {
                Some(types.last())
            } else {
                None
            },
        }
    }
}

/// Whether `ty` is a tensor with elements of kind `kind`.
pub open spec fn is_tensor_of(ty: TypeView, kind: ElementKind) -> bool {
    match ty {
        TypeView::Tensor(t) => t.kind == kind,
        _ => false,
    }
}

/// Whether one of `types` is a tensor with elements of kind `kind`.
pub open spec fn has_tensor_of(types: Seq<TypeView>, kind: ElementKind) -> bool {
    exists|i: int| 0 <= i < types.len() && is_tensor_of(#[trigger] types[i], kind)
}

impl GraphView {
    /// The names of the values that exist when the node at `position` runs:
    /// the declared inputs and what the nodes before it produce.
    pub open spec fn produced(self, position: int) -> Seq<Seq<char>>
        decreases position,
    {
        if position <= 0 {
            names_of(self.inputs)
        } else {
            self.produced(position - 1) + names_of(self.nodes[position - 1].output_types())
        }
    }

    /// The index of the first of the first `count` reads of the node at
    /// `position` that finds no value, if there is one.
    pub open spec fn first_unproduced(self, position: int, count: int) -> Option<int>
        decreases count,
    {
        if count <= 0 {
            None
        } else {
            match self.first_unproduced(position, count - 1) {
                Some(k) => Some(k),
                None => if self.produced(position).contains(
                    self.nodes[position].reads()[count - 1],
                ) {
                    None
                } else {
                    Some(count - 1)
                },
            }
        }
    }

    /// Why no statement exists for the node at `position`, if none does: it
    /// reads a value that does not exist yet, or, where all its values exist,
    /// its configuration is not one that code exists for.
    pub open spec fn node_error(self, position: int) -> Option<CodegenErrorView> {
        let node = self.nodes[position];
        match self.first_unproduced(position, node.reads().len() as int) {
            Some(k) => Some(
                CodegenErrorView::ReadBeforeProduced {
                    position: position as usize,
                    value: node.input_types()[k],
                },
            ),
            None => node.config_error(position as usize),
        }
    }

    /// The error of the first of the first `count` nodes that has one.
    pub open spec fn first_node_error(self, count: int) -> Option<CodegenErrorView>
        decreases count,
    {
        if count <= 0 {
            None
        } else {
            match self.first_node_error(count - 1) {
                Some(e) => Some(e),
                None => self.node_error(count - 1),
            }
        }
    }

    /// Why no module is generated for the graph, if none is. A declared input
    /// that cannot be written in a signature is reported first, then such an
    /// output, then the first node that has an error.
    pub open spec fn error(self) -> Option<CodegenErrorView> {
        match first_undeclarable(self.inputs) {
            Some(value) => Some(CodegenErrorView::UndeclarableType { value }),
            None => match first_undeclarable(self.outputs) {
                Some(value) => Some(CodegenErrorView::UndeclarableType { value }),
                None => self.first_node_error(self.nodes.len() as int),
            },
        }
    }

    /// The reads of the first `count` nodes, each at the position of its node.
    pub open spec fn scan(self, count: int) -> Pending
        decreases count,
    {
        if count <= 0 {
            no_reads()
        } else {
            register_all(
                self.scan(count - 1),
                self.nodes[count - 1].reads(),
                (count - 1) as usize,
            )
        }
    }

    /// The reads that are pending before the first node runs: those of all
    /// nodes, and one read of each declared output at the position after the
    /// last node, which stands for the return of the outputs.
    pub open spec fn initial_scope(self) -> Pending {
        register_all(
            self.scan(self.nodes.len() as int),
            names_of(self.outputs),
            self.nodes.len() as usize,
        )
    }

    /// The reads that are pending when the node at `position` runs: all but
    /// those of the nodes before it.
    pub open spec fn scope_before(self, position: int) -> Pending
        decreases position,
    {
        if position <= 0 {
            self.initial_scope()
        } else {
            use_all(
                self.scope_before(position - 1),
                self.nodes[position - 1].reads(),
                (position - 1) as usize,
            )
        }
    }

    /// The statement of the node at `position`.
    pub open spec fn statement(self, position: int) -> StatementView {
        self.nodes[position].statement(self.scope_before(position), position as usize)
    }

    /// The statements of all nodes, in the order of the nodes.
    pub open spec fn body(self) -> Seq<StatementView> {
        Seq::new(self.nodes.len(), |i: int| self.statement(i))
    }

    /// The state slots of the first `count` nodes, in the order of the nodes.
    pub open spec fn fields(self, count: int) -> Seq<FieldView>
        decreases count,
    {
        if count <= 0 {
            Seq::empty()
        } else {
            match self.nodes[count - 1].field() {
                Some(f) => self.fields(count - 1).push(f),
                None => self.fields(count - 1),
            }
        }
    }

    /// A read without a value among the first `count` reads of a node is the
    /// first such read of the node, too.
    pub proof fn lemma_first_unproduced_prefix(self, position: int, count: int)
        requires
            0 <= count <= self.nodes[position].reads().len(),
            self.first_unproduced(position, count) is Some,
        ensures
            self.first_unproduced(position, self.nodes[position].reads().len() as int)
                == self.first_unproduced(position, count),
        decreases self.nodes[position].reads().len() - count,
    {
        if count < self.nodes[position].reads().len() {
            self.lemma_first_unproduced_prefix(position, count + 1);
        }
    }

    /// An error among the first `count` nodes is the first error of the
    /// graph's nodes, too.
    pub proof fn lemma_first_node_error_prefix(self, count: int)
        requires
            0 <= count <= self.nodes.len(),
            self.first_node_error(count) is Some,
        ensures
            self.first_node_error(self.nodes.len() as int) == self.first_node_error(count),
        decreases self.nodes.len() - count,
    {
        if count < self.nodes.len() {
            self.lemma_first_node_error_prefix(count + 1);
        }
    }

    /// The module generated for the graph, where one is.
    pub open spec fn module(self) -> ModuleView {
        ModuleView {
            imports_bool: has_tensor_of(self.inputs, ElementKind::Bool) || has_tensor_of(
                self.outputs,
                ElementKind::Bool,
            ),
            imports_int: has_tensor_of(self.inputs, ElementKind::Int) || has_tensor_of(
                self.outputs,
                ElementKind::Int,
            ),
            fields: self.fields(self.nodes.len() as int),
            inputs: self.inputs,
            outputs: self.outputs,
            body: self.body(),
        }
    }
}

/// An ordered list of nodes with the declared inputs and outputs of the whole.
/// The nodes are kept in the order in which they were registered; the graph
/// never reorders them.
pub struct BurnGraph {
    nodes: Vec<Node>,
    graph_input_types: Vec<Type>,
    graph_output_types: Vec<Type>,
}

impl View for BurnGraph {
    type V = GraphView;

    closed spec fn view(&self) -> GraphView {
        GraphView {
            nodes: nodes_view(self.nodes@),
            inputs: types_view(self.graph_input_types@),
            outputs: types_view(self.graph_output_types@),
        }
    }
}

impl Default for BurnGraph {
    /// The graph without nodes, inputs or outputs.
    fn default() -> (graph: BurnGraph)
        ensures
            graph@ == (GraphView { nodes: Seq::empty(), inputs: Seq::empty(), outputs: Seq::empty() }),
    {
        let graph = BurnGraph {
            nodes: Vec::new(),
            graph_input_types: Vec::new(),
            graph_output_types: Vec::new(),
        };
        proof {
            assert(graph@.nodes =~= Seq::empty());
            assert(graph@.inputs =~= Seq::empty());
            assert(graph@.outputs =~= Seq::empty());
        }
        graph
    }
}

impl BurnGraph {
    fn known_inputs(&self) -> (known: Vec<Type>)
        ensures
            types_view(known@) == all_inputs(self@.nodes),
    {
        let ghost nodes = self@.nodes;
        let mut known: Vec<Type> = Vec::new();
        let mut i: usize = 0;
        while i < self.nodes.len()
            invariant
                i <= self.nodes@.len(),
                nodes == nodes_view(self.nodes@),
                types_view(known@) == all_inputs(nodes.take(i as int)),
            decreases self.nodes@.len() - i,
        {
            let types = self.nodes[i].input_types();
            append_types(&mut known, &types);
            proof {
                assert(nodes.take(i + 1).drop_last() =~= nodes.take(i as int));
            }
            i += 1;
        }
        proof {
            assert(nodes.take(self.nodes@.len() as int) =~= nodes);
        }
        known
    }

    fn known_outputs(&self) -> (known: Vec<Type>)
        ensures
            types_view(known@) == all_outputs(self@.nodes),
    {
        let ghost nodes = self@.nodes;
        let mut known: Vec<Type> = Vec::new();
        let mut i: usize = 0;
        while i < self.nodes.len()
            invariant
                i <= self.nodes@.len(),
                nodes == nodes_view(self.nodes@),
                types_view(known@) == all_outputs(nodes.take(i as int)),
            decreases self.nodes@.len() - i,
        {
            let types = self.nodes[i].output_types();
            append_types(&mut known, &types);
            proof {
                assert(nodes.take(i + 1).drop_last() =~= nodes.take(i as int));
            }
            i += 1;
        }
        proof {
            assert(nodes.take(self.nodes@.len() as int) =~= nodes);
        }
        known
    }

    /// Declares the inputs and outputs of the graph by name, after those
    /// declared before. An input takes the type under which a node reads the
    /// name, an output the type under which a node produces it; where several
    /// nodes do, the last one decides. Fails, and leaves the graph as it was,
    /// where the graph has no node or a name is not found; the first input
    /// name that is not found is reported before any output name.
    pub fn register_input_output(
        &mut self,
        input_names: Vec<String>,
        output_names: Vec<String>,
    ) -> (result: Result<(), SignatureError>)
        ensures
            match result {
                Ok(()) => {
                    &&& signature_error(
                        old(self)@.nodes,
                        strings_view(input_names@),
                        strings_view(output_names@),
                    ) is None
                    &&& final(self)@ == (GraphView {
                        nodes: old(self)@.nodes,
                        inputs: old(self)@.inputs + resolve(
                            all_inputs(old(self)@.nodes),
                            strings_view(input_names@),
                        ),
                        outputs: old(self)@.outputs + resolve(
                            all_outputs(old(self)@.nodes),
                            strings_view(output_names@),
                        ),
                    })
                },
                Err(error) => {
                    &&& signature_error(
                        old(self)@.nodes,
                        strings_view(input_names@),
                        strings_view(output_names@),
                    ) == Some(error)
                    &&& final(self)@ == old(self)@
                },
            },
    {
        if self.nodes.len() == 0 {
            return Err(SignatureError::EmptyGraph);
        }
        let known_inputs = self.known_inputs();
        let inputs = match resolve_names(&known_inputs, &input_names) {
            Ok(types) => types,
            Err(index) => {
                return Err(SignatureError::InputNotFound { index });
            },
        };
        let known_outputs = self.known_outputs();
        let outputs = match resolve_names(&known_outputs, &output_names) {
            Ok(types) => types,
            Err(index) => {
                return Err(SignatureError::OutputNotFound { index });
            },
        };
        append_types(&mut self.graph_input_types, &inputs);
        append_types(&mut self.graph_output_types, &outputs);
        Ok(())
    }

    /// The reads that are pending before the first node runs: one scan over
    /// the nodes records every read of every node at the position of the
    /// node, and a read of each declared output at the position after the
    /// last node.
    pub fn scope(&self) -> (scope: Scope)
        ensures
            scope.wf(),
            scope@ == self@.initial_scope(),
    {
        let ghost graph = self@;
        let mut scope = Scope::new();
        let mut i: usize = 0;
        while i < self.nodes.len()
            invariant
                i <= self.nodes@.len(),
                graph == self@,
                scope.wf(),
                scope@ == graph.scan(i as int),
            decreases self.nodes@.len() - i,
        {
            let types = self.nodes[i].input_types();
            register_reads(&mut scope, &types, i);
            i += 1;
        }
        register_reads(&mut scope, &self.graph_output_types, self.nodes.len());
        scope
    }

    /// The statements and the state slots of the nodes, in the order of the
    /// nodes; or the error of the first node that has one.
    fn emit(&self, scope: &mut Scope) -> (result: Result<(Vec<Statement>, Vec<Field>), CodegenError>)
        requires
            old(scope).wf(),
            old(scope)@ == self@.initial_scope(),
        ensures
            match result {
                Ok((body, fields)) => {
                    &&& self@.first_node_error(self@.nodes.len() as int) is None
                    &&& statements_view(body@) == self@.body()
                    &&& fields_view(fields@) == self@.fields(self@.nodes.len() as int)
                },
                Err(error) => self@.first_node_error(self@.nodes.len() as int) == Some(error@),
            },
    {
        let ghost graph = self@;
        let mut body: Vec<Statement> = Vec::new();
        let mut fields: Vec<Field> = Vec::new();
        let mut produced: Vec<String> = Vec::new();
        append_names(&mut produced, &self.graph_input_types);
        proof {
            assert(strings_view(produced@) =~= graph.produced(0));
        }
        let mut i: usize = 0;
        while i < self.nodes.len()
            invariant
                i <= self.nodes@.len(),
                graph == self@,
                scope.wf(),
                scope@ == graph.scope_before(i as int),
                graph.first_node_error(i as int) is None,
                statements_view(body@) == Seq::new(i as nat, |j: int| graph.statement(j)),
                fields_view(fields@) == graph.fields(i as int),
                strings_view(produced@) == graph.produced(i as int),
            decreases self.nodes@.len() - i,
        {
            let node = &self.nodes[i];
            assert(node@ == graph.nodes[i as int]);
            let types = node.input_types();
            let ghost reads = graph.nodes[i as int].reads();
            let mut k: usize = 0;
            while k < types.len()
                invariant
                    k <= types@.len(),
                    graph == self@,
                    i < self.nodes@.len(),
                    types_view(types@) == graph.nodes[i as int].input_types(),
                    reads == graph.nodes[i as int].reads(),
                    strings_view(produced@) == graph.produced(i as int),
                    graph.first_unproduced(i as int, k as int) is None,
                    graph.first_node_error(i as int) is None,
                decreases types@.len() - k,
            {
                assert(reads[k as int] == types@[k as int]@.name());
                if !contains_name(&produced, types[k].name()) {
                    proof {
                        graph.lemma_first_unproduced_prefix(i as int, k + 1);
                        graph.lemma_first_node_error_prefix(i + 1);
                    }
                    return Err(
                        CodegenError::ReadBeforeProduced { position: i, value: types[k].clone() },
                    );
                }
                k += 1;
            }
            proof {
                graph.lemma_can_use(i as int);
            }
            let statement = match node.forward(scope, i) {
                Ok(statement) => statement,
                Err(error) => {
                    proof {
                        graph.lemma_first_node_error_prefix(i + 1);
                    }
                    return Err(error);
                },
            };
            let ghost body_before = statements_view(body@);
            let ghost pushed_onto = body@;
            body.push(statement);
            proof {
                let target = Seq::new((i + 1) as nat, |j: int| graph.statement(j));
                assert(statements_view(pushed_onto).len() == pushed_onto.len());
                assert(body_before.len() == i);
                assert(statements_view(body@).len() == target.len());
                assert forall|m: int| 0 <= m < target.len() implies statements_view(body@)[m]
                    == target[m] by {
                    if m < i {
                        assert(statements_view(body@)[m] == body_before[m]);
                    }
                }
                assert(statements_view(body@) =~= target);
            }
            let ghost fields_before = fields_view(fields@);
            match node.field_type() {
                Some(field) => {
                    fields.push(field);
                    proof {
                        assert(fields_view(fields@) =~= fields_before.push(field@));
                    }
                },
                None => {},
            }
            let outputs = node.output_types();
            append_names(&mut produced, &outputs);
            i += 1;
        }
        proof {
            assert(statements_view(body@) =~= graph.body());
        }
        Ok((body, fields))
    }

    /// Generates the module for the graph. The statements follow the order
    /// in which the nodes were registered. Each tensor that a statement reads
    /// is duplicated while a later statement, or the return of the outputs,
    /// still reads it, and handed over at its last read. Fails, with the
    /// first error in the order that [`GraphView::error`] gives, where a
    /// declared input or output cannot be written in a signature, a node
    /// reads a value that does not exist yet, or the configuration of a node
    /// is not one that code exists for.
    pub fn codegen(self) -> (result: Result<Module, CodegenError>)
        ensures
            match result {
                Ok(module) => self@.error() is None && module@ == self@.module(),
                Err(error) => self@.error() == Some(error@),
            },
    {
        match first_other(&self.graph_input_types) {
            Some(j) => {
                return Err(CodegenError::UndeclarableType { value: self.graph_input_types[j].clone() });
            },
            None => {},
        }
        match first_other(&self.graph_output_types) {
            Some(j) => {
                return Err(
                    CodegenError::UndeclarableType { value: self.graph_output_types[j].clone() },
                );
            },
            None => {},
        }
        let mut scope = self.scope();
        let (body, fields) = match self.emit(&mut scope) {
            Ok(parts) => parts,
            Err(error) => {
                return Err(error);
            },
        };
        let imports_bool = has_kind(&self.graph_input_types, ElementKind::Bool) || has_kind(
            &self.graph_output_types,
            ElementKind::Bool,
        );
        let imports_int = has_kind(&self.graph_input_types, ElementKind::Int) || has_kind(
            &self.graph_output_types,
            ElementKind::Int,
        );
        Ok(
            Module {
                imports_bool,
                imports_int,
                fields,
                inputs: self.graph_input_types,
                outputs: self.graph_output_types,
                body,
            },
        )
    }

    /// Appends `node` to the graph. The caller registers nodes in an order in
    /// which every value is produced before it is read.
    pub fn register<N: NodeCodegen>(&mut self, node: N)
        ensures
            final(self)@ == (GraphView {
                nodes: old(self)@.nodes.push(node.node_view()),
                ..old(self)@
            }),
    {
        let entry = node.into_node();
        self.nodes.push(entry);
        proof {
            assert(self@.nodes =~= old(self)@.nodes.push(node.node_view()));
        }
    }
}

/// Appends copies of `more` to `known`.
fn append_types(known: &mut Vec<Type>, more: &Vec<Type>)
    ensures
        types_view(final(known)@) == types_view(old(known)@) + types_view(more@),
{
    let mut k: usize = 0;
    while k < more.len()
        invariant
            k <= more@.len(),
            types_view(known@) == types_view(old(known)@) + types_view(more@).take(k as int),
        decreases more@.len() - k,
    {
        let ghost before = known@;
        let copy = more[k].clone();
        known.push(copy);
        proof {
            let target = types_view(old(known)@) + types_view(more@).take(k + 1);
            assert(types_view(before).len() == before.len());
            assert(types_view(known@).len() == target.len());
            assert forall|m: int| 0 <= m < target.len() implies types_view(known@)[m]
                == target[m] by {
                if m < before.len() {
                    assert(types_view(known@)[m] == types_view(before)[m]);
                } else {
                    assert(known@[m] == copy);
                }
            }
            assert(types_view(known@) =~= target);
        }
        k += 1;
    }
    proof {
        assert(types_view(more@).take(more@.len() as int) =~= types_view(more@));
    }
}

/// The index of the last of `known` that has the name `name`.
fn find_last(known: &Vec<Type>, name: &String) -> (found: Option<usize>)
    ensures
        match found {
            Some(j) => j < known@.len() && lookup(types_view(known@), name@) == Some(known@[j as int]@),
            None => lookup(types_view(known@), name@) is None,
        },
{
    let ghost view = types_view(known@);
    let mut i: usize = known.len();
    proof {
        assert(view.take(i as int) =~= view);
    }
    while i > 0
        invariant
            i <= known@.len(),
            view == types_view(known@),
            lookup(view, name@) == lookup(view.take(i as int), name@),
        decreases i,
    {
        i -= 1;
        proof {
            assert(view.take(i + 1).drop_last() =~= view.take(i as int));
            assert(view.take(i + 1).last() == known@[i as int]@);
        }
        if *known[i].name() == *name {
            return Some(i);
        }
    }
    None
}

/// Copies of the types under `names`, each the last of `known` with that
/// name; or the index of the first name that none of `known` has.
fn resolve_names(known: &Vec<Type>, names: &Vec<String>) -> (result: Result<Vec<Type>, usize>)
    ensures
        match result {
            Ok(types) => {
                &&& first_unknown(types_view(known@), strings_view(names@)) is None
                &&& types_view(types@) == resolve(types_view(known@), strings_view(names@))
            },
            Err(i) => first_unknown(types_view(known@), strings_view(names@)) == Some(i as int),
        },
{
    let ghost view = types_view(known@);
    let ghost all = strings_view(names@);
    let mut types: Vec<Type> = Vec::new();
    let mut i: usize = 0;
    while i < names.len()
        invariant
            i <= names@.len(),
            view == types_view(known@),
            all == strings_view(names@),
            first_unknown(view, all.take(i as int)) is None,
            types_view(types@) == resolve(view, all.take(i as int)),
        decreases names@.len() - i,
    {
        proof {
            assert(all.take(i + 1).drop_last() =~= all.take(i as int));
            assert(all.take(i + 1).last() == names@[i as int]@);
        }
        match find_last(known, &names[i]) {
            Some(j) => {
                let ghost before = types_view(types@);
                types.push(known[j].clone());
                proof {
                    let after = resolve(view, all.take(i + 1));
                    assert(before.len() == i);
                    assert(types_view(types@).len() == after.len());
                    assert forall|m: int| 0 <= m < after.len() implies types_view(types@)[m]
                        == after[m] by {
                        if m < i {
                            assert(types_view(types@)[m] == before[m]);
                            assert(all.take(i as int)[m] == all.take(i + 1)[m]);
                        }
                    }
                    assert(types_view(types@) =~= after);
                }
            },
            None => {
                proof {
                    lemma_first_unknown_prefix(view, all, i + 1);
                }
                return Err(i);
            },
        }
        i += 1;
    }
    proof {
        assert(all.take(names@.len() as int) =~= all);
    }
    Ok(types)
}

/// A name that is unknown in a prefix of `names` is the first unknown one of
/// all of `names`, too.
proof fn lemma_first_unknown_prefix(known: Seq<TypeView>, names: Seq<Seq<char>>, n: int)
    requires
        0 <= n <= names.len(),
        first_unknown(known, names.take(n)) is Some,
    ensures
        first_unknown(known, names) == first_unknown(known, names.take(n)),
    decreases names.len() - n,
{
    if n < names.len() {
        assert(names.take(n + 1).drop_last() =~= names.take(n));
        lemma_first_unknown_prefix(known, names, n + 1);
    } else {
        assert(names.take(n) =~= names);
    }
}

/// The index of the first of `types` that cannot be written in a signature.
fn first_other(types: &Vec<Type>) -> (found: Option<usize>)
    ensures
        match found {
            Some(j) => j < types@.len() && first_undeclarable(types_view(types@)) == Some(
                types@[j as int]@,
            ),
            None => first_undeclarable(types_view(types@)) is None,
        },
{
    let ghost view = types_view(types@);
    let mut i: usize = 0;
    while i < types.len()
        invariant
            i <= types@.len(),
            view == types_view(types@),
            first_undeclarable(view.take(i as int)) is None,
        decreases types@.len() - i,
    {
        proof {
            assert(view.take(i + 1).drop_last() =~= view.take(i as int));
            assert(view.take(i + 1).last() == types@[i as int]@);
        }
        match &types[i] {
            Type::Other(_) => {
                proof {
                    lemma_first_undeclarable_prefix(view, i + 1);
                }
                return Some(i);
            },
            _ => {},
        }
        i += 1;
    }
    proof {
        assert(view.take(types@.len() as int) =~= view);
    }
    None
}

/// A type that is undeclarable in a prefix of `types` is the first
/// undeclarable one of all of `types`, too.
proof fn lemma_first_undeclarable_prefix(types: Seq<TypeView>, n: int)
    requires
        0 <= n <= types.len(),
        first_undeclarable(types.take(n)) is Some,
    ensures
        first_undeclarable(types) == first_undeclarable(types.take(n)),
    decreases types.len() - n,
{
    if n < types.len() {
        assert(types.take(n + 1).drop_last() =~= types.take(n));
        lemma_first_undeclarable_prefix(types, n + 1);
    } else {
        assert(types.take(n) =~= types);
    }
}

/// Whether one of `types` is a tensor with elements of kind `kind`.
fn has_kind(types: &Vec<Type>, kind: ElementKind) -> (found: bool)
    ensures
        found == has_tensor_of(types_view(types@), kind),
{
    let ghost view = types_view(types@);
    let mut i: usize = 0;
    while i < types.len()
        invariant
            i <= types@.len(),
            view == types_view(types@),
            forall|j: int| 0 <= j < i ==> !is_tensor_of(#[trigger] view[j], kind),
        decreases types@.len() - i,
    {
        match &types[i] {
            Type::Tensor(t) => {
                if t.kind == kind {
                    assert(is_tensor_of(view[i as int], kind));
                    return true;
                }
            },
            _ => {},
        }
        i += 1;
    }
    false
}

/// Whether one of `names` is `name`.
fn contains_name(names: &Vec<String>, name: &String) -> (found: bool)
    ensures
        found == strings_view(names@).contains(name@),
{
    let ghost view = strings_view(names@);
    let mut i: usize = 0;
    while i < names.len()
        invariant
            i <= names@.len(),
            view == strings_view(names@),
            forall|j: int| 0 <= j < i ==> view[j] != name@,
        decreases names@.len() - i,
    {
        if names[i] == *name {
            assert(view[i as int] == name@);
            return true;
        }
        i += 1;
    }
    false
}

/// Appends the names of `types` to `names`.
fn append_names(names: &mut Vec<String>, types: &Vec<Type>)
    ensures
        strings_view(final(names)@) == strings_view(old(names)@) + names_of(types_view(types@)),
{
    let ghost more = names_of(types_view(types@));
    let mut k: usize = 0;
    while k < types.len()
        invariant
            k <= types@.len(),
            more == names_of(types_view(types@)),
            strings_view(names@) == strings_view(old(names)@) + more.take(k as int),
        decreases types@.len() - k,
    {
        let ghost before = names@;
        let copy = types[k].name().clone();
        names.push(copy);
        proof {
            let target = strings_view(old(names)@) + more.take(k + 1);
            assert(strings_view(before).len() == before.len());
            assert(strings_view(names@).len() == target.len());
            assert forall|m: int| 0 <= m < target.len() implies strings_view(names@)[m]
                == target[m] by {
                if m < before.len() {
                    assert(strings_view(names@)[m] == strings_view(before)[m]);
                } else {
                    assert(names@[m] == copy);
                }
            }
            assert(strings_view(names@) =~= target);
        }
        k += 1;
    }
    proof {
        assert(more.take(types@.len() as int) =~= more);
    }
}

/// Records one read of each of `types` by the node at `position`.
fn register_reads(scope: &mut Scope, types: &Vec<Type>, position: usize)
    requires
        old(scope).wf(),
    ensures
        final(scope).wf(),
        final(scope)@ == register_all(old(scope)@, names_of(types_view(types@)), position),
{
    let ghost names = names_of(types_view(types@));
    let mut k: usize = 0;
    while k < types.len()
        invariant
            k <= types@.len(),
            names == names_of(types_view(types@)),
            scope.wf(),
            scope@ == register_all(old(scope)@, names.take(k as int), position),
        decreases types@.len() - k,
    {
        proof {
            assert(names.take(k + 1).drop_last() =~= names.take(k as int));
            assert(names.take(k + 1).last() == types@[k as int]@.name());
        }
        scope.register_future_use(types[k].name().as_str(), position);
        k += 1;
    }
    proof {
        assert(names.take(types@.len() as int) =~= names);
    }
}

} // verus!
