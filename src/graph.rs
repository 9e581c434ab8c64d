use vstd::prelude::*;
use crate::frame::Series;
use crate::frame::DataFrame;
use crate::num::{Num, Vec2};
use crate::template::{MyNodeTemplate, template_inputs, template_output};
use crate::value::{MyDataType, MyValueType, ValueView};

verus! {

/// The identity of an output port: its node and its position among the node's outputs.
#[derive(Clone, Copy, PartialEq, Eq, Structural, Debug)]
pub struct OutputId {
    pub node: usize,
    pub index: usize,
}

/// Whether an input takes a connection, an inline constant, or either.
#[derive(Clone, Copy, PartialEq, Eq, Structural, Debug)]
pub enum InputParamKind {
    ConnectionOnly,
    ConstantOnly,
    ConnectionOrConstant,
}

/// An input port: its constant is used while nothing is connected to it.
#[derive(Debug)]
pub struct InputParam {
    pub name: String,
    pub typ: MyDataType,
    pub value: MyValueType,
    pub kind: InputParamKind,
    pub shown_inline: bool,
    pub connection: Option<OutputId>,
}

#[derive(Debug)]
pub struct OutputParam {
    pub name: String,
    pub typ: MyDataType,
}

/// The data a node carries besides its ports: its kind.
#[derive(Clone, Copy, PartialEq, Eq, Structural, Debug)]
pub struct MyNodeData {
    pub template: MyNodeTemplate,
}

impl MyNodeTemplate {
    /// The data that a node of this kind carries.
    pub fn user_data(&self) -> (r: MyNodeData)
        ensures
            r.template == *self,
    {
        MyNodeData { template: *self }
    }
}

#[derive(Debug)]
pub struct Node {
    pub label: String,
    pub user_data: MyNodeData,
    pub inputs: Vec<InputParam>,
    pub outputs: Vec<OutputParam>,
}

pub struct InputView {
    pub name: Seq<char>,
    pub typ: MyDataType,
    pub value: ValueView,
    pub kind: InputParamKind,
    pub shown_inline: bool,
    pub connection: Option<OutputId>,
}

pub struct OutputView {
    pub name: Seq<char>,
    pub typ: MyDataType,
}

pub struct NodeView {
    pub label: Seq<char>,
    pub template: MyNodeTemplate,
    pub inputs: Seq<InputView>,
    pub outputs: Seq<OutputView>,
}

impl View for InputParam {
    type V = InputView;

    open spec fn view(&self) -> InputView {
        InputView {
            name: self.name@,
            typ: self.typ,
            value: self.value@,
            kind: self.kind,
            shown_inline: self.shown_inline,
            connection: self.connection,
        }
    }
}

impl View for OutputParam {
    type V = OutputView;

    open spec fn view(&self) -> OutputView {
        OutputView { name: self.name@, typ: self.typ }
    }
}

impl View for Node {
    type V = NodeView;

    open spec fn view(&self) -> NodeView {
        NodeView {
            label: self.label@,
            template: self.user_data.template,
            inputs: self.inputs@.map_values(|p: InputParam| p@),
            outputs: self.outputs@.map_values(|p: OutputParam| p@),
        }
    }
}

/// The output that a node hands on: each node has one, named "out".
pub open spec fn out_of(n: int) -> OutputId {
    OutputId { node: n as usize, index: 0 }
}

/// An output identity that names a port of the graph.
pub open spec fn output_exists(g: Seq<NodeView>, o: OutputId) -> bool {
    o.node < g.len() && o.index < g[o.node as int].outputs.len()
}

/// A node built from its template: the template's inputs, and one output "out".
pub open spec fn node_wf(n: NodeView) -> bool {
    &&& n.outputs.len() == 1
    &&& n.outputs[0].name == "out"@
    &&& n.outputs[0].typ == template_output(n.template)
    &&& n.inputs.len() == template_inputs(n.template).len()
    &&& forall|i: int| 0 <= i < n.inputs.len() ==> {
        &&& (#[trigger] n.inputs[i]).name == template_inputs(n.template)[i].0
        &&& n.inputs[i].typ == template_inputs(n.template)[i].1
    }
}

/// Every node follows its template and every connection starts at an output of the graph.
pub open spec fn graph_wf(g: Seq<NodeView>) -> bool {
    &&& forall|n: int| 0 <= n < g.len() ==> node_wf(#[trigger] g[n])
    &&& forall|n: int, i: int|
        0 <= n < g.len() && 0 <= i < g[n].inputs.len() ==> ((#[trigger] g[n].inputs[i]).connection is Some
            ==> output_exists(g, g[n].inputs[i].connection->0))
}

/// The graph: an arena of nodes addressed by their position. An input port holds at
/// most one connection, from an output port; an output may feed any number of inputs.
pub struct MyGraph {
    nodes: Vec<Node>,
}

impl View for MyGraph {
    type V = Seq<NodeView>;

    closed spec fn view(&self) -> Seq<NodeView> {
        node_views(self.nodes@)
    }
}

pub open spec fn node_views(s: Seq<Node>) -> Seq<NodeView> {
    s.map_values(|n: Node| n@)
}

pub open spec fn has_input(g: Seq<NodeView>, n: int, i: int) -> bool {
    0 <= n < g.len() && 0 <= i < g[n].inputs.len()
}

impl MyGraph {
    #[verifier::type_invariant]
    spec fn inv(self) -> bool {
        graph_wf(self@)
    }

    /// The graph with no nodes.
    pub fn new() -> (r: MyGraph)
        ensures
            r@ == Seq::<NodeView>::empty(),
    {
        let r = MyGraph { nodes: Vec::new() };
        assert(r@ =~= Seq::<NodeView>::empty());
        r
    }

    /// Takes the nodes out, leaving the empty graph.
    fn take_nodes(&mut self) -> (r: Vec<Node>)
        ensures
            node_views(r@) == old(self)@,
            graph_wf(old(self)@),
    {
        proof {
            use_type_invariant(&*self);
        }
        let mut nodes: Vec<Node> = Vec::new();
        std::mem::swap(&mut self.nodes, &mut nodes);
        nodes
    }

    /// Puts `nodes` in, in place of what is there.
    fn put_nodes(&mut self, nodes: Vec<Node>)
        requires
            graph_wf(node_views(nodes@)),
        ensures
            final(self)@ == node_views(nodes@),
    {
        let mut nodes = nodes;
        std::mem::swap(&mut self.nodes, &mut nodes);
    }

    pub fn len(&self) -> (r: usize)
        ensures
            r == self@.len(),
            graph_wf(self@),
    {
        proof {
            use_type_invariant(self);
        }
        self.nodes.len()
    }

    /// The node at position `n`.
    pub fn node(&self, n: usize) -> (r: &Node)
        requires
            n < self@.len(),
        ensures
            r@ == self@[n as int],
            graph_wf(self@),
    {
        proof {
            use_type_invariant(self);
        }
        &self.nodes[n]
    }

    /// Adds a node of kind `t`, with its template's ports, and returns its identity.
    pub fn add_node(&mut self, t: MyNodeTemplate) -> (r: usize)
        ensures
            r == old(self)@.len(),
            final(self)@ == old(self)@.push(fresh_node(t, crate::template::finder_label(t))),
    {
        let mut nodes = self.take_nodes();
        let node = build_node(t);
        let r = nodes.len();
        let ghost g = old(self)@.push(node@);
        nodes.push(node);
        assert(node_views(nodes@) =~= g);
        assert forall|n: int, i: int|
            0 <= n < g.len() && 0 <= i < g[n].inputs.len() implies ((#[trigger] g[n].inputs[i]).connection is Some
            ==> output_exists(g, g[n].inputs[i].connection->0)) by {
            if n < r {
                assert(old(self)@[n] == g[n]);
            }
        }
        assert forall|n: int| 0 <= n < g.len() implies node_wf(#[trigger] g[n]) by {
            if n < r {
                assert(old(self)@[n] == g[n]);
            }
        }
        self.put_nodes(nodes);
        r
    }

    /// Connects output `o` to input `i` of node `n`, in place of any earlier connection.
    /// Returns false, and changes nothing, where either port does not exist.
    pub fn connect(&mut self, o: OutputId, n: usize, i: usize) -> (r: bool)
        ensures
            r == (output_exists(old(self)@, o) && has_input(old(self)@, n as int, i as int)),
            r ==> final(self)@ == with_input(old(self)@, n as int, i as int,
                InputView { connection: Some(o), ..old(self)@[n as int].inputs[i as int] }),
            !r ==> final(self)@ == old(self)@,
    {
        let mut nodes = self.take_nodes();
        if !(o.node < nodes.len() && o.index < nodes[o.node].outputs.len() && n < nodes.len()
            && i < nodes[n].inputs.len()) {
            self.put_nodes(nodes);
            return false;
        }
        let ghost g0 = node_views(nodes@);
        let ghost p = InputView { connection: Some(o), ..g0[n as int].inputs[i as int] };
        nodes[n].inputs[i].connection = Some(o);
        proof {
            lemma_input_replaced(old(self)@, nodes@, n as int, i as int, p);
        }
        self.put_nodes(nodes);
        true
    }

    /// Removes the connection into input `i` of node `n`, if there is one.
    /// Returns false, and changes nothing, where the input does not exist.
    pub fn disconnect(&mut self, n: usize, i: usize) -> (r: bool)
        ensures
            r == has_input(old(self)@, n as int, i as int),
            r ==> final(self)@ == with_input(old(self)@, n as int, i as int,
                InputView { connection: None, ..old(self)@[n as int].inputs[i as int] }),
            !r ==> final(self)@ == old(self)@,
    {
        let mut nodes = self.take_nodes();
        if !(n < nodes.len() && i < nodes[n].inputs.len()) {
            self.put_nodes(nodes);
            return false;
        }
        let ghost g0 = node_views(nodes@);
        let ghost p = InputView { connection: None, ..g0[n as int].inputs[i as int] };
        nodes[n].inputs[i].connection = None;
        proof {
            lemma_input_replaced(old(self)@, nodes@, n as int, i as int, p);
        }
        self.put_nodes(nodes);
        true
    }

    /// Sets the constant that input `i` of node `n` holds.
    /// Returns false, and changes nothing, where the input does not exist.
    pub fn set_constant(&mut self, n: usize, i: usize, value: MyValueType) -> (r: bool)
        ensures
            r == has_input(old(self)@, n as int, i as int),
            r ==> final(self)@ == with_input(old(self)@, n as int, i as int,
                InputView { value: value@, ..old(self)@[n as int].inputs[i as int] }),
            !r ==> final(self)@ == old(self)@,
    {
        let mut nodes = self.take_nodes();
        if !(n < nodes.len() && i < nodes[n].inputs.len()) {
            self.put_nodes(nodes);
            return false;
        }
        let ghost g0 = node_views(nodes@);
        let ghost p = InputView { value: value@, ..g0[n as int].inputs[i as int] };
        nodes[n].inputs[i].value = value;
        proof {
            lemma_input_replaced(old(self)@, nodes@, n as int, i as int, p);
        }
        self.put_nodes(nodes);
        true
    }
}

/// Replacing an input by one of the same name and type, whose connection (if any)
/// starts at an output of the graph, keeps the graph well formed; and where the nodes
/// differ from `g` at that input alone, their view is the replaced graph.
proof fn lemma_input_replaced(g: Seq<NodeView>, nodes: Seq<Node>, n: int, i: int, p: InputView)
    requires
        graph_wf(g),
        has_input(g, n, i),
        p.name == g[n].inputs[i].name,
        p.typ == g[n].inputs[i].typ,
        p.connection is Some ==> output_exists(g, p.connection->0),
        nodes.len() == g.len(),
        forall|k: int| 0 <= k < g.len() && k != n ==> #[trigger] nodes[k]@ == g[k],
        nodes[n]@.label == g[n].label,
        nodes[n]@.template == g[n].template,
        nodes[n]@.outputs == g[n].outputs,
        nodes[n]@.inputs.len() == g[n].inputs.len(),
        forall|k: int| 0 <= k < g[n].inputs.len() && k != i ==> #[trigger] nodes[n]@.inputs[k] == g[n].inputs[k],
        nodes[n]@.inputs[i] == p,
    ensures
        node_views(nodes) == with_input(g, n, i, p),
        graph_wf(with_input(g, n, i, p)),
{
    let h = with_input(g, n, i, p);
    assert(nodes[n]@.inputs =~= h[n].inputs);
    assert(node_views(nodes) =~= h);
    assert forall|m: int| 0 <= m < h.len() implies node_wf(#[trigger] h[m]) by {
        if m != n {
            assert(h[m] == g[m]);
        } else {
            assert(node_wf(g[n]));
        }
    }
    assert forall|m: int, k: int|
        0 <= m < h.len() && 0 <= k < h[m].inputs.len() implies ((#[trigger] h[m].inputs[k]).connection is Some
        ==> output_exists(h, h[m].inputs[k].connection->0)) by {
        if m != n || k != i {
            assert(h[m].inputs[k] == g[m].inputs[k]);
        }
    }
}

/// The graph `g` with input `i` of node `n` replaced by `p`.
pub open spec fn with_input(g: Seq<NodeView>, n: int, i: int, p: InputView) -> Seq<NodeView> {
    g.update(n, NodeView { inputs: g[n].inputs.update(i, p), ..g[n] })
}

/// The view of the input that a node of a given template starts with at position `i`.
pub open spec fn fresh_input(t: MyNodeTemplate, i: int) -> InputView {
    InputView {
        name: template_inputs(t)[i].0,
        typ: template_inputs(t)[i].1,
        value: default_of(template_inputs(t)[i].1),
        kind: InputParamKind::ConnectionOrConstant,
        shown_inline: true,
        connection: None,
    }
}

/// The constant that a fresh input of type `t` holds.
pub open spec fn default_of(t: MyDataType) -> ValueView {
    match t {
        MyDataType::Scalar => ValueView::Scalar(Num { bits: 0 }),
        MyDataType::Vec2 => ValueView::Vec2(Vec2 { x: Num { bits: 0 }, y: Num { bits: 0 } }),
        MyDataType::String => ValueView::String(Seq::empty()),
        MyDataType::Series => ValueView::Series(
            crate::frame::SeriesView { name: "empty"@, values: Seq::empty() },
        ),
        MyDataType::DataFrame => ValueView::DataFrame(Seq::empty()),
    }
}

/// A fresh constant of type `t`.
fn default_value(t: MyDataType) -> (r: MyValueType)
    ensures
        r@ == default_of(t),
{
    match t {
        MyDataType::Scalar => MyValueType::Scalar { value: Num::zero() },
        MyDataType::Vec2 => MyValueType::Vec2 { value: Vec2::zero() },
        MyDataType::String => MyValueType::String { value: String::new() },
        MyDataType::Series => {
            let s = Series::empty();
            assert(s@.values =~= Seq::empty());
            MyValueType::Series { value: s }
        },
        MyDataType::DataFrame => {
            let d = DataFrame::empty();
            assert(d@ =~= Seq::empty());
            MyValueType::DataFrame { value: d }
        },
    }
}

/// An input port of the given name and type, holding the type's fresh constant.
fn input_param(name: &str, typ: MyDataType) -> (r: InputParam)
    ensures
        r@ == (InputView {
            name: name@,
            typ,
            value: default_of(typ),
            kind: InputParamKind::ConnectionOrConstant,
            shown_inline: true,
            connection: None,
        }),
{
    InputParam {
        name: name.to_owned(),
        typ,
        value: default_value(typ),
        kind: InputParamKind::ConnectionOrConstant,
        shown_inline: true,
        connection: None,
    }
}

/// The inputs that a fresh node of kind `t` declares.
pub open spec fn fresh_inputs(t: MyNodeTemplate) -> Seq<InputView> {
    Seq::new(template_inputs(t).len(), |i: int| fresh_input(t, i))
}

pub open spec fn fresh_node(t: MyNodeTemplate, label: Seq<char>) -> NodeView {
    NodeView {
        label,
        template: t,
        inputs: fresh_inputs(t),
        outputs: seq![OutputView { name: "out"@, typ: template_output(t) }],
    }
}

/// A node of kind `t` with the ports its template declares and their fresh constants.
pub fn build_node(t: MyNodeTemplate) -> (r: Node)
    ensures
        r@ == fresh_node(t, r@.label),
        r@.label == crate::template::finder_label(t),
{
    let inputs: Vec<InputParam> = match t {
        MyNodeTemplate::AddScalar | MyNodeTemplate::SubtractScalar => vec![
            input_param("A", MyDataType::Scalar),
            input_param("B", MyDataType::Scalar),
        ],
        MyNodeTemplate::VectorTimesScalar => vec![
            input_param("scalar", MyDataType::Scalar),
            input_param("vector", MyDataType::Vec2),
        ],
        MyNodeTemplate::AddVector | MyNodeTemplate::SubtractVector => vec![
            input_param("v1", MyDataType::Vec2),
            input_param("v2", MyDataType::Vec2),
        ],
        MyNodeTemplate::MakeVector => vec![
            input_param("x", MyDataType::Scalar),
            input_param("y", MyDataType::Scalar),
        ],
        MyNodeTemplate::MakeScalar => vec![input_param("value", MyDataType::Scalar)],
        MyNodeTemplate::LoadCSV => vec![input_param("path", MyDataType::String)],
        MyNodeTemplate::CountRows => vec![input_param("df", MyDataType::DataFrame)],
        MyNodeTemplate::SelectColumn => vec![
            input_param("df", MyDataType::DataFrame),
            input_param("column", MyDataType::String),
        ],
        MyNodeTemplate::SimpleFilter => vec![
            input_param("df", MyDataType::Series),
            input_param("min", MyDataType::Scalar),
            input_param("max", MyDataType::Scalar),
        ],
    };
    let out_type = output_type(t);
    let outputs = vec![OutputParam { name: "out".to_owned(), typ: out_type }];
    let node = Node {
        label: t.node_graph_label(),
        user_data: t.user_data(),
        inputs,
        outputs,
    };
    assert(node@.inputs =~= fresh_inputs(t));
    assert(node@.outputs =~= seq![OutputView { name: "out"@, typ: template_output(t) }]);
    node
}

fn output_type(t: MyNodeTemplate) -> (r: MyDataType)
    ensures
        r == template_output(t),
{
    match t {
        MyNodeTemplate::MakeScalar | MyNodeTemplate::AddScalar | MyNodeTemplate::SubtractScalar
        | MyNodeTemplate::CountRows => MyDataType::Scalar,
        MyNodeTemplate::MakeVector | MyNodeTemplate::AddVector | MyNodeTemplate::SubtractVector
        | MyNodeTemplate::VectorTimesScalar => MyDataType::Vec2,
        MyNodeTemplate::LoadCSV => MyDataType::DataFrame,
        MyNodeTemplate::SelectColumn | MyNodeTemplate::SimpleFilter => MyDataType::Series,
    }
}

} // verus!
