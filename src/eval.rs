use vstd::prelude::*;
use crate::cache::OutputsCache;
use crate::frame::{DataFrame, Series, SeriesView, spec_height, filtered, selected};
use crate::graph::{MyGraph, NodeView, OutputId, graph_wf, node_wf, out_of};
use crate::num::{Num, Vec2};
use crate::resolve::{
    InputState, input_ok, is_first_output, lemma_next_node, next_node, ready, resolve_at,
    resolved, find_ready, has_output_named, populate_output,
};
use crate::template::MyNodeTemplate;
use crate::value::{EvalError, MyDataType, MyValueType, ValueView, tag_of};

verus! {

/// A computation that the library leaves to its caller: floating-point arithmetic,
/// the conversion of a row count to a number, and reading a table from a file.
#[derive(Debug)]
pub enum Kernel {
    AddScalars(Num, Num),
    SubtractScalars(Num, Num),
    AddVectors(Vec2, Vec2),
    SubtractVectors(Vec2, Vec2),
    /// The vector's components, each times the scalar.
    ScaleVector(Num, Vec2),
    /// The number of rows, as a number.
    RowCount(usize),
    /// The table in the comma-separated file at the path, with a header row.
    LoadCsv(String),
}

pub enum KernelView {
    AddScalars(Num, Num),
    SubtractScalars(Num, Num),
    AddVectors(Vec2, Vec2),
    SubtractVectors(Vec2, Vec2),
    ScaleVector(Num, Vec2),
    RowCount(nat),
    LoadCsv(Seq<char>),
}

impl View for Kernel {
    type V = KernelView;

    open spec fn view(&self) -> KernelView {
        match self {
            Kernel::AddScalars(a, b) => KernelView::AddScalars(*a, *b),
            Kernel::SubtractScalars(a, b) => KernelView::SubtractScalars(*a, *b),
            Kernel::AddVectors(a, b) => KernelView::AddVectors(*a, *b),
            Kernel::SubtractVectors(a, b) => KernelView::SubtractVectors(*a, *b),
            Kernel::ScaleVector(s, v) => KernelView::ScaleVector(*s, *v),
            Kernel::RowCount(n) => KernelView::RowCount(*n as nat),
            Kernel::LoadCsv(p) => KernelView::LoadCsv(p@),
        }
    }
}

/// What one step of an evaluation did.
#[derive(Debug)]
pub enum Step {
    /// The requested node's output is computed: here is its value.
    Finished(MyValueType),
    /// The library computed this node and cached its output.
    Computed(usize),
    /// This node is next and needs the kernel's result, to be recorded as its "out".
    NeedsKernel(usize, Kernel),
}

/// What computing a ready node yields: its output value, or a kernel for the caller.
pub enum Outcome {
    Value(ValueView),
    Kernel(KernelView),
}

pub open spec fn as_num(v: ValueView) -> Num {
    match v {
        ValueView::Scalar(x) => x,
        _ => Num { bits: 0 },
    }
}

pub open spec fn as_vec(v: ValueView) -> Vec2 {
    match v {
        ValueView::Vec2(x) => x,
        _ => Vec2 { x: Num { bits: 0 }, y: Num { bits: 0 } },
    }
}

pub open spec fn as_text(v: ValueView) -> Seq<char> {
    match v {
        ValueView::String(x) => x,
        _ => Seq::empty(),
    }
}

pub open spec fn as_series(v: ValueView) -> SeriesView {
    match v {
        ValueView::Series(x) => x,
        _ => SeriesView { name: Seq::empty(), values: Seq::empty() },
    }
}

pub open spec fn as_frame(v: ValueView) -> Seq<SeriesView> {
    match v {
        ValueView::DataFrame(x) => x,
        _ => Seq::empty(),
    }
}

/// The value of input `i` of a ready node `n`.
pub open spec fn arg(g: Seq<NodeView>, c: Map<OutputId, ValueView>, n: int, i: int) -> ValueView {
    resolved(g, c, n, i)->0
}

/// The operation of each kind of node, on the values of its inputs.
pub open spec fn outcome(g: Seq<NodeView>, c: Map<OutputId, ValueView>, n: int) -> Outcome {
    let a = |i: int| arg(g, c, n, i);
    match g[n].template {
        MyNodeTemplate::MakeScalar => Outcome::Value(ValueView::Scalar(as_num(a(0)))),
        MyNodeTemplate::AddScalar => Outcome::Kernel(KernelView::AddScalars(as_num(a(0)), as_num(a(1)))),
        MyNodeTemplate::SubtractScalar => Outcome::Kernel(
            KernelView::SubtractScalars(as_num(a(0)), as_num(a(1))),
        ),
        MyNodeTemplate::MakeVector => Outcome::Value(
            ValueView::Vec2(Vec2 { x: as_num(a(0)), y: as_num(a(1)) }),
        ),
        MyNodeTemplate::AddVector => Outcome::Kernel(KernelView::AddVectors(as_vec(a(0)), as_vec(a(1)))),
        MyNodeTemplate::SubtractVector => Outcome::Kernel(
            KernelView::SubtractVectors(as_vec(a(0)), as_vec(a(1))),
        ),
        MyNodeTemplate::VectorTimesScalar => Outcome::Kernel(
            KernelView::ScaleVector(as_num(a(0)), as_vec(a(1))),
        ),
        MyNodeTemplate::LoadCSV => Outcome::Kernel(KernelView::LoadCsv(as_text(a(0)))),
        MyNodeTemplate::CountRows => Outcome::Kernel(KernelView::RowCount(spec_height(as_frame(a(0))))),
        MyNodeTemplate::SelectColumn => Outcome::Value(
            ValueView::Series(selected(as_frame(a(0)), as_text(a(1)))),
        ),
        MyNodeTemplate::SimpleFilter => Outcome::Value(
            ValueView::Series(
                SeriesView {
                    name: as_series(a(0)).name,
                    values: filtered(as_series(a(0)).values, as_num(a(1)), as_num(a(2))),
                },
            ),
        ),
    }
}

/// The value of input `i` of a ready node `n`.
fn arg_value(graph: &MyGraph, cache: &OutputsCache, n: usize, i: usize) -> (r: MyValueType)
    requires
        n < graph@.len(),
        i < graph@[n as int].inputs.len(),
        ready(graph@, cache@, n as int),
    ensures
        r@ == arg(graph@, cache@, n as int, i as int),
        tag_of(r@) == graph@[n as int].inputs[i as int].typ,
{
    assert(input_ok(graph@, cache@, n as int, i as int));
    match resolve_at(graph, n, i, cache) {
        InputState::Ready(v) => v,
        InputState::Pending(_) => {
            proof {
                assert(false);
            }
            MyValueType::default()
        },
    }
}

fn num_arg(graph: &MyGraph, cache: &OutputsCache, n: usize, i: usize) -> (r: Num)
    requires
        n < graph@.len(),
        i < graph@[n as int].inputs.len(),
        ready(graph@, cache@, n as int),
        graph@[n as int].inputs[i as int].typ == MyDataType::Scalar,
    ensures
        r == as_num(arg(graph@, cache@, n as int, i as int)),
{
    match arg_value(graph, cache, n, i) {
        MyValueType::Scalar { value } => value,
        _ => Num::zero(),
    }
}

fn vec_arg(graph: &MyGraph, cache: &OutputsCache, n: usize, i: usize) -> (r: Vec2)
    requires
        n < graph@.len(),
        i < graph@[n as int].inputs.len(),
        ready(graph@, cache@, n as int),
        graph@[n as int].inputs[i as int].typ == MyDataType::Vec2,
    ensures
        r == as_vec(arg(graph@, cache@, n as int, i as int)),
{
    match arg_value(graph, cache, n, i) {
        MyValueType::Vec2 { value } => value,
        _ => Vec2::zero(),
    }
}

fn text_arg(graph: &MyGraph, cache: &OutputsCache, n: usize, i: usize) -> (r: String)
    requires
        n < graph@.len(),
        i < graph@[n as int].inputs.len(),
        ready(graph@, cache@, n as int),
        graph@[n as int].inputs[i as int].typ == MyDataType::String,
    ensures
        r@ == as_text(arg(graph@, cache@, n as int, i as int)),
{
    match arg_value(graph, cache, n, i) {
        MyValueType::String { value } => value,
        _ => String::new(),
    }
}

fn series_arg(graph: &MyGraph, cache: &OutputsCache, n: usize, i: usize) -> (r: Series)
    requires
        n < graph@.len(),
        i < graph@[n as int].inputs.len(),
        ready(graph@, cache@, n as int),
        graph@[n as int].inputs[i as int].typ == MyDataType::Series,
    ensures
        r@ == as_series(arg(graph@, cache@, n as int, i as int)),
{
    match arg_value(graph, cache, n, i) {
        MyValueType::Series { value } => value,
        _ => {
            let r = Series::new(String::new(), Vec::new());
            assert(r@.values =~= Seq::empty());
            r
        },
    }
}

fn frame_arg(graph: &MyGraph, cache: &OutputsCache, n: usize, i: usize) -> (r: DataFrame)
    requires
        n < graph@.len(),
        i < graph@[n as int].inputs.len(),
        ready(graph@, cache@, n as int),
        graph@[n as int].inputs[i as int].typ == MyDataType::DataFrame,
    ensures
        r@ == as_frame(arg(graph@, cache@, n as int, i as int)),
{
    match arg_value(graph, cache, n, i) {
        MyValueType::DataFrame { value } => value,
        _ => {
            let r = DataFrame::empty();
            assert(r@ =~= Seq::empty());
            r
        },
    }
}

/// Computes the ready node `n`: records its output where the library can compute it,
/// else returns the kernel whose result its output is to be.
fn compute_node(graph: &MyGraph, cache: &mut OutputsCache, n: usize) -> (r: Option<Kernel>)
    requires
        n < graph@.len(),
        ready(graph@, old(cache)@, n as int),
    ensures
        match outcome(graph@, old(cache)@, n as int) {
            Outcome::Value(v) => r is None && final(cache)@ == old(cache)@.insert(out_of(n as int), v),
            Outcome::Kernel(k) => (r matches Some(x) && x@ == k) && final(cache)@ == old(cache)@,
        },
{
    // The graph's length comes with its well-formedness.
    let _ = graph.len();
    let t = graph.node(n).user_data.template;
    assert(node_wf(graph@[n as int]));
    let c: &OutputsCache = cache;
    match t {
        MyNodeTemplate::MakeScalar => {
            let x = num_arg(graph, c, n, 0);
            populate_out(graph, cache, n, MyValueType::Scalar { value: x });
            None
        },
        MyNodeTemplate::AddScalar => Some(Kernel::AddScalars(num_arg(graph, c, n, 0), num_arg(graph, c, n, 1))),
        MyNodeTemplate::SubtractScalar => Some(
            Kernel::SubtractScalars(num_arg(graph, c, n, 0), num_arg(graph, c, n, 1)),
        ),
        MyNodeTemplate::MakeVector => {
            let x = num_arg(graph, c, n, 0);
            let y = num_arg(graph, c, n, 1);
            populate_out(graph, cache, n, MyValueType::Vec2 { value: Vec2::new(x, y) });
            None
        },
        MyNodeTemplate::AddVector => Some(Kernel::AddVectors(vec_arg(graph, c, n, 0), vec_arg(graph, c, n, 1))),
        MyNodeTemplate::SubtractVector => Some(
            Kernel::SubtractVectors(vec_arg(graph, c, n, 0), vec_arg(graph, c, n, 1)),
        ),
        MyNodeTemplate::VectorTimesScalar => Some(
            Kernel::ScaleVector(num_arg(graph, c, n, 0), vec_arg(graph, c, n, 1)),
        ),
        MyNodeTemplate::LoadCSV => Some(Kernel::LoadCsv(text_arg(graph, c, n, 0))),
        MyNodeTemplate::CountRows => {
            let df = frame_arg(graph, c, n, 0);
            Some(Kernel::RowCount(df.height()))
        },
        MyNodeTemplate::SelectColumn => {
            let df = frame_arg(graph, c, n, 0);
            let column = text_arg(graph, c, n, 1);
            let s = df.select_column(&column);
            populate_out(graph, cache, n, MyValueType::Series { value: s });
            None
        },
        MyNodeTemplate::SimpleFilter => {
            let s = series_arg(graph, c, n, 0);
            let min = num_arg(graph, c, n, 1);
            let max = num_arg(graph, c, n, 2);
            let f = s.filter_range(min, max);
            populate_out(graph, cache, n, MyValueType::Series { value: f });
            None
        },
    }
}

/// One step of evaluating node `target` with `cache`, which holds what earlier steps
/// (of this evaluation, or of others on the same graph) computed. Where the target's
/// output is cached, its value is returned. Else the next node on the way to it is
/// found (see `next_node`, which looks at most as deep as the graph has nodes, and
/// fails at the first input of a wrong type); that node, whose output is not yet
/// cached, is computed here or handed to the caller as a kernel. Repeating the step
/// until it finishes, recording each kernel's result with `populate_output` under the
/// node's "out", evaluates the target, computing each node at most once.
pub fn evaluate_step(graph: &MyGraph, target: usize, cache: &mut OutputsCache) -> (r: Result<
    Step,
    EvalError,
>)
    ensures
        target >= graph@.len() ==> r == Err::<Step, EvalError>(EvalError::UnknownNode { node: target })
            && final(cache)@ == old(cache)@,
        target < graph@.len() && old(cache)@.contains_key(out_of(target as int)) ==> (r matches Ok(
            Step::Finished(v),
        ) && v@ == old(cache)@[out_of(target as int)]) && final(cache)@ == old(cache)@,
        target < graph@.len() && !old(cache)@.contains_key(out_of(target as int)) ==> match next_node(
            graph@,
            old(cache)@,
            target as int,
            0,
            graph@.len(),
        ) {
            Err(e) => r == Err::<Step, EvalError>(e) && final(cache)@ == old(cache)@,
            Ok(m) => !old(cache)@.contains_key(out_of(m)) && match outcome(graph@, old(cache)@, m) {
                Outcome::Value(v) => r == Ok::<Step, EvalError>(Step::Computed(m as usize))
                    && final(cache)@ == old(cache)@.insert(out_of(m), v),
                Outcome::Kernel(k) => (r matches Ok(Step::NeedsKernel(m2, x)) && m2 == m && x@ == k)
                    && final(cache)@ == old(cache)@,
            },
        },
{
    let len = graph.len();
    if target >= len {
        return Err(EvalError::UnknownNode { node: target });
    }
    match cache.get(OutputId { node: target, index: 0 }) {
        Some(v) => {
            return Ok(Step::Finished(v.clone_value()));
        },
        None => {},
    }
    proof {
        lemma_next_node(graph@, cache@, target as int, 0, len as nat);
    }
    let m = match find_ready(graph, cache, target, 0, len) {
        Ok(m) => m,
        Err(e) => {
            return Err(e);
        },
    };
    match compute_node(graph, cache, m) {
        None => Ok(Step::Computed(m)),
        Some(k) => Ok(Step::NeedsKernel(m, k)),
    }
}

/// A node whose output is in the cache is never the next node of a step: a step
/// computes a node, or hands it out as a kernel, only while the node's output is
/// missing, and a step only ever adds to the cache. So across all the steps that
/// share one cache, however many target nodes they evaluate, each node is computed
/// at most once, also where several nodes depend on it.
pub proof fn lemma_computed_at_most_once(g: Seq<NodeView>, c: Map<OutputId, ValueView>, target: int, m: int)
    requires
        graph_wf(g),
        0 <= target < g.len(),
        !c.contains_key(out_of(target)),
        c.contains_key(out_of(m)),
    ensures
        next_node(g, c, target, 0, g.len()) != Ok::<int, EvalError>(m),
{
    lemma_next_node(g, c, target, 0, g.len());
}

/// Records the value of the one output, "out", of node `n`.
fn populate_out(graph: &MyGraph, cache: &mut OutputsCache, n: usize, value: MyValueType)
    requires
        n < graph@.len(),
    ensures
        final(cache)@ == old(cache)@.insert(out_of(n as int), value@),
{
    // The graph's length comes with its well-formedness.
    let _ = graph.len();
    assert(node_wf(graph@[n as int]));
    let name = "out".to_owned();
    let r = populate_output(graph, cache, n, &name, value);
    proof {
        assert(has_output_named(graph@, n as int, name@)) by {
            assert(graph@[n as int].outputs[0].name == name@);
        }
        let i = choose|i: int| #[trigger] is_first_output(graph@, n as int, name@, i) && (r matches Ok(v)
            && final(cache)@ == old(cache)@.insert(OutputId { node: n, index: i as usize }, v@));
        assert(i == 0);
    }
}

} // verus!
