use node_graph_eval::{
    evaluate_input, evaluate_step, populate_output, DataFrame, EvalError, InputState, Kernel,
    MyDataType, MyGraph, MyNodeTemplate, MyValueType, Num, OutputId, OutputsCache, Series, Step,
    Vec2,
};

fn num(x: f64) -> Num {
    Num::from_bits(x.to_bits())
}

fn val(n: Num) -> f64 {
    f64::from_bits(n.to_bits())
}

fn scalar(x: f64) -> MyValueType {
    MyValueType::Scalar { value: num(x) }
}

fn vector(x: f64, y: f64) -> MyValueType {
    MyValueType::Vec2 { value: Vec2::new(num(x), num(y)) }
}

fn out(node: usize) -> OutputId {
    OutputId { node, index: 0 }
}

/// What the application does with a kernel, for numbers given as binary64.
fn run_kernel(k: Kernel) -> MyValueType {
    match k {
        Kernel::AddScalars(a, b) => scalar(val(a) + val(b)),
        Kernel::SubtractScalars(a, b) => scalar(val(a) - val(b)),
        Kernel::AddVectors(a, b) => vector(val(a.x) + val(b.x), val(a.y) + val(b.y)),
        Kernel::SubtractVectors(a, b) => vector(val(a.x) - val(b.x), val(a.y) - val(b.y)),
        Kernel::ScaleVector(s, v) => vector(val(v.x) * val(s), val(v.y) * val(s)),
        Kernel::RowCount(n) => scalar(n as f64),
        Kernel::LoadCsv(_) => panic!("no files in these tests"),
    }
}

/// Runs steps until the target is evaluated; returns its value and the nodes computed.
fn run(graph: &MyGraph, target: usize, cache: &mut OutputsCache) -> (Result<MyValueType, EvalError>, Vec<usize>) {
    let mut computed = Vec::new();
    loop {
        match evaluate_step(graph, target, cache) {
            Err(e) => return (Err(e), computed),
            Ok(Step::Finished(v)) => return (Ok(v), computed),
            Ok(Step::Computed(n)) => computed.push(n),
            Ok(Step::NeedsKernel(n, k)) => {
                computed.push(n);
                populate_output(graph, cache, n, &"out".to_string(), run_kernel(k)).unwrap();
            }
        }
    }
}

fn as_scalar(v: MyValueType) -> f64 {
    val(v.try_to_scalar().unwrap())
}

fn as_vector(v: MyValueType) -> (f64, f64) {
    let v = v.try_to_vec2().unwrap();
    (val(v.x), val(v.y))
}

fn column(name: &str, values: &[Option<f64>]) -> Series {
    Series::new(name.to_string(), values.iter().map(|v| v.map(num)).collect())
}

#[test]
fn add_scalar_constants() {
    let mut g = MyGraph::new();
    let n = g.add_node(MyNodeTemplate::AddScalar);
    assert!(g.set_constant(n, 0, scalar(2.0)));
    assert!(g.set_constant(n, 1, scalar(3.0)));
    let mut cache = OutputsCache::new();
    match evaluate_step(&g, n, &mut cache) {
        Ok(Step::NeedsKernel(m, Kernel::AddScalars(a, b))) => {
            assert_eq!(m, n);
            assert_eq!(val(a), 2.0);
            assert_eq!(val(b), 3.0);
        }
        other => panic!("unexpected step {:?}", other),
    }
    let (r, _) = run(&g, n, &mut cache);
    assert_eq!(as_scalar(r.unwrap()), 5.0);
}

#[test]
fn subtract_vector_constants() {
    let mut g = MyGraph::new();
    let n = g.add_node(MyNodeTemplate::SubtractVector);
    g.set_constant(n, 0, vector(3.0, 4.0));
    g.set_constant(n, 1, vector(1.0, 1.0));
    let (r, _) = run(&g, n, &mut OutputsCache::new());
    assert_eq!(as_vector(r.unwrap()), (2.0, 3.0));
}

#[test]
fn vector_times_scalar_constants() {
    let mut g = MyGraph::new();
    let n = g.add_node(MyNodeTemplate::VectorTimesScalar);
    g.set_constant(n, 0, scalar(2.0));
    g.set_constant(n, 1, vector(1.0, 2.0));
    let (r, _) = run(&g, n, &mut OutputsCache::new());
    assert_eq!(as_vector(r.unwrap()), (2.0, 4.0));
}

#[test]
fn make_vector_packs_inputs() {
    let mut g = MyGraph::new();
    let x = g.add_node(MyNodeTemplate::MakeScalar);
    g.set_constant(x, 0, scalar(-1.5));
    let v = g.add_node(MyNodeTemplate::MakeVector);
    g.connect(out(x), v, 0);
    g.set_constant(v, 1, scalar(7.0));
    let mut cache = OutputsCache::new();
    let (r, computed) = run(&g, v, &mut cache);
    assert_eq!(as_vector(r.unwrap()), (-1.5, 7.0));
    assert_eq!(computed, vec![x, v]);
}

#[test]
fn filter_is_inclusive_and_drops_nulls() {
    let mut g = MyGraph::new();
    let n = g.add_node(MyNodeTemplate::SimpleFilter);
    let s = column("s", &[Some(0.0), Some(1.0), Some(2.0), Some(3.0), Some(4.0), None]);
    g.set_constant(n, 0, MyValueType::Series { value: s });
    g.set_constant(n, 1, scalar(1.0));
    g.set_constant(n, 2, scalar(3.0));
    let mut cache = OutputsCache::new();
    match evaluate_step(&g, n, &mut cache) {
        Ok(Step::Computed(m)) => assert_eq!(m, n),
        other => panic!("unexpected step {:?}", other),
    }
    let (r, _) = run(&g, n, &mut cache);
    let f = r.unwrap().try_to_series().unwrap();
    assert_eq!(f.name, "s");
    let kept: Vec<Option<f64>> = f.values.iter().map(|v| v.map(val)).collect();
    assert_eq!(kept, vec![Some(1.0), Some(2.0), Some(3.0)]);
}

#[test]
fn filter_drops_nan() {
    let s = column("s", &[Some(f64::NAN), Some(2.0), Some(-0.0)]);
    let f = s.filter_range(num(0.0), num(2.0));
    let kept: Vec<f64> = f.values.iter().map(|v| val(v.unwrap())).collect();
    assert_eq!(kept, vec![2.0, -0.0]);
}

#[test]
fn number_order_follows_binary64() {
    let cases = [
        (1.0, 2.0),
        (-3.0, -2.0),
        (-1.0, 0.5),
        (-0.0, 0.0),
        (0.0, -0.0),
        (f64::NEG_INFINITY, -1e300),
        (1e300, f64::INFINITY),
        (2.0, 1.0),
        (f64::NAN, 1.0),
        (1.0, f64::NAN),
        (5e-324, 0.0),
    ];
    for (a, b) in cases {
        assert_eq!(num(a).le(num(b)), a <= b, "{} <= {}", a, b);
    }
}

#[test]
fn select_missing_column_gives_empty_series() {
    let mut g = MyGraph::new();
    let n = g.add_node(MyNodeTemplate::SelectColumn);
    let df = DataFrame::new(vec![column("x", &[Some(1.0), Some(2.0)])]).unwrap();
    g.set_constant(n, 0, MyValueType::DataFrame { value: df });
    g.set_constant(n, 1, MyValueType::String { value: "y".to_string() });
    let (r, _) = run(&g, n, &mut OutputsCache::new());
    let s = r.unwrap().try_to_series().unwrap();
    assert_eq!(s.name, "empty");
    assert!(s.values.is_empty());
}

#[test]
fn select_present_column() {
    let mut g = MyGraph::new();
    let n = g.add_node(MyNodeTemplate::SelectColumn);
    let df = DataFrame::new(vec![
        column("x", &[Some(1.0), Some(2.0)]),
        column("y", &[None, Some(5.0)]),
    ])
    .unwrap();
    g.set_constant(n, 0, MyValueType::DataFrame { value: df });
    g.set_constant(n, 1, MyValueType::String { value: "y".to_string() });
    let (r, _) = run(&g, n, &mut OutputsCache::new());
    let s = r.unwrap().try_to_series().unwrap();
    assert_eq!(s.name, "y");
    let values: Vec<Option<f64>> = s.values.iter().map(|v| v.map(val)).collect();
    assert_eq!(values, vec![None, Some(5.0)]);
}

#[test]
fn count_rows_of_seven() {
    let mut g = MyGraph::new();
    let n = g.add_node(MyNodeTemplate::CountRows);
    let seven: Vec<Option<f64>> = (0..7).map(|i| Some(i as f64)).collect();
    let df = DataFrame::new(vec![
        column("a", &seven),
        column("b", &seven),
        column("c", &seven),
    ])
    .unwrap();
    assert_eq!(df.height(), 7);
    g.set_constant(n, 0, MyValueType::DataFrame { value: df });
    let mut cache = OutputsCache::new();
    match evaluate_step(&g, n, &mut cache) {
        Ok(Step::NeedsKernel(_, Kernel::RowCount(rows))) => assert_eq!(rows, 7),
        other => panic!("unexpected step {:?}", other),
    }
    let (r, _) = run(&g, n, &mut cache);
    assert_eq!(as_scalar(r.unwrap()), 7.0);
}

#[test]
fn frame_rejects_bad_columns() {
    assert!(DataFrame::new(vec![column("a", &[Some(1.0)]), column("b", &[])]).is_none());
    assert!(DataFrame::new(vec![column("a", &[Some(1.0)]), column("a", &[Some(2.0)])]).is_none());
    assert_eq!(DataFrame::empty().height(), 0);
}

#[test]
fn end_to_end_make_then_add() {
    let mut g = MyGraph::new();
    let a = g.add_node(MyNodeTemplate::MakeScalar);
    g.set_constant(a, 0, scalar(5.0));
    let b = g.add_node(MyNodeTemplate::AddScalar);
    assert!(g.connect(out(a), b, 0));
    g.set_constant(b, 1, scalar(10.0));
    let mut cache = OutputsCache::new();
    let (r, _) = run(&g, b, &mut cache);
    assert_eq!(as_scalar(r.unwrap()), 15.0);
    let mut keys = cache.keys();
    keys.sort_by_key(|o| o.node);
    assert_eq!(keys, vec![out(a), out(b)]);
}

#[test]
fn diamond_upstream_computed_once() {
    let mut g = MyGraph::new();
    let up = g.add_node(MyNodeTemplate::MakeScalar);
    g.set_constant(up, 0, scalar(1.0));
    let left = g.add_node(MyNodeTemplate::AddScalar);
    g.connect(out(up), left, 0);
    g.connect(out(up), left, 1);
    let right = g.add_node(MyNodeTemplate::SubtractScalar);
    g.connect(out(up), right, 0);
    g.set_constant(right, 1, scalar(4.0));
    let sum = g.add_node(MyNodeTemplate::AddScalar);
    g.connect(out(left), sum, 0);
    g.connect(out(right), sum, 1);
    let mut cache = OutputsCache::new();
    let (l, c1) = run(&g, left, &mut cache);
    let (r, c2) = run(&g, right, &mut cache);
    let (s, c3) = run(&g, sum, &mut cache);
    assert_eq!(as_scalar(l.unwrap()), 2.0);
    assert_eq!(as_scalar(r.unwrap()), -3.0);
    assert_eq!(as_scalar(s.unwrap()), -1.0);
    let all: Vec<usize> = c1.into_iter().chain(c2).chain(c3).collect();
    assert_eq!(all.iter().filter(|&&n| n == up).count(), 1);
    assert_eq!(all, vec![up, left, right, sum]);
}

#[test]
fn unconnected_input_gives_constant() {
    let mut g = MyGraph::new();
    let a = g.add_node(MyNodeTemplate::MakeScalar);
    let b = g.add_node(MyNodeTemplate::AddScalar);
    g.set_constant(b, 1, scalar(10.0));
    let cache = OutputsCache::new();
    let read = |g: &MyGraph| match evaluate_input(g, b, &"B".to_string(), &cache) {
        Ok(InputState::Ready(v)) => as_scalar(v),
        other => panic!("unexpected {:?}", other),
    };
    assert_eq!(read(&g), 10.0);
    g.connect(out(a), b, 0);
    g.set_constant(a, 0, scalar(3.0));
    g.add_node(MyNodeTemplate::LoadCSV);
    assert_eq!(read(&g), 10.0);
    match evaluate_input(&g, b, &"A".to_string(), &cache) {
        Ok(InputState::Pending(n)) => assert_eq!(n, a),
        other => panic!("unexpected {:?}", other),
    }
}

#[test]
fn fresh_inputs_hold_zero() {
    let mut g = MyGraph::new();
    let n = g.add_node(MyNodeTemplate::SubtractScalar);
    let (r, _) = run(&g, n, &mut OutputsCache::new());
    assert_eq!(as_scalar(r.unwrap()), 0.0);
    let node = g.node(n);
    let names: Vec<&str> = node.inputs.iter().map(|p| p.name.as_str()).collect();
    assert_eq!(names, vec!["A", "B"]);
    assert_eq!(node.outputs[0].name, "out");
}

#[test]
fn unknown_ports_and_nodes() {
    let mut g = MyGraph::new();
    let n = g.add_node(MyNodeTemplate::MakeScalar);
    let mut cache = OutputsCache::new();
    match evaluate_input(&g, n, &"nope".to_string(), &cache) {
        Err(EvalError::UnknownPort { node, name }) => {
            assert_eq!(node, n);
            assert_eq!(name, "nope");
        }
        other => panic!("unexpected {:?}", other),
    }
    assert!(matches!(
        populate_output(&g, &mut cache, n, &"other".to_string(), scalar(1.0)),
        Err(EvalError::UnknownPort { .. })
    ));
    assert!(matches!(evaluate_step(&g, 5, &mut cache), Err(EvalError::UnknownNode { node: 5 })));
    assert!(!g.connect(out(n), 3, 0));
    assert!(!g.connect(OutputId { node: n, index: 1 }, n, 0));
    assert!(cache.keys().is_empty());
}

#[test]
fn wrong_constant_type_is_a_mismatch() {
    let mut g = MyGraph::new();
    let n = g.add_node(MyNodeTemplate::AddVector);
    g.set_constant(n, 1, scalar(1.0));
    let (r, _) = run(&g, n, &mut OutputsCache::new());
    match r {
        Err(EvalError::TypeMismatch { expected, actual }) => {
            assert_eq!(expected, MyDataType::Vec2);
            assert_eq!(actual, MyDataType::Scalar);
        }
        other => panic!("unexpected {:?}", other),
    }
}

#[test]
fn mismatch_stops_before_later_inputs() {
    let mut g = MyGraph::new();
    let text = g.add_node(MyNodeTemplate::LoadCSV);
    let n = g.add_node(MyNodeTemplate::AddScalar);
    g.set_constant(n, 0, MyValueType::String { value: "x".to_string() });
    g.connect(out(text), n, 1);
    let (r, computed) = run(&g, n, &mut OutputsCache::new());
    assert!(matches!(r, Err(EvalError::TypeMismatch { expected: MyDataType::Scalar, actual: MyDataType::String })));
    assert!(computed.is_empty());
}

#[test]
fn cycle_is_detected() {
    let mut g = MyGraph::new();
    let a = g.add_node(MyNodeTemplate::AddScalar);
    let b = g.add_node(MyNodeTemplate::AddScalar);
    g.connect(out(b), a, 0);
    g.connect(out(a), b, 1);
    let (r, computed) = run(&g, a, &mut OutputsCache::new());
    assert!(matches!(r, Err(EvalError::CycleDetected { .. })));
    assert!(computed.is_empty());
}

#[test]
fn disconnect_restores_constant() {
    let mut g = MyGraph::new();
    let a = g.add_node(MyNodeTemplate::MakeScalar);
    g.set_constant(a, 0, scalar(8.0));
    let b = g.add_node(MyNodeTemplate::MakeScalar);
    g.set_constant(b, 0, scalar(1.0));
    g.connect(out(a), b, 0);
    let (r, _) = run(&g, b, &mut OutputsCache::new());
    assert_eq!(as_scalar(r.unwrap()), 8.0);
    assert!(g.disconnect(b, 0));
    let (r, _) = run(&g, b, &mut OutputsCache::new());
    assert_eq!(as_scalar(r.unwrap()), 1.0);
}
