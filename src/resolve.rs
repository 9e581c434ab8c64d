use vstd::prelude::*;
use crate::cache::OutputsCache;
use crate::graph::{InputView, MyGraph, NodeView, OutputId, graph_wf, has_input, node_wf, out_of, output_exists, with_input};
use crate::value::{EvalError, MyValueType, ValueView, tag_of};

verus! {

/// What an input resolves to: a value, or the node that must be evaluated first.
#[derive(Debug)]
pub enum InputState {
    Ready(MyValueType),
    Pending(usize),
}

/// The value of input `i` of node `n` under cache `c`: its constant while unconnected,
/// the cached value of the output it is connected to, or `None` while that is not computed.
pub open spec fn resolved(g: Seq<NodeView>, c: Map<OutputId, ValueView>, n: int, i: int) -> Option<ValueView> {
    match g[n].inputs[i].connection {
        None => Some(g[n].inputs[i].value),
        Some(o) => if c.contains_key(o) {
            Some(c[o])
        } else {
            None
        },
    }
}

/// The first input of node `n` named `name`.
pub open spec fn is_first_input(g: Seq<NodeView>, n: int, name: Seq<char>, i: int) -> bool {
    &&& 0 <= i < g[n].inputs.len()
    &&& g[n].inputs[i].name == name
    &&& forall|j: int| 0 <= j < i ==> #[trigger] g[n].inputs[j].name != name
}

pub open spec fn has_input_named(g: Seq<NodeView>, n: int, name: Seq<char>) -> bool {
    exists|i: int| 0 <= i < g[n].inputs.len() && #[trigger] g[n].inputs[i].name == name
}

/// Resolves input `name` of node `node`: its constant where nothing is connected to it,
/// else the cached value of the connected output, else the node that produces that output.
pub fn evaluate_input(graph: &MyGraph, node: usize, name: &String, cache: &OutputsCache) -> (r: Result<
    InputState,
    EvalError,
>)
    ensures
        node >= graph@.len() ==> r == Err::<InputState, EvalError>(EvalError::UnknownNode { node }),
        node < graph@.len() && !has_input_named(graph@, node as int, name@) ==> (r matches Err(
            EvalError::UnknownPort { node: n2, name: nm },
        ) && n2 == node && nm@ == name@),
        node < graph@.len() && has_input_named(graph@, node as int, name@) ==> exists|i: int|
            #[trigger] is_first_input(graph@, node as int, name@, i) && match resolved(
                graph@,
                cache@,
                node as int,
                i,
            ) {
                Some(v) => r matches Ok(InputState::Ready(x)) && x@ == v,
                None => r matches Ok(InputState::Pending(m)) && m
                    == graph@[node as int].inputs[i].connection->0.node,
            },
{
    if node >= graph.len() {
        return Err(EvalError::UnknownNode { node });
    }
    let n = graph.node(node);
    let mut i: usize = 0;
    while i < n.inputs.len()
        invariant
            node < graph@.len(),
            n@ == graph@[node as int],
            graph@[node as int].inputs.len() == n.inputs@.len(),
            i <= n.inputs@.len(),
            forall|j: int| 0 <= j < i ==> #[trigger] graph@[node as int].inputs[j].name != name@,
        decreases n.inputs@.len() - i,
    {
        if n.inputs[i].name == *name {
            assert(n.inputs@[i as int]@ == graph@[node as int].inputs[i as int]);
            assert(is_first_input(graph@, node as int, name@, i as int));
            return Ok(resolve_at(graph, node, i, cache));
        }
        proof {
            assert(n.inputs@[i as int]@ == graph@[node as int].inputs[i as int]);
        }
        i += 1;
    }
    Err(EvalError::UnknownPort { node, name: name.clone() })
}

/// Resolves input `i` of node `n`.
pub(crate) fn resolve_at(graph: &MyGraph, n: usize, i: usize, cache: &OutputsCache) -> (r: InputState)
    requires
        n < graph@.len(),
        i < graph@[n as int].inputs.len(),
    ensures
        match resolved(graph@, cache@, n as int, i as int) {
            Some(v) => r matches InputState::Ready(x) && x@ == v,
            None => r matches InputState::Pending(m) && m == graph@[n as int].inputs[i as int].connection->0.node,
        },
{
    let node = graph.node(n);
    let p = &node.inputs[i];
    assert(p@ == graph@[n as int].inputs[i as int]);
    match p.connection {
        None => InputState::Ready(p.value.clone_value()),
        Some(o) => match cache.get(o) {
            Some(v) => InputState::Ready(v.clone_value()),
            None => InputState::Pending(o.node),
        },
    }
}

/// The first output of node `n` named `name`.
pub open spec fn is_first_output(g: Seq<NodeView>, n: int, name: Seq<char>, i: int) -> bool {
    &&& 0 <= i < g[n].outputs.len()
    &&& g[n].outputs[i].name == name
    &&& forall|j: int| 0 <= j < i ==> #[trigger] g[n].outputs[j].name != name
}

pub open spec fn has_output_named(g: Seq<NodeView>, n: int, name: Seq<char>) -> bool {
    exists|i: int| 0 <= i < g[n].outputs.len() && #[trigger] g[n].outputs[i].name == name
}

/// Records `value` as the value of the output named `name` of node `node`, and returns it.
pub fn populate_output(
    graph: &MyGraph,
    cache: &mut OutputsCache,
    node: usize,
    name: &String,
    value: MyValueType,
) -> (r: Result<MyValueType, EvalError>)
    ensures
        node >= graph@.len() ==> r == Err::<MyValueType, EvalError>(EvalError::UnknownNode { node }),
        node < graph@.len() && !has_output_named(graph@, node as int, name@) ==> (r matches Err(
            EvalError::UnknownPort { node: n2, name: nm },
        ) && n2 == node && nm@ == name@),
        !(r is Ok) ==> final(cache)@ == old(cache)@,
        node < graph@.len() && has_output_named(graph@, node as int, name@) ==> exists|i: int|
            #[trigger] is_first_output(graph@, node as int, name@, i) && (r matches Ok(v) && v@ == value@
                && final(cache)@ == old(cache)@.insert(OutputId { node, index: i as usize }, value@)),
{
    if node >= graph.len() {
        return Err(EvalError::UnknownNode { node });
    }
    let n = graph.node(node);
    let mut i: usize = 0;
    while i < n.outputs.len()
        invariant
            node < graph@.len(),
            n@ == graph@[node as int],
            graph@[node as int].outputs.len() == n.outputs@.len(),
            i <= n.outputs@.len(),
            forall|j: int| 0 <= j < i ==> #[trigger] graph@[node as int].outputs[j].name != name@,
            cache@ == old(cache)@,
        decreases n.outputs@.len() - i,
    {
        assert(n.outputs@[i as int]@ == graph@[node as int].outputs[i as int]);
        if n.outputs[i].name == *name {
            assert(is_first_output(graph@, node as int, name@, i as int));
            cache.insert(OutputId { node, index: i }, value.clone_value());
            return Ok(value);
        }
        i += 1;
    }
    Err(EvalError::UnknownPort { node, name: name.clone() })
}

/// Whether input `i` of node `n` resolves to a value of the input's declared type.
pub open spec fn input_ok(g: Seq<NodeView>, c: Map<OutputId, ValueView>, n: int, i: int) -> bool {
    resolved(g, c, n, i) matches Some(v) && tag_of(v) == g[n].inputs[i].typ
}

/// Node `n` can be computed: each of its inputs has a value of its declared type.
pub open spec fn ready(g: Seq<NodeView>, c: Map<OutputId, ValueView>, n: int) -> bool {
    forall|i: int| 0 <= i < g[n].inputs.len() ==> #[trigger] input_ok(g, c, n, i)
}

/// The node to compute next on the way to computing `n`, looking at the inputs of `n`
/// from position `i` on: the first input without a value leads into the node that
/// produces it; the first whose value has the wrong type is an error. At most `fuel`
/// more nodes are entered.
pub open spec fn next_node(g: Seq<NodeView>, c: Map<OutputId, ValueView>, n: int, i: int, fuel: nat)
    -> Result<int, EvalError>
    decreases fuel, g[n].inputs.len() - i,
    when 0 <= n < g.len() && 0 <= i <= g[n].inputs.len()
{
    if i >= g[n].inputs.len() {
        Ok(n)
    } else {
        match resolved(g, c, n, i) {
            Some(v) => if tag_of(v) == g[n].inputs[i].typ {
                next_node(g, c, n, i + 1, fuel)
            } else {
                Err(EvalError::TypeMismatch { expected: g[n].inputs[i].typ, actual: tag_of(v) })
            },
            None => {
                let m = g[n].inputs[i].connection->0.node as int;
                if fuel == 0 {
                    Err(EvalError::CycleDetected { node: m as usize })
                } else if 0 <= m < g.len() {
                    next_node(g, c, m, 0, (fuel - 1) as nat)
                } else {
                    Err(EvalError::UnknownNode { node: m as usize })
                }
            },
        }
    }
}

/// Where `next_node` leads, every input of the node reached has a value of its type,
/// and the node reached is `n` itself or one whose output is not yet computed.
pub(crate) proof fn lemma_next_node(g: Seq<NodeView>, c: Map<OutputId, ValueView>, n: int, i: int, fuel: nat)
    requires
        graph_wf(g),
        0 <= n < g.len(),
        0 <= i <= g[n].inputs.len(),
        forall|j: int| 0 <= j < i ==> #[trigger] input_ok(g, c, n, j),
    ensures
        next_node(g, c, n, i, fuel) matches Ok(m) ==> (0 <= m < g.len() && ready(g, c, m) && (m == n
            || !c.contains_key(out_of(m)))),
        next_node(g, c, n, i, fuel) matches Err(e) ==> (e is TypeMismatch || e is CycleDetected),
    decreases fuel, g[n].inputs.len() - i,
{
    if i >= g[n].inputs.len() {
    } else {
        match resolved(g, c, n, i) {
            Some(v) => {
                if tag_of(v) == g[n].inputs[i].typ {
                    assert(input_ok(g, c, n, i));
                    lemma_next_node(g, c, n, i + 1, fuel);
                }
            },
            None => {
                let o = g[n].inputs[i].connection->0;
                let m = o.node as int;
                assert(output_exists(g, o));
                if fuel > 0 {
                    lemma_next_node(g, c, m, 0, (fuel - 1) as nat);
                    assert(node_wf(g[m]));
                    assert(o == out_of(m));
                }
            },
        }
    }
}

/// Finds the node to compute next on the way to `n`, as `next_node` does.
pub(crate) fn find_ready(graph: &MyGraph, cache: &OutputsCache, n: usize, i: usize, fuel: usize) -> (r: Result<usize, EvalError>)
    requires
        n < graph@.len(),
        i <= graph@[n as int].inputs.len(),
    ensures
        match next_node(graph@, cache@, n as int, i as int, fuel as nat) {
            Ok(m) => r == Ok::<usize, EvalError>(m as usize),
            Err(e) => r == Err::<usize, EvalError>(e),
        },
    decreases fuel, graph@[n as int].inputs.len() - i,
{
    let node = graph.node(n);
    if i >= node.inputs.len() {
        return Ok(n);
    }
    let p = &node.inputs[i];
    assert(p@ == graph@[n as int].inputs[i as int]);
    let actual = match p.connection {
        None => p.value.data_type(),
        Some(o) => match cache.get(o) {
            Some(v) => v.data_type(),
            None => {
                if fuel == 0 {
                    return Err(EvalError::CycleDetected { node: o.node });
                }
                if o.node >= graph.len() {
                    return Err(EvalError::UnknownNode { node: o.node });
                }
                return find_ready(graph, cache, o.node, 0, fuel - 1);
            },
        },
    };
    if actual != p.typ {
        return Err(EvalError::TypeMismatch { expected: p.typ, actual });
    }
    find_ready(graph, cache, n, i + 1, fuel)
}

/// An input with nothing connected to it resolves to its own constant, whatever the
/// cache holds; and editing another input (connecting, disconnecting or setting its
/// constant) or adding a node leaves that resolution as it was.
pub proof fn lemma_constant_fallback(
    g: Seq<NodeView>,
    c1: Map<OutputId, ValueView>,
    c2: Map<OutputId, ValueView>,
    n: int,
    i: int,
    n2: int,
    i2: int,
    p: InputView,
    added: NodeView,
)
    requires
        has_input(g, n, i),
        has_input(g, n2, i2),
        n2 != n || i2 != i,
        g[n].inputs[i].connection is None,
    ensures
        resolved(g, c1, n, i) == Some(g[n].inputs[i].value),
        resolved(g, c2, n, i) == resolved(g, c1, n, i),
        resolved(with_input(g, n2, i2, p), c2, n, i) == resolved(g, c1, n, i),
        resolved(g.push(added), c2, n, i) == resolved(g, c1, n, i),
{
    let h = with_input(g, n2, i2, p);
    assert(h[n].inputs[i] == g[n].inputs[i]);
    assert(g.push(added)[n] == g[n]);
}

/// Input `i` of node `a` waits on node `b`: it is connected to an output of `b` whose
/// value is not cached.
pub open spec fn waits_through(g: Seq<NodeView>, c: Map<OutputId, ValueView>, a: int, i: int, b: int) -> bool {
    g[a].inputs[i].connection matches Some(o) && !c.contains_key(o) && o.node == b
}

pub open spec fn waits_on(g: Seq<NodeView>, c: Map<OutputId, ValueView>, a: int, b: int) -> bool {
    exists|i: int| 0 <= i < g[a].inputs.len() && #[trigger] waits_through(g, c, a, i, b)
}

/// Nodes of the graph, each waiting on the next.
pub open spec fn is_wait_path(g: Seq<NodeView>, c: Map<OutputId, ValueView>, s: Seq<int>) -> bool {
    &&& forall|k: int| 0 <= k < s.len() ==> 0 <= #[trigger] s[k] < g.len()
    &&& forall|k: int| 0 <= k < s.len() - 1 ==> #[trigger] waits_on(g, c, s[k], s[k + 1])
}

pub open spec fn is_cycle_error(r: Result<int, EvalError>) -> bool {
    r matches Err(EvalError::CycleDetected { .. })
}

/// Where `next_node` runs out of fuel, it has walked a path of `fuel + 2` waiting nodes.
proof fn lemma_cycle_path(g: Seq<NodeView>, c: Map<OutputId, ValueView>, n: int, i: int, fuel: nat)
    requires
        graph_wf(g),
        0 <= n < g.len(),
        0 <= i <= g[n].inputs.len(),
        is_cycle_error(next_node(g, c, n, i, fuel)),
    ensures
        exists|s: Seq<int>| #[trigger] is_wait_path(g, c, s) && s.len() == fuel + 2 && s[0] == n,
    decreases fuel, g[n].inputs.len() - i,
{
    assert(i < g[n].inputs.len());
    match resolved(g, c, n, i) {
        Some(v) => {
            assert(tag_of(v) == g[n].inputs[i].typ);
            assert(next_node(g, c, n, i, fuel) == next_node(g, c, n, i + 1, fuel));
            lemma_cycle_path(g, c, n, i + 1, fuel);
        },
        None => {
            let o = g[n].inputs[i].connection->0;
            let m = o.node as int;
            assert(output_exists(g, o));
            assert(waits_through(g, c, n, i, m));
            assert(waits_on(g, c, n, m));
            if fuel == 0 {
                let s = seq![n, m];
                assert(s[0] == n && s[1] == m);
                assert(is_wait_path(g, c, s));
            } else {
                assert(next_node(g, c, n, i, fuel) == next_node(g, c, m, 0, (fuel - 1) as nat));
                lemma_cycle_path(g, c, m, 0, (fuel - 1) as nat);
                let t = choose|t: Seq<int>| #[trigger] is_wait_path(g, c, t) && t.len() == fuel + 1 && t[0] == m;
                let s = seq![n] + t;
                assert forall|k: int| 0 <= k < s.len() - 1 implies #[trigger] waits_on(g, c, s[k], s[k + 1]) by {
                    if k > 0 {
                        assert(s[k] == t[k - 1] && s[k + 1] == t[k]);
                        assert(waits_on(g, c, t[k - 1], t[(k - 1) + 1]));
                    } else {
                        assert(s[0] == n && s[1] == m);
                    }
                }
                assert forall|k: int| 0 <= k < s.len() implies 0 <= #[trigger] s[k] < g.len() by {
                    if k > 0 {
                        assert(s[k] == t[k - 1]);
                    }
                }
                assert(is_wait_path(g, c, s));
                assert(s.len() == fuel + 2 && s[0] == n);
            }
        },
    }
}

/// More than `n` values in `[0, n)` repeat one.
proof fn lemma_repeats(s: Seq<int>, n: int)
    requires
        0 <= n < s.len(),
        forall|k: int| 0 <= k < s.len() ==> 0 <= #[trigger] s[k] < n,
    ensures
        exists|a: int, b: int| 0 <= a < b < s.len() && #[trigger] s[a] == #[trigger] s[b],
{
    if s.no_duplicates() {
        s.unique_seq_to_set();
        vstd::set_lib::lemma_int_range(0, n);
        assert(s.to_set().subset_of(vstd::set_lib::set_int_range(0, n)));
        vstd::set_lib::lemma_len_subset(s.to_set(), vstd::set_lib::set_int_range(0, n));
    } else {
        let (a, b) = choose|a: int, b: int| 0 <= a < s.len() && 0 <= b < s.len() && a != b && s[a] == s[b];
        if b < a {
            assert(s[b] == s[a]);
        }
    }
}

/// Looking for the next node fails only on an input whose value has the wrong type,
/// or on a cycle (see `lemma_cycle_detected_only_on_cycles`); a node that the graph
/// does not have is never reached.
pub proof fn lemma_step_failures(g: Seq<NodeView>, c: Map<OutputId, ValueView>, target: int)
    requires
        graph_wf(g),
        0 <= target < g.len(),
    ensures
        next_node(g, c, target, 0, g.len()) matches Err(e) ==> (e is TypeMismatch || e is CycleDetected),
{
    lemma_next_node(g, c, target, 0, g.len());
}

/// An evaluation fails with `CycleDetected` only where the graph has a cycle: some
/// node on a path of waiting nodes from the target waits, through that path, on itself.
pub proof fn lemma_cycle_detected_only_on_cycles(g: Seq<NodeView>, c: Map<OutputId, ValueView>, target: int)
    requires
        graph_wf(g),
        0 <= target < g.len(),
        is_cycle_error(next_node(g, c, target, 0, g.len())),
    ensures
        exists|s: Seq<int>, a: int, b: int|
            is_wait_path(g, c, s) && s[0] == target && 0 <= a < b < s.len() && #[trigger] s[a] == #[trigger] s[b],
{
    lemma_cycle_path(g, c, target, 0, g.len());
    let s = choose|s: Seq<int>| #[trigger] is_wait_path(g, c, s) && s.len() == g.len() + 2 && s[0] == target;
    lemma_repeats(s, g.len() as int);
    let (a, b) = choose|a: int, b: int| 0 <= a < b < s.len() && s[a] == s[b];
    assert(is_wait_path(g, c, s) && s[0] == target && 0 <= a < b < s.len() && s[a] == s[b]);
}

} // verus!
