//! A dependency-driven evaluator for a typed dataflow node graph.
//!
//! A graph holds nodes of fixed kinds, each with named, typed input and output ports;
//! an input holds a constant and may be connected to one output. Evaluating a node
//! resolves its inputs (the constant of an unconnected input, else the value of the
//! upstream output, computed first where it is not cached), applies the node's
//! operation and records its output in a cache that lives for one evaluation request,
//! so that each node is computed at most once. Numbers are IEEE-754 binary64 values
//! held as bit patterns; the arithmetic on them and the reading of files are kernels
//! that the caller computes (see `Kernel` and `evaluate_step`).

mod cache;
mod eval;
mod frame;
mod graph;
mod num;
mod resolve;
mod state;
mod template;
mod value;

pub use cache::OutputsCache;
pub use eval::{Kernel, Step, evaluate_step, lemma_computed_at_most_once};
pub use resolve::{
    InputState, evaluate_input, lemma_constant_fallback, lemma_cycle_detected_only_on_cycles,
    lemma_step_failures, populate_output,
};
pub use frame::{DataFrame, Series};
pub use graph::{InputParam, InputParamKind, MyGraph, MyNodeData, Node, OutputId, OutputParam, build_node};
pub use num::{Num, Vec2};
pub use state::{MyGraphState, MyResponse};
pub use template::{AllMyNodeTemplates, MyNodeTemplate};
pub use value::{EvalError, MyDataType, MyValueType};
