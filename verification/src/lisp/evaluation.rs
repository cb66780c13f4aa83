//! The evaluator: walks the syntax tree, maintains a name-binding
//! environment, dispatches special forms and builtin functions, and emits
//! construction calls into the graph being built.
//!
//! The whole evaluation is specified by a functional interpreter over node
//! shapes and graph shapes; the executable evaluator is proved to compute
//! exactly what the interpreter describes, for every program and every
//! outcome of the numeric operations.

use vstd::prelude::*;

verus! {

broadcast use
    vstd::seq::axiom_seq_index_decreases,
    vstd::seq::axiom_seq_subrange_decreases,
    vstd::std_specs::vec::axiom_vec_index_decreases,
    vstd::std_specs::vec::axiom_vec_decreases_to_view,
    vstd::std_specs::control_flow::group_control_flow_axioms;

use crate::error::{LispError, ErrV, ValueKind};
use crate::graph::{SynthGraph, GraphV, BufferV, NodeKind, SynthInput, NodeId, StoreId, BufferId,
    ParameterId, empty_graph};
use crate::lisp::sexpression::{SExpression, SExprV, view_sexpr, view_exprs, vsize, vsize_seq,
    spec_all_numbers, spec_expect_ident, shape_kind, exprs_all_constant, lemma_view_exprs_len,
    lemma_view_exprs_index, lemma_view_exprs_suffix, lemma_vsize_pos, lemma_vsize_seq_le,
    lemma_vsize_seq_subrange};
use crate::lisp::{KeyInput, SynthInfo};
use crate::numeric::{ONE_BITS, ZERO_BITS, add_bits, sub_bits, mul_bits, trunc_usize_bits, num_add,
    num_sub, num_mul, num_trunc_usize};
use vstd::string::StrSliceExecFns;

/// The result of evaluating one expression: a constant, an array of
/// constants, or a graph input.
#[derive(Debug)]
pub enum EvalResult {
    Constant(u32),
    Array(Vec<u32>),
    SynthNode(SynthInput),
}

/// The mathematical shape of an evaluation result.
pub enum ResultV {
    Constant(u32),
    Array(Seq<u32>),
    SynthNode(SynthInput),
}

/// The shape of one evaluation result.
pub open spec fn result_view(r: EvalResult) -> ResultV {
    match r {
        EvalResult::Constant(f) => ResultV::Constant(f),
        EvalResult::Array(v) => ResultV::Array(v@),
        EvalResult::SynthNode(n) => ResultV::SynthNode(n),
    }
}

/// The kind of a result, as named in type-mismatch errors. Every graph
/// input counts as a node here; the finer distinction is drawn only where a
/// specific handle is required.
pub open spec fn result_kind(r: ResultV) -> ValueKind {
    match r {
        ResultV::Constant(_) => ValueKind::Constant,
        ResultV::Array(_) => ValueKind::Array,
        ResultV::SynthNode(_) => ValueKind::Node,
    }
}

/// The kind of a graph input, as named where a specific handle is required.
pub open spec fn input_kind(n: SynthInput) -> ValueKind {
    match n {
        SynthInput::Literal(_) => ValueKind::Literal,
        SynthInput::Node(_) => ValueKind::Node,
        SynthInput::Store(_) => ValueKind::Store,
        SynthInput::Parameter(_) => ValueKind::Parameter,
    }
}

/// The constant a result holds, or the type mismatch extracting one raises.
pub open spec fn spec_expect_constant(r: ResultV) -> Result<u32, ErrV> {
    match r {
        ResultV::Constant(f) => Ok(f),
        _ => Err(ErrV::TypeMismatch { expected: ValueKind::Constant, found: result_kind(r) }),
    }
}

/// The array a result holds, or the type mismatch extracting one raises.
pub open spec fn spec_expect_array(r: ResultV) -> Result<Seq<u32>, ErrV> {
    match r {
        ResultV::Array(v) => Ok(v),
        _ => Err(ErrV::TypeMismatch { expected: ValueKind::Array, found: result_kind(r) }),
    }
}

/// Coercion to a graph input: a constant wraps as a literal, any graph
/// handle passes through, an array always fails.
pub open spec fn spec_to_input(r: ResultV) -> Result<SynthInput, ErrV> {
    match r {
        ResultV::Constant(f) => Ok(SynthInput::Literal(f)),
        ResultV::SynthNode(n) => Ok(n),
        ResultV::Array(_) => Err(ErrV::TypeMismatch {
            expected: ValueKind::Input,
            found: ValueKind::Array,
        }),
    }
}

/// The node reference a result holds; no other input variant coerces.
pub open spec fn spec_expect_node_id(r: ResultV) -> Result<NodeId, ErrV> {
    match r {
        ResultV::SynthNode(SynthInput::Node(id)) => Ok(id),
        ResultV::SynthNode(n) => Err(ErrV::TypeMismatch {
            expected: ValueKind::Node,
            found: input_kind(n),
        }),
        _ => Err(ErrV::TypeMismatch { expected: ValueKind::Node, found: result_kind(r) }),
    }
}

/// The store reference a result holds; no other input variant coerces.
pub open spec fn spec_expect_store_id(r: ResultV) -> Result<StoreId, ErrV> {
    match r {
        ResultV::SynthNode(SynthInput::Store(id)) => Ok(id),
        ResultV::SynthNode(n) => Err(ErrV::TypeMismatch {
            expected: ValueKind::Store,
            found: input_kind(n),
        }),
        _ => Err(ErrV::TypeMismatch { expected: ValueKind::Store, found: result_kind(r) }),
    }
}

impl EvalResult {
    /// An equal result; arrays are copied element by element.
    pub fn duplicate(&self) -> (r: EvalResult)
        ensures
            result_view(r) == result_view(*self),
    {
        match self {
            EvalResult::Constant(f) => EvalResult::Constant(*f),
            EvalResult::SynthNode(n) => EvalResult::SynthNode(*n),
            EvalResult::Array(v) => {
                let mut out: Vec<u32> = Vec::new();
                let mut i: usize = 0;
                while i < v.len()
                    invariant
                        0 <= i <= v@.len(),
                        out@ == v@.subrange(0, i as int),
                    decreases v@.len() - i,
                {
                    out.push(v[i]);
                    proof {
                        assert(out@ =~= v@.subrange(0, i + 1));
                    }
                    i = i + 1;
                }
                proof {
                    assert(out@ =~= v@);
                }
                EvalResult::Array(out)
            },
        }
    }

    /// The constant this result holds, or a type mismatch naming what was
    /// found.
    pub fn expect_constant(self) -> (r: Result<u32, LispError>)
        ensures
            (match spec_expect_constant(result_view(self)) {
                Ok(f) => r matches Ok(g) && g == f,
                Err(e) => r matches Err(le) && le@ == e,
            }),
    {
        match self {
            EvalResult::Constant(f) => Ok(f),
            EvalResult::SynthNode(_) => Err(LispError::TypeMismatch {
                expected: ValueKind::Constant,
                found: ValueKind::Node,
            }),
            EvalResult::Array(_) => Err(LispError::TypeMismatch {
                expected: ValueKind::Constant,
                found: ValueKind::Array,
            }),
        }
    }

    /// The array this result holds, or a type mismatch naming what was
    /// found.
    pub fn expect_array(self) -> (r: Result<Vec<u32>, LispError>)
        ensures
            (match spec_expect_array(result_view(self)) {
                Ok(v) => r matches Ok(w) && w@ == v,
                Err(e) => r matches Err(le) && le@ == e,
            }),
    {
        match self {
            EvalResult::Array(v) => Ok(v),
            EvalResult::Constant(_) => Err(LispError::TypeMismatch {
                expected: ValueKind::Array,
                found: ValueKind::Constant,
            }),
            EvalResult::SynthNode(_) => Err(LispError::TypeMismatch {
                expected: ValueKind::Array,
                found: ValueKind::Node,
            }),
        }
    }

    /// This result as a graph input, or a type mismatch naming what was
    /// found.
    pub fn to_input(self) -> (r: Result<SynthInput, LispError>)
        ensures
            (match spec_to_input(result_view(self)) {
                Ok(n) => r matches Ok(m) && m == n,
                Err(e) => r matches Err(le) && le@ == e,
            }),
    {
        match self {
            EvalResult::Constant(f) => Ok(SynthInput::Literal(f)),
            EvalResult::SynthNode(n) => Ok(n),
            EvalResult::Array(_) => Err(LispError::TypeMismatch {
                expected: ValueKind::Input,
                found: ValueKind::Array,
            }),
        }
    }

    /// The node reference this result holds, or a type mismatch naming what
    /// was found.
    pub fn expect_node_id(self) -> (r: Result<NodeId, LispError>)
        ensures
            (match spec_expect_node_id(result_view(self)) {
                Ok(id) => r matches Ok(j) && j == id,
                Err(e) => r matches Err(le) && le@ == e,
            }),
    {
        match self {
            EvalResult::Constant(_) => Err(LispError::TypeMismatch {
                expected: ValueKind::Node,
                found: ValueKind::Constant,
            }),
            EvalResult::Array(_) => Err(LispError::TypeMismatch {
                expected: ValueKind::Node,
                found: ValueKind::Array,
            }),
            EvalResult::SynthNode(n) => match n {
                SynthInput::Node(id) => Ok(id),
                SynthInput::Literal(_) => Err(LispError::TypeMismatch {
                    expected: ValueKind::Node,
                    found: ValueKind::Literal,
                }),
                SynthInput::Store(_) => Err(LispError::TypeMismatch {
                    expected: ValueKind::Node,
                    found: ValueKind::Store,
                }),
                SynthInput::Parameter(_) => Err(LispError::TypeMismatch {
                    expected: ValueKind::Node,
                    found: ValueKind::Parameter,
                }),
            },
        }
    }

    /// The store reference this result holds, or a type mismatch naming
    /// what was found.
    pub fn expect_store_id(self) -> (r: Result<StoreId, LispError>)
        ensures
            (match spec_expect_store_id(result_view(self)) {
                Ok(id) => r matches Ok(j) && j == id,
                Err(e) => r matches Err(le) && le@ == e,
            }),
    {
        match self {
            EvalResult::Constant(_) => Err(LispError::TypeMismatch {
                expected: ValueKind::Store,
                found: ValueKind::Constant,
            }),
            EvalResult::Array(_) => Err(LispError::TypeMismatch {
                expected: ValueKind::Store,
                found: ValueKind::Array,
            }),
            EvalResult::SynthNode(n) => match n {
                SynthInput::Store(id) => Ok(id),
                SynthInput::Literal(_) => Err(LispError::TypeMismatch {
                    expected: ValueKind::Store,
                    found: ValueKind::Literal,
                }),
                SynthInput::Node(_) => Err(LispError::TypeMismatch {
                    expected: ValueKind::Store,
                    found: ValueKind::Node,
                }),
                SynthInput::Parameter(_) => Err(LispError::TypeMismatch {
                    expected: ValueKind::Store,
                    found: ValueKind::Parameter,
                }),
            },
        }
    }
}

/// One of the three variadic arithmetic operators.
#[derive(Copy, Clone, Debug, PartialEq, Eq, Structural)]
pub enum ArithOp {
    Mul,
    Add,
    Sub,
}

/// The single-precision result of one operator application, on bits.
pub open spec fn apply_op(op: ArithOp, a: u32, b: u32) -> u32 {
    match op {
        ArithOp::Mul => mul_bits(a, b),
        ArithOp::Add => add_bits(a, b),
        ArithOp::Sub => sub_bits(a, b),
    }
}

/// The arithmetic node one operator application builds.
pub open spec fn op_node(op: ArithOp, a: SynthInput, b: SynthInput) -> NodeKind {
    match op {
        ArithOp::Mul => NodeKind::Multiply(a, b),
        ArithOp::Add => NodeKind::Add(a, b),
        ArithOp::Sub => NodeKind::Sub(a, b),
    }
}

/// Left-to-right constant folding over number literals, from the given
/// accumulator. All three operators start from the same accumulator value
/// of `1.0`, as the builtin table prescribes.
pub open spec fn fold_nums(op: ArithOp, elems: Seq<SExprV>, acc: u32) -> u32
    decreases elems.len(),
{
    if elems.len() == 0 {
        acc
    } else {
        let x = match elems[0] {
            SExprV::Num(b) => b,
            _ => 0,
        };
        fold_nums(op, elems.drop_first(), apply_op(op, acc, x))
    }
}

/// The evaluation state the interpreter threads: the graph built so far,
/// the binding environment in binding order, and the key-input descriptor.
pub struct EStateV {
    pub graph: GraphV,
    pub env: Seq<(Seq<char>, ResultV)>,
    pub key: KeyInput,
}

/// The state evaluation starts from.
pub open spec fn init_state() -> EStateV {
    EStateV { graph: empty_graph(), env: Seq::empty(), key: KeyInput::NoInput }
}

/// The binding a name carries: the latest binding wins.
pub open spec fn spec_lookup(env: Seq<(Seq<char>, ResultV)>, name: Seq<char>) -> Option<ResultV>
    decreases env.len(),
{
    if env.len() == 0 {
        Option::None
    } else if env.last().0 == name {
        Option::Some(env.last().1)
    } else {
        spec_lookup(env.drop_last(), name)
    }
}

/// A graph with one more node.
pub open spec fn graph_add_node(g: GraphV, k: NodeKind) -> GraphV {
    GraphV { nodes: g.nodes.push(k), ..g }
}

/// A graph with one more buffer.
pub open spec fn graph_add_buffer(g: GraphV, b: BufferV) -> GraphV {
    GraphV { buffers: g.buffers.push(b), ..g }
}

/// One expression evaluated: the new state and the result, or the error
/// that aborts the compile.
pub open spec fn spec_eval_expr(rate: u32, st: EStateV, e: SExprV) -> Result<
    (EStateV, ResultV),
    ErrV,
>
    decreases vsize(e), 0int,
    via spec_eval_expr_decreases
{
    match e {
        SExprV::Num(n) => Ok((st, ResultV::Constant(n))),
        SExprV::Ident(i) => match spec_lookup(st.env, i) {
            Option::Some(v) => Ok((st, v)),
            Option::None => Err(ErrV::UnknownIdentifier { name: i }),
        },
        SExprV::List(l) => if l.len() == 0 {
            Err(ErrV::EmptyList)
        } else {
            match spec_expect_ident(l[0]) {
                Err(e2) => Err(e2),
                Ok(nm) => spec_exec_function(rate, st, nm, l.drop_first()),
            }
        },
        SExprV::Arr(v) => match spec_eval_array(rate, st, v) {
            Err(e2) => Err(e2),
            Ok((st1, vals)) => Ok((st1, ResultV::Array(vals))),
        },
    }
}

/// One expression evaluated and coerced to a graph input.
pub open spec fn spec_eval_input(rate: u32, st: EStateV, e: SExprV) -> Result<
    (EStateV, SynthInput),
    ErrV,
>
    decreases vsize(e), 1int,
{
    match spec_eval_expr(rate, st, e) {
        Err(e2) => Err(e2),
        Ok((st1, v)) => match spec_to_input(v) {
            Err(e2) => Err(e2),
            Ok(n) => Ok((st1, n)),
        },
    }
}

/// One expression evaluated and required to be a constant.
pub open spec fn spec_eval_const(rate: u32, st: EStateV, e: SExprV) -> Result<(EStateV, u32), ErrV>
    decreases vsize(e), 1int,
{
    match spec_eval_expr(rate, st, e) {
        Err(e2) => Err(e2),
        Ok((st1, v)) => match spec_expect_constant(v) {
            Err(e2) => Err(e2),
            Ok(c) => Ok((st1, c)),
        },
    }
}

/// Array elements evaluated left to right, each required to reduce to a
/// constant.
pub open spec fn spec_eval_array(rate: u32, st: EStateV, elems: Seq<SExprV>) -> Result<
    (EStateV, Seq<u32>),
    ErrV,
>
    decreases vsize_seq(elems), 2int,
    via spec_eval_array_decreases
{
    if elems.len() == 0 {
        Ok((st, Seq::empty()))
    } else {
        match spec_eval_const(rate, st, elems[0]) {
            Err(e2) => Err(e2),
            Ok((st1, c)) => match spec_eval_array(rate, st1, elems.drop_first()) {
                Err(e2) => Err(e2),
                Ok((st2, rest)) => Ok((st2, seq![c] + rest)),
            },
        }
    }
}

/// The remaining operands of a variadic operator folded left to right, one
/// binary arithmetic node per operand, no associativity reordering.
pub open spec fn spec_fold_chain(
    rate: u32,
    op: ArithOp,
    st: EStateV,
    elems: Seq<SExprV>,
    acc: SynthInput,
) -> Result<(EStateV, SynthInput), ErrV>
    decreases vsize_seq(elems), 2int,
    via spec_fold_chain_decreases
{
    if elems.len() == 0 {
        Ok((st, acc))
    } else {
        match spec_eval_input(rate, st, elems[0]) {
            Err(e2) => Err(e2),
            Ok((st1, x)) => {
                let id = NodeId(st1.graph.nodes.len() as usize);
                let st2 = EStateV { graph: graph_add_node(st1.graph, op_node(op, acc, x)), ..st1 };
                spec_fold_chain(rate, op, st2, elems.drop_first(), SynthInput::Node(id))
            },
        }
    }
}


/// The variadic arithmetic operator a name denotes.
pub open spec fn spec_op_of(name: Seq<char>) -> ArithOp {
    if name == "*"@ {
        ArithOp::Mul
    } else if name == "+"@ {
        ArithOp::Add
    } else {
        ArithOp::Sub
    }
}

/// A variadic arithmetic call: at least two operands; an all-literal
/// operand list folds to one constant from the shared accumulator `1.0`,
/// any other folds left to right into binary arithmetic nodes.
pub open spec fn spec_call_arith(rate: u32, st: EStateV, name: Seq<char>, args: Seq<SExprV>) -> Result<
    (EStateV, ResultV),
    ErrV,
>
    decreases vsize_seq(args), 2int,
    via spec_call_arith_decreases
{
    let op = spec_op_of(name);
    if args.len() < 2 {
        Err(ErrV::Arity { name, required: 2, received: args.len() as nat, at_least: true })
    } else if spec_all_numbers(args) {
        Ok((st, ResultV::Constant(fold_nums(op, args, ONE_BITS))))
    } else {
        match spec_eval_input(rate, st, args[0]) {
            Err(e2) => Err(e2),
            Ok((st1, first)) => match spec_fold_chain(rate, op, st1, args.drop_first(), first) {
                Err(e2) => Err(e2),
                Ok((st2, input)) => Ok((st2, ResultV::SynthNode(input))),
            },
        }
    }
}

/// A ternary crossfade call: three graph inputs, one mix node.
pub open spec fn spec_call_mix(rate: u32, st: EStateV, name: Seq<char>, args: Seq<SExprV>) -> Result<
    (EStateV, ResultV),
    ErrV,
>
    decreases vsize_seq(args), 2int,
    via spec_call_mix_decreases
{
    if args.len() != 3 {
        Err(ErrV::Arity { name, required: 3, received: args.len() as nat, at_least: false })
    } else {
        match spec_eval_input(rate, st, args[0]) {
            Err(e2) => Err(e2),
            Ok((st1, a)) => match spec_eval_input(rate, st1, args[1]) {
                Err(e2) => Err(e2),
                Ok((st2, b)) => match spec_eval_input(rate, st2, args[2]) {
                    Err(e2) => Err(e2),
                    Ok((st3, m)) => {
                        let id = NodeId(st3.graph.nodes.len() as usize);
                        Ok(
                            (
                                EStateV {
                                    graph: graph_add_node(
                                        st3.graph,
                                        NodeKind::Mix { a, b, amount: m },
                                    ),
                                    ..st3
                                },
                                ResultV::SynthNode(SynthInput::Node(id)),
                            ),
                        )
                    },
                },
            },
        }
    }
}

/// The oscillator node a name denotes, over a frequency input.
pub open spec fn spec_osc_node(name: Seq<char>, freq: SynthInput) -> NodeKind {
    if name == "sin"@ || name == "sine"@ {
        NodeKind::Sine(freq)
    } else if name == "tri"@ || name == "triangle"@ {
        NodeKind::Triangle(freq)
    } else if name == "sqr"@ || name == "square"@ {
        NodeKind::Square(freq)
    } else {
        NodeKind::Saw(freq)
    }
}

/// A unary oscillator call: one frequency input, one oscillator node.
pub open spec fn spec_call_osc(rate: u32, st: EStateV, name: Seq<char>, args: Seq<SExprV>) -> Result<
    (EStateV, ResultV),
    ErrV,
>
    decreases vsize_seq(args), 2int,
    via spec_call_osc_decreases
{
    if args.len() != 1 {
        Err(ErrV::Arity { name, required: 1, received: args.len() as nat, at_least: false })
    } else {
        match spec_eval_input(rate, st, args[0]) {
            Err(e2) => Err(e2),
            Ok((st1, freq)) => {
                let id = NodeId(st1.graph.nodes.len() as usize);
                Ok(
                    (
                        EStateV { graph: graph_add_node(st1.graph, spec_osc_node(name, freq)), ..st1 },
                        ResultV::SynthNode(SynthInput::Node(id)),
                    ),
                )
            },
        }
    }
}

/// The filter node a name denotes, over cutoff and input.
pub open spec fn spec_filter_node(name: Seq<char>, input: SynthInput, cutoff: SynthInput) -> NodeKind {
    if name == "lp"@ || name == "lowpass"@ {
        NodeKind::Lowpass { input, cutoff }
    } else {
        NodeKind::Highpass { input, cutoff }
    }
}

/// A filter call: cutoff then input, both graph inputs, one filter node.
pub open spec fn spec_call_filter(rate: u32, st: EStateV, name: Seq<char>, args: Seq<SExprV>) -> Result<
    (EStateV, ResultV),
    ErrV,
>
    decreases vsize_seq(args), 2int,
    via spec_call_filter_decreases
{
    if args.len() != 2 {
        Err(ErrV::Arity { name, required: 2, received: args.len() as nat, at_least: false })
    } else {
        match spec_eval_input(rate, st, args[0]) {
            Err(e2) => Err(e2),
            Ok((st1, cutoff)) => match spec_eval_input(rate, st1, args[1]) {
                Err(e2) => Err(e2),
                Ok((st2, input)) => {
                    let id = NodeId(st2.graph.nodes.len() as usize);
                    Ok(
                        (
                            EStateV {
                                graph: graph_add_node(
                                    st2.graph,
                                    spec_filter_node(name, input, cutoff),
                                ),
                                ..st2
                            },
                            ResultV::SynthNode(SynthInput::Node(id)),
                        ),
                    )
                },
            },
        }
    }
}

/// An attack/release envelope call: two constants and a gate input.
pub open spec fn spec_call_ar(rate: u32, st: EStateV, name: Seq<char>, args: Seq<SExprV>) -> Result<
    (EStateV, ResultV),
    ErrV,
>
    decreases vsize_seq(args), 2int,
    via spec_call_ar_decreases
{
    if args.len() != 3 {
        Err(ErrV::Arity { name, required: 3, received: args.len() as nat, at_least: false })
    } else {
        match spec_eval_const(rate, st, args[0]) {
            Err(e2) => Err(e2),
            Ok((st1, attack)) => match spec_eval_const(rate, st1, args[1]) {
                Err(e2) => Err(e2),
                Ok((st2, release)) => match spec_eval_input(rate, st2, args[2]) {
                    Err(e2) => Err(e2),
                    Ok((st3, gate)) => {
                        let id = NodeId(st3.graph.nodes.len() as usize);
                        Ok(
                            (
                                EStateV {
                                    graph: graph_add_node(
                                        st3.graph,
                                        NodeKind::EnvAr { attack, release, gate },
                                    ),
                                    ..st3
                                },
                                ResultV::SynthNode(SynthInput::Node(id)),
                            ),
                        )
                    },
                },
            },
        }
    }
}

/// A four-stage envelope call: four constants and a gate input.
pub open spec fn spec_call_adsr(rate: u32, st: EStateV, name: Seq<char>, args: Seq<SExprV>) -> Result<
    (EStateV, ResultV),
    ErrV,
>
    decreases vsize_seq(args), 2int,
    via spec_call_adsr_decreases
{
    if args.len() != 5 {
        Err(ErrV::Arity { name, required: 5, received: args.len() as nat, at_least: false })
    } else {
        match spec_eval_const(rate, st, args[0]) {
            Err(e2) => Err(e2),
            Ok((st1, attack)) => match spec_eval_const(rate, st1, args[1]) {
                Err(e2) => Err(e2),
                Ok((st2, decay)) => match spec_eval_const(rate, st2, args[2]) {
                    Err(e2) => Err(e2),
                    Ok((st3, sustain)) => match spec_eval_const(rate, st3, args[3]) {
                        Err(e2) => Err(e2),
                        Ok((st4, release)) => match spec_eval_input(rate, st4, args[4]) {
                            Err(e2) => Err(e2),
                            Ok((st5, gate)) => {
                                let id = NodeId(st5.graph.nodes.len() as usize);
                                Ok(
                                    (
                                        EStateV {
                                            graph: graph_add_node(
                                                st5.graph,
                                                NodeKind::EnvAdsr {
                                                    attack,
                                                    decay,
                                                    sustain,
                                                    release,
                                                    gate,
                                                },
                                            ),
                                            ..st5
                                        },
                                        ResultV::SynthNode(SynthInput::Node(id)),
                                    ),
                                )
                            },
                        },
                    },
                },
            },
        }
    }
}

/// The clamp call: the builtin table checks for exactly two arguments yet
/// reads three values, so a call that passes the check still cannot be
/// completed; after its two arguments are evaluated the missing third is
/// reported, and no clamp node is ever built.
pub open spec fn spec_call_clamp(rate: u32, st: EStateV, name: Seq<char>, args: Seq<SExprV>) -> Result<
    (EStateV, ResultV),
    ErrV,
>
    decreases vsize_seq(args), 2int,
    via spec_call_clamp_decreases
{
    if args.len() != 2 {
        Err(ErrV::Arity { name, required: 2, received: args.len() as nat, at_least: false })
    } else {
        match spec_eval_input(rate, st, args[0]) {
            Err(e2) => Err(e2),
            Ok((st1, _input)) => match spec_eval_input(rate, st1, args[1]) {
                Err(e2) => Err(e2),
                Ok((st2, _lower)) => Err(ErrV::Arity {
                    name,
                    required: 3,
                    received: args.len() as nat,
                    at_least: false,
                }),
            },
        }
    }
}

/// A sequencer call: an array of constants materialized as a data buffer,
/// an advance trigger, and an optional reset trigger defaulting to the
/// literal `1.0`.
pub open spec fn spec_call_sequencer(rate: u32, st: EStateV, name: Seq<char>, args: Seq<SExprV>) -> Result<
    (EStateV, ResultV),
    ErrV,
>
    decreases vsize_seq(args), 2int,
    via spec_call_sequencer_decreases
{
    if args.len() < 2 {
        Err(ErrV::Arity { name, required: 2, received: args.len() as nat, at_least: true })
    } else {
        match spec_eval_expr(rate, st, args[0]) {
            Err(e2) => Err(e2),
            Ok((st1, v)) => match spec_expect_array(v) {
                Err(e2) => Err(e2),
                Ok(data) => match spec_eval_input(rate, st1, args[1]) {
                    Err(e2) => Err(e2),
                    Ok((st2, advance)) => {
                        let reset_step: Result<(EStateV, SynthInput), ErrV> = if args.len() > 2 {
                            spec_eval_input(rate, st2, args[2])
                        } else {
                            Ok((st2, SynthInput::Literal(ONE_BITS)))
                        };
                        match reset_step {
                            Err(e2) => Err(e2),
                            Ok((st3, reset)) => {
                                let bid = BufferId(st3.graph.buffers.len() as usize);
                                let g1 = graph_add_buffer(st3.graph, BufferV::Data(data));
                                let id = NodeId(g1.nodes.len() as usize);
                                Ok(
                                    (
                                        EStateV {
                                            graph: graph_add_node(
                                                g1,
                                                NodeKind::Sequencer { buffer: bid, advance, reset },
                                            ),
                                            ..st3
                                        },
                                        ResultV::SynthNode(SynthInput::Node(id)),
                                    ),
                                )
                            },
                        }
                    },
                },
            },
        }
    }
}

/// A bake call: a constant duration in seconds, multiplied by the sample
/// rate and truncated to a sample count that must not be zero; the rest is
/// a fresh nested program whose graph is rendered offline into a buffer of
/// that length, read by a sampler node from time zero.
pub open spec fn spec_call_bake(rate: u32, st: EStateV, name: Seq<char>, args: Seq<SExprV>) -> Result<
    (EStateV, ResultV),
    ErrV,
>
    decreases vsize_seq(args), 2int,
    via spec_call_bake_decreases
{
    if args.len() < 2 {
        Err(ErrV::Arity { name, required: 2, received: args.len() as nat, at_least: true })
    } else {
        match spec_eval_const(rate, st, args[0]) {
            Err(e2) => Err(e2),
            Ok((st1, seconds)) => {
                let samples = trunc_usize_bits(mul_bits(seconds, rate));
                if samples == 0 {
                    Err(ErrV::ZeroLengthBake)
                } else {
                    match spec_eval_program(rate, args.drop_first(), init_state()) {
                        Err(e2) => Err(e2),
                        Ok(sub) => {
                            let bid = BufferId(st1.graph.buffers.len() as usize);
                            let g1 = graph_add_buffer(
                                st1.graph,
                                BufferV::Rendered { len: samples as nat, source: sub.graph },
                            );
                            let id = NodeId(g1.nodes.len() as usize);
                            Ok(
                                (
                                    EStateV {
                                        graph: graph_add_node(
                                            g1,
                                            NodeKind::Sampler { buffer: bid, start: ZERO_BITS },
                                        ),
                                        ..st1
                                    },
                                    ResultV::SynthNode(SynthInput::Node(id)),
                                ),
                            )
                        },
                    }
                }
            },
        }
    }
}

/// A key-freq call: idempotently materializes the frequency parameter slot
/// of the Mono key-input descriptor, establishing Mono key input first if
/// none is set.
pub open spec fn spec_call_key_freq(st: EStateV, name: Seq<char>, args: Seq<SExprV>) -> Result<
    (EStateV, ResultV),
    ErrV,
> {
    if args.len() != 0 {
        Err(ErrV::Arity { name, required: 0, received: args.len() as nat, at_least: false })
    } else {
        match st.key {
            KeyInput::Mono { freq: Option::Some(p), vel } => Ok(
                (st, ResultV::SynthNode(SynthInput::Parameter(p))),
            ),
            KeyInput::Mono { freq: Option::None, vel } => {
                let p = ParameterId(st.graph.params.len() as usize);
                let st1 = EStateV {
                    graph: GraphV { params: st.graph.params.push(ZERO_BITS), ..st.graph },
                    key: KeyInput::Mono { freq: Option::Some(p), vel },
                    ..st
                };
                Ok((st1, ResultV::SynthNode(SynthInput::Parameter(p))))
            },
            KeyInput::NoInput => {
                let p = ParameterId(st.graph.params.len() as usize);
                let st1 = EStateV {
                    graph: GraphV { params: st.graph.params.push(ZERO_BITS), ..st.graph },
                    key: KeyInput::Mono { freq: Option::Some(p), vel: Option::None },
                    ..st
                };
                Ok((st1, ResultV::SynthNode(SynthInput::Parameter(p))))
            },
        }
    }
}

/// A key-vel call: idempotently materializes the velocity parameter slot of
/// the Mono key-input descriptor, establishing Mono key input first if none
/// is set.
pub open spec fn spec_call_key_vel(st: EStateV, name: Seq<char>, args: Seq<SExprV>) -> Result<
    (EStateV, ResultV),
    ErrV,
> {
    if args.len() != 0 {
        Err(ErrV::Arity { name, required: 0, received: args.len() as nat, at_least: false })
    } else {
        match st.key {
            KeyInput::Mono { vel: Option::Some(p), freq } => Ok(
                (st, ResultV::SynthNode(SynthInput::Parameter(p))),
            ),
            KeyInput::Mono { vel: Option::None, freq } => {
                let p = ParameterId(st.graph.params.len() as usize);
                let st1 = EStateV {
                    graph: GraphV { params: st.graph.params.push(ZERO_BITS), ..st.graph },
                    key: KeyInput::Mono { vel: Option::Some(p), freq },
                    ..st
                };
                Ok((st1, ResultV::SynthNode(SynthInput::Parameter(p))))
            },
            KeyInput::NoInput => {
                let p = ParameterId(st.graph.params.len() as usize);
                let st1 = EStateV {
                    graph: GraphV { params: st.graph.params.push(ZERO_BITS), ..st.graph },
                    key: KeyInput::Mono { vel: Option::Some(p), freq: Option::None },
                    ..st
                };
                Ok((st1, ResultV::SynthNode(SynthInput::Parameter(p))))
            },
        }
    }
}

/// The polyphonic call: its arity is checked, then it always fails as
/// explicitly unimplemented.
pub open spec fn spec_call_polyphonic(name: Seq<char>, args: Seq<SExprV>) -> Result<
    (EStateV, ResultV),
    ErrV,
> {
    if args.len() < 2 {
        Err(ErrV::Arity { name, required: 2, received: args.len() as nat, at_least: true })
    } else {
        Err(ErrV::Unimplemented)
    }
}

/// A builtin function call, dispatched by name into the builtin table.
pub open spec fn spec_exec_function(rate: u32, st: EStateV, name: Seq<char>, args: Seq<SExprV>) -> Result<
    (EStateV, ResultV),
    ErrV,
>
    decreases vsize_seq(args), 3int,
{
    if name == "*"@ || name == "+"@ || name == "-"@ {
        spec_call_arith(rate, st, name, args)
    } else if name == "mix"@ {
        spec_call_mix(rate, st, name, args)
    } else if name == "sin"@ || name == "sine"@ || name == "tri"@ || name == "triangle"@ || name
        == "sqr"@ || name == "square"@ || name == "saw"@ || name == "sawtooth"@ {
        spec_call_osc(rate, st, name, args)
    } else if name == "lp"@ || name == "lowpass"@ || name == "hp"@ || name == "highpass"@ {
        spec_call_filter(rate, st, name, args)
    } else if name == "ar"@ || name == "env-ar"@ {
        spec_call_ar(rate, st, name, args)
    } else if name == "adsr"@ || name == "env-adsr"@ {
        spec_call_adsr(rate, st, name, args)
    } else if name == "clamp"@ {
        spec_call_clamp(rate, st, name, args)
    } else if name == "sequencer"@ {
        spec_call_sequencer(rate, st, name, args)
    } else if name == "bake"@ {
        spec_call_bake(rate, st, name, args)
    } else if name == "key-freq"@ {
        spec_call_key_freq(st, name, args)
    } else if name == "key-vel"@ {
        spec_call_key_vel(st, name, args)
    } else if name == "polyphonic"@ {
        spec_call_polyphonic(name, args)
    } else {
        Err(ErrV::UnknownFunction { name })
    }
}

/// A `let` form: binds the evaluated expression under the identifier.
pub open spec fn spec_form_let(rate: u32, st: EStateV, name: Seq<char>, args: Seq<SExprV>) -> Result<
    EStateV,
    ErrV,
>
    decreases vsize_seq(args), 2int,
    via spec_form_let_decreases
{
    if args.len() != 2 {
        Err(ErrV::Arity { name, required: 2, received: args.len() as nat, at_least: false })
    } else {
        match spec_expect_ident(args[0]) {
            Err(e2) => Err(e2),
            Ok(ident) => match spec_eval_expr(rate, st, args[1]) {
                Err(e2) => Err(e2),
                Ok((st1, v)) => Ok(EStateV { env: st1.env.push((ident, v)), ..st1 }),
            },
        }
    }
}

/// A `gain` form: sets the graph's master gain to a constant.
pub open spec fn spec_form_gain(rate: u32, st: EStateV, name: Seq<char>, args: Seq<SExprV>) -> Result<
    EStateV,
    ErrV,
>
    decreases vsize_seq(args), 2int,
    via spec_form_gain_decreases
{
    if args.len() != 1 {
        Err(ErrV::Arity { name, required: 1, received: args.len() as nat, at_least: false })
    } else {
        match spec_eval_const(rate, st, args[0]) {
            Err(e2) => Err(e2),
            Ok((st1, c)) => Ok(
                EStateV { graph: GraphV { gain: Option::Some(c), ..st1.graph }, ..st1 },
            ),
        }
    }
}

/// An `output` form: designates the final audio-producing node.
pub open spec fn spec_form_output(rate: u32, st: EStateV, name: Seq<char>, args: Seq<SExprV>) -> Result<
    EStateV,
    ErrV,
>
    decreases vsize_seq(args), 2int,
    via spec_form_output_decreases
{
    if args.len() != 1 {
        Err(ErrV::Arity { name, required: 1, received: args.len() as nat, at_least: false })
    } else {
        match spec_eval_expr(rate, st, args[0]) {
            Err(e2) => Err(e2),
            Ok((st1, v)) => match spec_expect_node_id(v) {
                Err(e2) => Err(e2),
                Ok(id) => Ok(
                    EStateV { graph: GraphV { output: Option::Some(id), ..st1.graph }, ..st1 },
                ),
            },
        }
    }
}

/// A `def-store` form: allocates a fresh value cell and binds the
/// identifier to its reference.
pub open spec fn spec_form_def_store(st: EStateV, name: Seq<char>, args: Seq<SExprV>) -> Result<
    EStateV,
    ErrV,
> {
    if args.len() != 1 {
        Err(ErrV::Arity { name, required: 1, received: args.len() as nat, at_least: false })
    } else {
        match spec_expect_ident(args[0]) {
            Err(e2) => Err(e2),
            Ok(ident) => {
                let sid = StoreId(st.graph.stores.len() as usize);
                Ok(
                    EStateV {
                        graph: GraphV { stores: st.graph.stores.push(ZERO_BITS), ..st.graph },
                        env: st.env.push((ident, ResultV::SynthNode(SynthInput::Store(sid)))),
                        ..st
                    },
                )
            },
        }
    }
}

/// A `store` form: writes an evaluated input into a previously bound store.
pub open spec fn spec_form_store(rate: u32, st: EStateV, name: Seq<char>, args: Seq<SExprV>) -> Result<
    EStateV,
    ErrV,
>
    decreases vsize_seq(args), 2int,
    via spec_form_store_decreases
{
    if args.len() != 2 {
        Err(ErrV::Arity { name, required: 2, received: args.len() as nat, at_least: false })
    } else {
        match spec_eval_expr(rate, st, args[0]) {
            Err(e2) => Err(e2),
            Ok((st1, target)) => match spec_eval_expr(rate, st1, args[1]) {
                Err(e2) => Err(e2),
                Ok((st2, value)) => match spec_expect_store_id(target) {
                    Err(e2) => Err(e2),
                    Ok(sid) => match spec_to_input(value) {
                        Err(e2) => Err(e2),
                        Ok(inp) => Ok(
                            EStateV {
                                graph: GraphV {
                                    store_writes: st2.graph.store_writes.push((sid, inp)),
                                    ..st2.graph
                                },
                                ..st2
                            },
                        ),
                    },
                },
            },
        }
    }
}

/// One top-level form evaluated: `let`, `gain`, `output`, `def-store` and
/// `store` are special; any other leading identifier is a builtin call
/// whose result is discarded. Anything that is not a parenthesized list is
/// rejected.
pub open spec fn spec_eval_top_form(rate: u32, st: EStateV, e: SExprV) -> Result<EStateV, ErrV>
    decreases vsize(e), 3int,
    via spec_eval_top_form_decreases
{
    match e {
        SExprV::List(l) => if l.len() == 0 {
            Err(ErrV::EmptyList)
        } else {
            match spec_expect_ident(l[0]) {
                Err(e2) => Err(e2),
                Ok(nm) => {
                    let args = l.drop_first();
                    if nm == "let"@ {
                        spec_form_let(rate, st, nm, args)
                    } else if nm == "gain"@ {
                        spec_form_gain(rate, st, nm, args)
                    } else if nm == "output"@ {
                        spec_form_output(rate, st, nm, args)
                    } else if nm == "def-store"@ {
                        spec_form_def_store(st, nm, args)
                    } else if nm == "store"@ {
                        spec_form_store(rate, st, nm, args)
                    } else {
                        match spec_exec_function(rate, st, nm, args) {
                            Err(e2) => Err(e2),
                            Ok((st1, _)) => Ok(st1),
                        }
                    }
                },
            }
        },
        _ => Err(ErrV::UnexpectedTopLevel { found: shape_kind(e) }),
    }
}

/// A sequence of top-level forms evaluated in order against the running
/// state.
pub open spec fn spec_eval_program(rate: u32, exprs: Seq<SExprV>, st: EStateV) -> Result<
    EStateV,
    ErrV,
>
    decreases vsize_seq(exprs), 4int,
    via spec_eval_program_decreases
{
    if exprs.len() == 0 {
        Ok(st)
    } else {
        match spec_eval_top_form(rate, st, exprs[0]) {
            Err(e2) => Err(e2),
            Ok(st1) => spec_eval_program(rate, exprs.drop_first(), st1),
        }
    }
}

/// A whole program evaluated from the empty state: the finished graph and
/// the key-input descriptor, or the error that aborts the compile.
pub open spec fn spec_evaluate_top_level(rate: u32, exprs: Seq<SExprV>) -> Result<
    (GraphV, KeyInput),
    ErrV,
> {
    match spec_eval_program(rate, exprs, init_state()) {
        Err(e2) => Err(e2),
        Ok(st) => Ok((st.graph, st.key)),
    }
}


#[via_fn]
proof fn spec_eval_expr_decreases(rate: u32, st: EStateV, e: SExprV) {
    match e {
        SExprV::List(l) => {
            if l.len() > 0 {
                lemma_vsize_seq_subrange(l, 1, l.len() as int);
            }
        },
        _ => {},
    }
}

#[via_fn]
proof fn spec_eval_array_decreases(rate: u32, st: EStateV, elems: Seq<SExprV>) {
    if elems.len() > 0 {
        lemma_vsize_seq_le(elems, 0);
        lemma_vsize_pos(elems[0]);
    }
}

#[via_fn]
proof fn spec_fold_chain_decreases(
    rate: u32,
    op: ArithOp,
    st: EStateV,
    elems: Seq<SExprV>,
    acc: SynthInput,
) {
    if elems.len() > 0 {
        lemma_vsize_seq_le(elems, 0);
        lemma_vsize_pos(elems[0]);
    }
}

#[via_fn]
proof fn spec_call_arith_decreases(rate: u32, st: EStateV, name: Seq<char>, args: Seq<SExprV>) {
    if args.len() > 0 {
        lemma_vsize_seq_le(args, 0);
    }
    if args.len() > 0 {
        lemma_vsize_pos(args[0]);
    }
}

#[via_fn]
proof fn spec_call_mix_decreases(rate: u32, st: EStateV, name: Seq<char>, args: Seq<SExprV>) {
    if args.len() > 0 {
        lemma_vsize_seq_le(args, 0);
    }
    if args.len() > 1 {
        lemma_vsize_seq_le(args, 1);
    }
    if args.len() > 2 {
        lemma_vsize_seq_le(args, 2);
    }
}

#[via_fn]
proof fn spec_call_osc_decreases(rate: u32, st: EStateV, name: Seq<char>, args: Seq<SExprV>) {
    if args.len() > 0 {
        lemma_vsize_seq_le(args, 0);
    }
}

#[via_fn]
proof fn spec_call_filter_decreases(rate: u32, st: EStateV, name: Seq<char>, args: Seq<SExprV>) {
    if args.len() > 0 {
        lemma_vsize_seq_le(args, 0);
    }
    if args.len() > 1 {
        lemma_vsize_seq_le(args, 1);
    }
}

#[via_fn]
proof fn spec_call_ar_decreases(rate: u32, st: EStateV, name: Seq<char>, args: Seq<SExprV>) {
    if args.len() > 0 {
        lemma_vsize_seq_le(args, 0);
    }
    if args.len() > 1 {
        lemma_vsize_seq_le(args, 1);
    }
    if args.len() > 2 {
        lemma_vsize_seq_le(args, 2);
    }
}

#[via_fn]
proof fn spec_call_adsr_decreases(rate: u32, st: EStateV, name: Seq<char>, args: Seq<SExprV>) {
    if args.len() > 0 {
        lemma_vsize_seq_le(args, 0);
    }
    if args.len() > 1 {
        lemma_vsize_seq_le(args, 1);
    }
    if args.len() > 2 {
        lemma_vsize_seq_le(args, 2);
    }
    if args.len() > 3 {
        lemma_vsize_seq_le(args, 3);
    }
    if args.len() > 4 {
        lemma_vsize_seq_le(args, 4);
    }
}

#[via_fn]
proof fn spec_call_clamp_decreases(rate: u32, st: EStateV, name: Seq<char>, args: Seq<SExprV>) {
    if args.len() > 0 {
        lemma_vsize_seq_le(args, 0);
    }
    if args.len() > 1 {
        lemma_vsize_seq_le(args, 1);
    }
}

#[via_fn]
proof fn spec_call_sequencer_decreases(rate: u32, st: EStateV, name: Seq<char>, args: Seq<SExprV>) {
    if args.len() > 0 {
        lemma_vsize_seq_le(args, 0);
    }
    if args.len() > 1 {
        lemma_vsize_seq_le(args, 1);
    }
    if args.len() > 2 {
        lemma_vsize_seq_le(args, 2);
    }
}

#[via_fn]
proof fn spec_call_bake_decreases(rate: u32, st: EStateV, name: Seq<char>, args: Seq<SExprV>) {
    if args.len() > 0 {
        lemma_vsize_seq_le(args, 0);
    }
    if args.len() > 0 {
        lemma_vsize_pos(args[0]);
    }
}

#[via_fn]
proof fn spec_form_let_decreases(rate: u32, st: EStateV, name: Seq<char>, args: Seq<SExprV>) {
    if args.len() > 0 {
        lemma_vsize_seq_le(args, 0);
    }
    if args.len() > 1 {
        lemma_vsize_seq_le(args, 1);
    }
}

#[via_fn]
proof fn spec_form_gain_decreases(rate: u32, st: EStateV, name: Seq<char>, args: Seq<SExprV>) {
    if args.len() > 0 {
        lemma_vsize_seq_le(args, 0);
    }
}

#[via_fn]
proof fn spec_form_output_decreases(rate: u32, st: EStateV, name: Seq<char>, args: Seq<SExprV>) {
    if args.len() > 0 {
        lemma_vsize_seq_le(args, 0);
    }
}

#[via_fn]
proof fn spec_form_store_decreases(rate: u32, st: EStateV, name: Seq<char>, args: Seq<SExprV>) {
    if args.len() > 0 {
        lemma_vsize_seq_le(args, 0);
    }
    if args.len() > 1 {
        lemma_vsize_seq_le(args, 1);
    }
}

#[via_fn]
proof fn spec_eval_top_form_decreases(rate: u32, st: EStateV, e: SExprV) {
    match e {
        SExprV::List(l) => {
            if l.len() > 0 {
                lemma_vsize_seq_subrange(l, 1, l.len() as int);
            }
        },
        _ => {},
    }
}

#[via_fn]
proof fn spec_eval_program_decreases(rate: u32, exprs: Seq<SExprV>, st: EStateV) {
    if exprs.len() > 0 {
        lemma_vsize_seq_le(exprs, 0);
        lemma_vsize_pos(exprs[0]);
    }
}

/// Whether two strings hold the same characters.
fn str_eq_str(a: &str, b: &str) -> (r: bool)
    ensures
        r == (a@ == b@),
{
    let la = a.unicode_len();
    let lb = b.unicode_len();
    if la != lb {
        return false;
    }
    let mut i: usize = 0;
    while i < la
        invariant
            0 <= i <= la,
            la == a@.len(),
            la == b@.len(),
            forall|j: int| 0 <= j < i ==> a@[j] == b@[j],
        decreases la - i,
    {
        if a.get_char(i) != b.get_char(i) {
            return false;
        }
        i = i + 1;
    }
    proof {
        assert(a@ =~= b@);
    }
    true
}

/// The single-precision result of one operator application, on bits.
fn exec_apply_op(op: ArithOp, a: u32, b: u32) -> (r: u32)
    ensures
        r == apply_op(op, a, b),
{
    match op {
        ArithOp::Mul => num_mul(a, b),
        ArithOp::Add => num_add(a, b),
        ArithOp::Sub => num_sub(a, b),
    }
}

/// The arithmetic node one operator application builds.
fn exec_op_node(op: ArithOp, a: SynthInput, b: SynthInput) -> (r: NodeKind)
    ensures
        r == op_node(op, a, b),
{
    match op {
        ArithOp::Mul => NodeKind::Multiply(a, b),
        ArithOp::Add => NodeKind::Add(a, b),
        ArithOp::Sub => NodeKind::Sub(a, b),
    }
}

/// The shape of the binding environment: names as character sequences,
/// latest binding last.
pub open spec fn env_view(s: Seq<(&str, EvalResult)>) -> Seq<(Seq<char>, ResultV)> {
    Seq::new(s.len(), |i: int| (s[i].0@, result_view(s[i].1)))
}

/// Appending one binding appends its shape.
proof fn lemma_env_push(s: Seq<(&str, EvalResult)>, k: &str, v: EvalResult)
    ensures
        env_view(s.push((k, v))) == env_view(s).push((k@, result_view(v))),
{
    assert(env_view(s.push((k, v))) =~= env_view(s).push((k@, result_view(v))));
}

/// The walking state of one compile: the graph being built, the binding
/// environment, the key-input descriptor, and the sample rate `bake` uses.
struct EvaluationContext<'a> {
    synth: SynthGraph,
    let_bindings: Vec<(&'a str, EvalResult)>,
    key_input: KeyInput,
    sample_rate: u32,
}

/// The interpreter state a context stands at.
spec fn state_view(ctx: EvaluationContext) -> EStateV {
    EStateV { graph: ctx.synth@, env: env_view(ctx.let_bindings@), key: ctx.key_input }
}

impl<'a> EvaluationContext<'a> {
    /// A fresh context over an empty graph and environment.
    fn new(sample_rate: u32) -> (r: Self)
        ensures
            state_view(r) == init_state(),
            r.sample_rate == sample_rate,
    {
        let r = EvaluationContext {
            synth: SynthGraph::new(),
            let_bindings: Vec::new(),
            key_input: KeyInput::NoInput,
            sample_rate,
        };
        proof {
            assert(env_view(r.let_bindings@) =~= Seq::<(Seq<char>, ResultV)>::empty());
            assert(state_view(r) == init_state());
        }
        r
    }

    /// The value bound to a name, the latest binding winning, or the
    /// unknown-identifier error naming it.
    fn lookup(&self, name: &'a str) -> (r: Result<EvalResult, LispError>)
        ensures
            (match spec_lookup(state_view(*self).env, name@) {
                Option::Some(v) => r matches Ok(res) && result_view(res) == v,
                Option::None => r matches Err(le) && le@ == (ErrV::UnknownIdentifier {
                    name: name@,
                }),
            }),
    {
        let ghost env = env_view(self.let_bindings@);
        let mut i: usize = self.let_bindings.len();
        proof {
            assert(env.take(self.let_bindings@.len() as int) =~= env);
        }
        while i > 0
            invariant
                i <= self.let_bindings@.len(),
                env == env_view(self.let_bindings@),
                spec_lookup(env, name@) == spec_lookup(env.take(i as int), name@),
            decreases i,
        {
            i = i - 1;
            let pair = &self.let_bindings[i];
            proof {
                assert(env.take(i + 1).last() == env[i as int]);
                assert(env.take(i + 1).drop_last() =~= env.take(i as int));
            }
            if str_eq_str(pair.0, name) {
                return Ok(pair.1.duplicate());
            }
        }
        proof {
            assert(env.take(0) =~= Seq::<(Seq<char>, ResultV)>::empty());
        }
        Err(LispError::UnknownIdentifier { name: name.to_owned() })
    }

    /// One expression evaluated against this context.
    fn evaluate_sexpr(&mut self, sexpr: SExpression<'a>) -> (r: Result<EvalResult, LispError>)
        ensures
            final(self).sample_rate == old(self).sample_rate,
            (match spec_eval_expr(old(self).sample_rate, state_view(*old(self)), view_sexpr(
                sexpr,
            )) {
                Ok((st1, v)) => r matches Ok(res) && result_view(res) == v && state_view(
                    *final(self),
                ) == st1,
                Err(er) => r matches Err(le) && le@ == er,
            }),
        decreases vsize(view_sexpr(sexpr)), 0int,
    {
        match sexpr {
            SExpression::Number(n) => Ok(EvalResult::Constant(n)),
            SExpression::Identifier(i) => self.lookup(i),
            SExpression::List(v) => {
                let mut v = v;
                let ghost lv = view_exprs(v@);
                proof {
                    lemma_view_exprs_len(v@);
                }
                if v.len() == 0 {
                    return Err(LispError::EmptyList);
                }
                let ghost vv = v@;
                proof {
                    lemma_view_exprs_index(vv, 0);
                    lemma_view_exprs_suffix(vv, 1);
                }
                let head = v.remove(0);
                proof {
                    assert(v@ =~= vv.subrange(1, vv.len() as int));
                    assert(view_exprs(v@) =~= lv.drop_first());
                    lemma_vsize_seq_subrange(lv, 1, lv.len() as int);
                }
                let func_name = match head.expect_ident() {
                    Ok(s) => s,
                    Err(e) => {
                        return Err(e);
                    },
                };
                self.execute_function(func_name, v)
            },
            SExpression::Array(v) => {
                let vals = match self.eval_array(v) {
                    Ok(vs) => vs,
                    Err(e) => {
                        return Err(e);
                    },
                };
                Ok(EvalResult::Array(vals))
            },
        }
    }

    /// One expression evaluated and coerced to a graph input.
    fn eval_input(&mut self, e: SExpression<'a>) -> (r: Result<SynthInput, LispError>)
        ensures
            final(self).sample_rate == old(self).sample_rate,
            (match spec_eval_input(old(self).sample_rate, state_view(*old(self)), view_sexpr(e)) {
                Ok((st1, n)) => r matches Ok(m) && m == n && state_view(*final(self)) == st1,
                Err(er) => r matches Err(le) && le@ == er,
            }),
        decreases vsize(view_sexpr(e)), 1int,
    {
        let v = match self.evaluate_sexpr(e) {
            Ok(v) => v,
            Err(e2) => {
                return Err(e2);
            },
        };
        match v.to_input() {
            Ok(n) => Ok(n),
            Err(e2) => Err(e2),
        }
    }

    /// One expression evaluated and required to be a constant.
    fn eval_const(&mut self, e: SExpression<'a>) -> (r: Result<u32, LispError>)
        ensures
            final(self).sample_rate == old(self).sample_rate,
            (match spec_eval_const(old(self).sample_rate, state_view(*old(self)), view_sexpr(e)) {
                Ok((st1, c)) => r matches Ok(d) && d == c && state_view(*final(self)) == st1,
                Err(er) => r matches Err(le) && le@ == er,
            }),
        decreases vsize(view_sexpr(e)), 1int,
    {
        let v = match self.evaluate_sexpr(e) {
            Ok(v) => v,
            Err(e2) => {
                return Err(e2);
            },
        };
        match v.expect_constant() {
            Ok(c) => Ok(c),
            Err(e2) => Err(e2),
        }
    }

    /// Array elements evaluated left to right, each required to reduce to a
    /// constant.
    fn eval_array(&mut self, elems: Vec<SExpression<'a>>) -> (r: Result<Vec<u32>, LispError>)
        ensures
            final(self).sample_rate == old(self).sample_rate,
            (match spec_eval_array(old(self).sample_rate, state_view(*old(self)), view_exprs(
                elems@,
            )) {
                Ok((st1, vals)) => r matches Ok(vs) && vs@ == vals && state_view(*final(self))
                    == st1,
                Err(er) => r matches Err(le) && le@ == er,
            }),
        decreases vsize_seq(view_exprs(elems@)), 2int,
    {
        let ghost rate = self.sample_rate;
        let ghost st0 = state_view(*self);
        let ghost elems0 = view_exprs(elems@);
        let mut list = elems;
        let mut out: Vec<u32> = Vec::new();
        while list.len() > 0
            invariant
                rate == old(self).sample_rate,
                st0 == state_view(*old(self)),
                elems0 == view_exprs(elems@),
                self.sample_rate == rate,
                vsize_seq(view_exprs(list@)) <= vsize_seq(elems0),
                (match spec_eval_array(rate, state_view(*self), view_exprs(list@)) {
                    Ok((stf, tail)) => spec_eval_array(rate, st0, elems0) matches Ok(p) && p.0
                        == stf && p.1 == out@ + tail,
                    Err(e) => spec_eval_array(rate, st0, elems0) matches Err(e2) && e2 == e,
                }),
            decreases vsize_seq(view_exprs(list@)),
        {
            let ghost pre = view_exprs(list@);
            let ghost st_pre = state_view(*self);
            let ghost lv = list@;
            proof {
                lemma_view_exprs_len(lv);
                lemma_view_exprs_index(lv, 0);
                lemma_view_exprs_suffix(lv, 1);
            }
            let e = list.remove(0);
            proof {
                assert(list@ =~= lv.subrange(1, lv.len() as int));
                assert(view_exprs(list@) =~= pre.drop_first());
                lemma_vsize_seq_le(pre, 0);
                lemma_vsize_seq_subrange(pre, 1, pre.len() as int);
            }
            let c = match self.eval_const(e) {
                Ok(c) => c,
                Err(e2) => {
                    return Err(e2);
                },
            };
            let ghost out_pre = out@;
            out.push(c);
            proof {
                match spec_eval_array(rate, state_view(*self), view_exprs(list@)) {
                    Ok((stf, tail)) => {
                        assert(out_pre + (seq![c] + tail) =~= out@ + tail);
                    },
                    Err(_) => {},
                }
            }
        }
        proof {
            assert(view_exprs(list@).len() == 0);
            match spec_eval_array(rate, st0, elems0) {
                Ok(p) => {
                    assert(out@ + Seq::<u32>::empty() =~= out@);
                },
                Err(_) => {},
            }
        }
        Ok(out)
    }

    /// A variadic arithmetic call.
    fn call_arith(&mut self, func_name: &'a str, args: Vec<SExpression<'a>>) -> (r: Result<
        EvalResult,
        LispError,
    >)
        requires
            func_name@ == "*"@ || func_name@ == "+"@ || func_name@ == "-"@,
        ensures
            final(self).sample_rate == old(self).sample_rate,
            (match spec_call_arith(
                old(self).sample_rate,
                state_view(*old(self)),
                func_name@,
                view_exprs(args@),
            ) {
                Ok((stf, v)) => r matches Ok(res) && result_view(res) == v && state_view(
                    *final(self),
                ) == stf,
                Err(er) => r matches Err(le) && le@ == er,
            }),
        decreases vsize_seq(view_exprs(args@)), 2int,
    {
        proof {
            lemma_view_exprs_len(args@);
        }
        let ghost rate = self.sample_rate;
        let ghost st0 = state_view(*self);
        let ghost args0 = view_exprs(args@);
        let args_len = args.len();
        let is_mul = str_eq_str(func_name, "*");
        let is_add = str_eq_str(func_name, "+");
        let op = if is_mul {
            ArithOp::Mul
        } else if is_add {
            ArithOp::Add
        } else {
            ArithOp::Sub
        };
        proof {
            assert(op == spec_op_of(func_name@));
        }
        if args_len < 2 {
            return Err(LispError::Arity {
                name: func_name.to_owned(),
                required: 2,
                received: args_len,
                at_least: true,
            });
        }
        if exprs_all_constant(&args) {
            let mut list = args;
            let mut acc: u32 = ONE_BITS;
            while list.len() > 0
                invariant
                    spec_all_numbers(view_exprs(list@)),
                    fold_nums(op, args0, ONE_BITS) == fold_nums(op, view_exprs(list@), acc),
                decreases list@.len(),
            {
                let ghost pre = view_exprs(list@);
                let ghost lv = list@;
                proof {
                    lemma_view_exprs_len(lv);
                    lemma_view_exprs_index(lv, 0);
                    lemma_view_exprs_suffix(lv, 1);
                }
                let e = list.remove(0);
                proof {
                    assert(list@ =~= lv.subrange(1, lv.len() as int));
                    assert(view_exprs(list@) =~= pre.drop_first());
                    assert(pre[0] is Num);
                }
                let x: u32 = match e {
                    SExpression::Number(b) => b,
                    _ => {
                        return vstd::pervasive::unreached();
                    },
                };
                acc = exec_apply_op(op, acc, x);
                proof {
                    assert forall|j: int| 0 <= j < view_exprs(list@).len() implies (
                    #[trigger] view_exprs(list@)[j]) is Num by {
                        assert(view_exprs(list@)[j] == pre.drop_first()[j]);
                    }
                }
            }
            proof {
                assert(view_exprs(list@).len() == 0);
            }
            return Ok(EvalResult::Constant(acc));
        }
        let mut list = args;
        let ghost lv0 = list@;
        proof {
            lemma_view_exprs_index(lv0, 0);
            lemma_view_exprs_suffix(lv0, 1);
        }
        let first_e = list.remove(0);
        proof {
            assert(list@ =~= lv0.subrange(1, lv0.len() as int));
            assert(view_exprs(list@) =~= args0.drop_first());
            lemma_vsize_seq_le(args0, 0);
            lemma_vsize_seq_subrange(args0, 1, args0.len() as int);
        }
        let first = match self.eval_input(first_e) {
            Ok(x) => x,
            Err(e2) => {
                return Err(e2);
            },
        };
        let ghost st1 = state_view(*self);
        let mut acc: SynthInput = first;
        while list.len() > 0
            invariant
                rate == old(self).sample_rate,
                st0 == state_view(*old(self)),
                args0 == view_exprs(args@),
                func_name@ == "*"@ || func_name@ == "+"@ || func_name@ == "-"@,
                op == spec_op_of(func_name@),
                args0.len() >= 2,
                !spec_all_numbers(args0),
                spec_eval_input(rate, st0, args0[0]) == Ok::<(EStateV, SynthInput), ErrV>(
                    (st1, first),
                ),
                self.sample_rate == rate,
                vsize_seq(view_exprs(list@)) <= vsize_seq(args0),
                (match spec_fold_chain(rate, op, state_view(*self), view_exprs(list@), acc) {
                    Ok((stf, inp)) => spec_fold_chain(rate, op, st1, args0.drop_first(), first)
                        matches Ok(q) && q.0 == stf && q.1 == inp,
                    Err(e) => spec_fold_chain(rate, op, st1, args0.drop_first(), first) matches Err(
                        e2,
                    ) && e2 == e,
                }),
            decreases vsize_seq(view_exprs(list@)),
        {
            let ghost pre = view_exprs(list@);
            let ghost st_pre = state_view(*self);
            let ghost lv = list@;
            proof {
                lemma_view_exprs_len(lv);
                lemma_view_exprs_index(lv, 0);
                lemma_view_exprs_suffix(lv, 1);
            }
            let e = list.remove(0);
            proof {
                assert(list@ =~= lv.subrange(1, lv.len() as int));
                assert(view_exprs(list@) =~= pre.drop_first());
                lemma_vsize_seq_le(pre, 0);
                lemma_vsize_seq_subrange(pre, 1, pre.len() as int);
            }
            let x = match self.eval_input(e) {
                Ok(x) => x,
                Err(e2) => {
                    return Err(e2);
                },
            };
            let id = self.synth.push_node(exec_op_node(op, acc, x));
            acc = SynthInput::Node(id);
        }
        proof {
            assert(view_exprs(list@).len() == 0);
        }
        Ok(EvalResult::SynthNode(acc))
    }

    /// A ternary crossfade call.
    fn call_mix(&mut self, func_name: &'a str, args: Vec<SExpression<'a>>) -> (r: Result<
        EvalResult,
        LispError,
    >)
        ensures
            final(self).sample_rate == old(self).sample_rate,
            (match spec_call_mix(
                old(self).sample_rate,
                state_view(*old(self)),
                func_name@,
                view_exprs(args@),
            ) {
                Ok((stf, v)) => r matches Ok(res) && result_view(res) == v && state_view(
                    *final(self),
                ) == stf,
                Err(er) => r matches Err(le) && le@ == er,
            }),
        decreases vsize_seq(view_exprs(args@)), 2int,
    {
        proof {
            lemma_view_exprs_len(args@);
        }
        let args_len = args.len();
        if args_len != 3 {
            return Err(LispError::Arity {
                name: func_name.to_owned(),
                required: 3,
                received: args_len,
                at_least: false,
            });
        }
        let mut list = args;
        proof {
            lemma_view_exprs_index(list@, 0);
            lemma_view_exprs_index(list@, 1);
            lemma_view_exprs_index(list@, 2);
            lemma_vsize_seq_le(view_exprs(list@), 0);
            lemma_vsize_seq_le(view_exprs(list@), 1);
            lemma_vsize_seq_le(view_exprs(list@), 2);
        }
        let e1 = list.remove(0);
        let e2 = list.remove(0);
        let e3 = list.remove(0);
        let a = match self.eval_input(e1) {
            Ok(x) => x,
            Err(er) => {
                return Err(er);
            },
        };
        let b = match self.eval_input(e2) {
            Ok(x) => x,
            Err(er) => {
                return Err(er);
            },
        };
        let m = match self.eval_input(e3) {
            Ok(x) => x,
            Err(er) => {
                return Err(er);
            },
        };
        let id = self.synth.push_node(NodeKind::Mix { a, b, amount: m });
        Ok(EvalResult::SynthNode(SynthInput::Node(id)))
    }

    /// A unary oscillator call.
    fn call_osc(&mut self, func_name: &'a str, args: Vec<SExpression<'a>>) -> (r: Result<
        EvalResult,
        LispError,
    >)
        ensures
            final(self).sample_rate == old(self).sample_rate,
            (match spec_call_osc(
                old(self).sample_rate,
                state_view(*old(self)),
                func_name@,
                view_exprs(args@),
            ) {
                Ok((stf, v)) => r matches Ok(res) && result_view(res) == v && state_view(
                    *final(self),
                ) == stf,
                Err(er) => r matches Err(le) && le@ == er,
            }),
        decreases vsize_seq(view_exprs(args@)), 2int,
    {
        proof {
            lemma_view_exprs_len(args@);
        }
        let args_len = args.len();
        if args_len != 1 {
            return Err(LispError::Arity {
                name: func_name.to_owned(),
                required: 1,
                received: args_len,
                at_least: false,
            });
        }
        let is_sin = str_eq_str(func_name, "sin") || str_eq_str(func_name, "sine");
        let is_tri = str_eq_str(func_name, "tri") || str_eq_str(func_name, "triangle");
        let is_sqr = str_eq_str(func_name, "sqr") || str_eq_str(func_name, "square");
        let mut list = args;
        proof {
            lemma_view_exprs_index(list@, 0);
            lemma_vsize_seq_le(view_exprs(list@), 0);
        }
        let e1 = list.remove(0);
        let freq = match self.eval_input(e1) {
            Ok(x) => x,
            Err(er) => {
                return Err(er);
            },
        };
        let kind = if is_sin {
            NodeKind::Sine(freq)
        } else if is_tri {
            NodeKind::Triangle(freq)
        } else if is_sqr {
            NodeKind::Square(freq)
        } else {
            NodeKind::Saw(freq)
        };
        let id = self.synth.push_node(kind);
        Ok(EvalResult::SynthNode(SynthInput::Node(id)))
    }

    /// A filter call: cutoff then input.
    fn call_filter(&mut self, func_name: &'a str, args: Vec<SExpression<'a>>) -> (r: Result<
        EvalResult,
        LispError,
    >)
        ensures
            final(self).sample_rate == old(self).sample_rate,
            (match spec_call_filter(
                old(self).sample_rate,
                state_view(*old(self)),
                func_name@,
                view_exprs(args@),
            ) {
                Ok((stf, v)) => r matches Ok(res) && result_view(res) == v && state_view(
                    *final(self),
                ) == stf,
                Err(er) => r matches Err(le) && le@ == er,
            }),
        decreases vsize_seq(view_exprs(args@)), 2int,
    {
        proof {
            lemma_view_exprs_len(args@);
        }
        let args_len = args.len();
        if args_len != 2 {
            return Err(LispError::Arity {
                name: func_name.to_owned(),
                required: 2,
                received: args_len,
                at_least: false,
            });
        }
        let is_lp = str_eq_str(func_name, "lp") || str_eq_str(func_name, "lowpass");
        let mut list = args;
        proof {
            lemma_view_exprs_index(list@, 0);
            lemma_view_exprs_index(list@, 1);
            lemma_vsize_seq_le(view_exprs(list@), 0);
            lemma_vsize_seq_le(view_exprs(list@), 1);
        }
        let e1 = list.remove(0);
        let e2 = list.remove(0);
        let cutoff = match self.eval_input(e1) {
            Ok(x) => x,
            Err(er) => {
                return Err(er);
            },
        };
        let input = match self.eval_input(e2) {
            Ok(x) => x,
            Err(er) => {
                return Err(er);
            },
        };
        let kind = if is_lp {
            NodeKind::Lowpass { input, cutoff }
        } else {
            NodeKind::Highpass { input, cutoff }
        };
        let id = self.synth.push_node(kind);
        Ok(EvalResult::SynthNode(SynthInput::Node(id)))
    }

    /// An attack/release envelope call.
    fn call_ar(&mut self, func_name: &'a str, args: Vec<SExpression<'a>>) -> (r: Result<
        EvalResult,
        LispError,
    >)
        ensures
            final(self).sample_rate == old(self).sample_rate,
            (match spec_call_ar(
                old(self).sample_rate,
                state_view(*old(self)),
                func_name@,
                view_exprs(args@),
            ) {
                Ok((stf, v)) => r matches Ok(res) && result_view(res) == v && state_view(
                    *final(self),
                ) == stf,
                Err(er) => r matches Err(le) && le@ == er,
            }),
        decreases vsize_seq(view_exprs(args@)), 2int,
    {
        proof {
            lemma_view_exprs_len(args@);
        }
        let args_len = args.len();
        if args_len != 3 {
            return Err(LispError::Arity {
                name: func_name.to_owned(),
                required: 3,
                received: args_len,
                at_least: false,
            });
        }
        let mut list = args;
        proof {
            lemma_view_exprs_index(list@, 0);
            lemma_view_exprs_index(list@, 1);
            lemma_view_exprs_index(list@, 2);
            lemma_vsize_seq_le(view_exprs(list@), 0);
            lemma_vsize_seq_le(view_exprs(list@), 1);
            lemma_vsize_seq_le(view_exprs(list@), 2);
        }
        let e1 = list.remove(0);
        let e2 = list.remove(0);
        let e3 = list.remove(0);
        let attack = match self.eval_const(e1) {
            Ok(x) => x,
            Err(er) => {
                return Err(er);
            },
        };
        let release = match self.eval_const(e2) {
            Ok(x) => x,
            Err(er) => {
                return Err(er);
            },
        };
        let gate = match self.eval_input(e3) {
            Ok(x) => x,
            Err(er) => {
                return Err(er);
            },
        };
        let id = self.synth.push_node(NodeKind::EnvAr { attack, release, gate });
        Ok(EvalResult::SynthNode(SynthInput::Node(id)))
    }

    /// A four-stage envelope call.
    fn call_adsr(&mut self, func_name: &'a str, args: Vec<SExpression<'a>>) -> (r: Result<
        EvalResult,
        LispError,
    >)
        ensures
            final(self).sample_rate == old(self).sample_rate,
            (match spec_call_adsr(
                old(self).sample_rate,
                state_view(*old(self)),
                func_name@,
                view_exprs(args@),
            ) {
                Ok((stf, v)) => r matches Ok(res) && result_view(res) == v && state_view(
                    *final(self),
                ) == stf,
                Err(er) => r matches Err(le) && le@ == er,
            }),
        decreases vsize_seq(view_exprs(args@)), 2int,
    {
        proof {
            lemma_view_exprs_len(args@);
        }
        let args_len = args.len();
        if args_len != 5 {
            return Err(LispError::Arity {
                name: func_name.to_owned(),
                required: 5,
                received: args_len,
                at_least: false,
            });
        }
        let mut list = args;
        proof {
            lemma_view_exprs_index(list@, 0);
            lemma_view_exprs_index(list@, 1);
            lemma_view_exprs_index(list@, 2);
            lemma_view_exprs_index(list@, 3);
            lemma_view_exprs_index(list@, 4);
            lemma_vsize_seq_le(view_exprs(list@), 0);
            lemma_vsize_seq_le(view_exprs(list@), 1);
            lemma_vsize_seq_le(view_exprs(list@), 2);
            lemma_vsize_seq_le(view_exprs(list@), 3);
            lemma_vsize_seq_le(view_exprs(list@), 4);
        }
        let e1 = list.remove(0);
        let e2 = list.remove(0);
        let e3 = list.remove(0);
        let e4 = list.remove(0);
        let e5 = list.remove(0);
        let attack = match self.eval_const(e1) {
            Ok(x) => x,
            Err(er) => {
                return Err(er);
            },
        };
        let decay = match self.eval_const(e2) {
            Ok(x) => x,
            Err(er) => {
                return Err(er);
            },
        };
        let sustain = match self.eval_const(e3) {
            Ok(x) => x,
            Err(er) => {
                return Err(er);
            },
        };
        let release = match self.eval_const(e4) {
            Ok(x) => x,
            Err(er) => {
                return Err(er);
            },
        };
        let gate = match self.eval_input(e5) {
            Ok(x) => x,
            Err(er) => {
                return Err(er);
            },
        };
        let id = self.synth.push_node(NodeKind::EnvAdsr { attack, decay, sustain, release, gate });
        Ok(EvalResult::SynthNode(SynthInput::Node(id)))
    }

    /// The clamp call: never completable; see `spec_call_clamp`.
    fn call_clamp(&mut self, func_name: &'a str, args: Vec<SExpression<'a>>) -> (r: Result<
        EvalResult,
        LispError,
    >)
        ensures
            final(self).sample_rate == old(self).sample_rate,
            (match spec_call_clamp(
                old(self).sample_rate,
                state_view(*old(self)),
                func_name@,
                view_exprs(args@),
            ) {
                Ok((stf, v)) => r matches Ok(res) && result_view(res) == v && state_view(
                    *final(self),
                ) == stf,
                Err(er) => r matches Err(le) && le@ == er,
            }),
        decreases vsize_seq(view_exprs(args@)), 2int,
    {
        proof {
            lemma_view_exprs_len(args@);
        }
        let args_len = args.len();
        if args_len != 2 {
            return Err(LispError::Arity {
                name: func_name.to_owned(),
                required: 2,
                received: args_len,
                at_least: false,
            });
        }
        let mut list = args;
        proof {
            lemma_view_exprs_index(list@, 0);
            lemma_view_exprs_index(list@, 1);
            lemma_vsize_seq_le(view_exprs(list@), 0);
            lemma_vsize_seq_le(view_exprs(list@), 1);
        }
        let e1 = list.remove(0);
        let e2 = list.remove(0);
        match self.eval_input(e1) {
            Ok(_) => (),
            Err(er) => {
                return Err(er);
            },
        }
        match self.eval_input(e2) {
            Ok(_) => (),
            Err(er) => {
                return Err(er);
            },
        }
        Err(LispError::Arity {
            name: func_name.to_owned(),
            required: 3,
            received: args_len,
            at_least: false,
        })
    }

    /// A sequencer call.
    fn call_sequencer(&mut self, func_name: &'a str, args: Vec<SExpression<'a>>) -> (r: Result<
        EvalResult,
        LispError,
    >)
        ensures
            final(self).sample_rate == old(self).sample_rate,
            (match spec_call_sequencer(
                old(self).sample_rate,
                state_view(*old(self)),
                func_name@,
                view_exprs(args@),
            ) {
                Ok((stf, v)) => r matches Ok(res) && result_view(res) == v && state_view(
                    *final(self),
                ) == stf,
                Err(er) => r matches Err(le) && le@ == er,
            }),
        decreases vsize_seq(view_exprs(args@)), 2int,
    {
        proof {
            lemma_view_exprs_len(args@);
        }
        let args_len = args.len();
        if args_len < 2 {
            return Err(LispError::Arity {
                name: func_name.to_owned(),
                required: 2,
                received: args_len,
                at_least: true,
            });
        }
        let mut list = args;
        proof {
            lemma_view_exprs_index(list@, 0);
            lemma_view_exprs_index(list@, 1);
            lemma_vsize_seq_le(view_exprs(list@), 0);
            lemma_vsize_seq_le(view_exprs(list@), 1);
            if view_exprs(list@).len() > 2 {
                lemma_view_exprs_index(list@, 2);
                lemma_vsize_seq_le(view_exprs(list@), 2);
            }
        }
        let e1 = list.remove(0);
        let e2 = list.remove(0);
        let sv = match self.evaluate_sexpr(e1) {
            Ok(x) => x,
            Err(er) => {
                return Err(er);
            },
        };
        let data = match sv.expect_array() {
            Ok(x) => x,
            Err(er) => {
                return Err(er);
            },
        };
        let advance = match self.eval_input(e2) {
            Ok(x) => x,
            Err(er) => {
                return Err(er);
            },
        };
        let reset = if list.len() > 0 {
            let e3 = list.remove(0);
            match self.eval_input(e3) {
                Ok(x) => x,
                Err(er) => {
                    return Err(er);
                },
            }
        } else {
            SynthInput::Literal(ONE_BITS)
        };
        let bid = self.synth.new_buffer(data);
        let id = self.synth.push_node(NodeKind::Sequencer { buffer: bid, advance, reset });
        Ok(EvalResult::SynthNode(SynthInput::Node(id)))
    }

    /// A bake call: the nested program is compiled fresh, at the same
    /// sample rate, and rendered offline into a fixed-length buffer.
    fn call_bake(&mut self, func_name: &'a str, args: Vec<SExpression<'a>>) -> (r: Result<
        EvalResult,
        LispError,
    >)
        ensures
            final(self).sample_rate == old(self).sample_rate,
            (match spec_call_bake(
                old(self).sample_rate,
                state_view(*old(self)),
                func_name@,
                view_exprs(args@),
            ) {
                Ok((stf, v)) => r matches Ok(res) && result_view(res) == v && state_view(
                    *final(self),
                ) == stf,
                Err(er) => r matches Err(le) && le@ == er,
            }),
        decreases vsize_seq(view_exprs(args@)), 2int,
    {
        proof {
            lemma_view_exprs_len(args@);
        }
        let ghost args0 = view_exprs(args@);
        let args_len = args.len();
        if args_len < 2 {
            return Err(LispError::Arity {
                name: func_name.to_owned(),
                required: 2,
                received: args_len,
                at_least: true,
            });
        }
        let mut list = args;
        let ghost lv0 = list@;
        proof {
            lemma_view_exprs_index(lv0, 0);
            lemma_view_exprs_suffix(lv0, 1);
        }
        let e1 = list.remove(0);
        proof {
            assert(list@ =~= lv0.subrange(1, lv0.len() as int));
            assert(view_exprs(list@) =~= args0.drop_first());
            lemma_vsize_seq_le(args0, 0);
            lemma_vsize_pos(args0[0]);
        }
        let seconds = match self.eval_const(e1) {
            Ok(x) => x,
            Err(er) => {
                return Err(er);
            },
        };
        let samples = num_trunc_usize(num_mul(seconds, self.sample_rate));
        if samples == 0 {
            return Err(LispError::ZeroLengthBake);
        }
        let sub = match evaluate_top_level(self.sample_rate, list) {
            Ok((g, _info)) => g,
            Err(er) => {
                return Err(er);
            },
        };
        let bid = self.synth.new_rendered_buffer(samples, sub);
        let id = self.synth.push_node(NodeKind::Sampler { buffer: bid, start: ZERO_BITS });
        Ok(EvalResult::SynthNode(SynthInput::Node(id)))
    }

    /// A key-freq call.
    fn call_key_freq(&mut self, func_name: &'a str, args: Vec<SExpression<'a>>) -> (r: Result<
        EvalResult,
        LispError,
    >)
        ensures
            final(self).sample_rate == old(self).sample_rate,
            (match spec_call_key_freq(state_view(*old(self)), func_name@, view_exprs(args@)) {
                Ok((stf, v)) => r matches Ok(res) && result_view(res) == v && state_view(
                    *final(self),
                ) == stf,
                Err(er) => r matches Err(le) && le@ == er,
            }),
    {
        proof {
            lemma_view_exprs_len(args@);
        }
        let args_len = args.len();
        if args_len != 0 {
            return Err(LispError::Arity {
                name: func_name.to_owned(),
                required: 0,
                received: args_len,
                at_least: false,
            });
        }
        match self.key_input {
            KeyInput::Mono { freq: Option::Some(p), .. } => Ok(
                EvalResult::SynthNode(SynthInput::Parameter(p)),
            ),
            KeyInput::Mono { freq: Option::None, vel } => {
                let p = self.synth.new_parameter();
                self.key_input = KeyInput::Mono { freq: Option::Some(p), vel };
                Ok(EvalResult::SynthNode(SynthInput::Parameter(p)))
            },
            KeyInput::NoInput => {
                let p = self.synth.new_parameter();
                self.key_input = KeyInput::Mono { freq: Option::Some(p), vel: Option::None };
                Ok(EvalResult::SynthNode(SynthInput::Parameter(p)))
            },
        }
    }

    /// A key-vel call.
    fn call_key_vel(&mut self, func_name: &'a str, args: Vec<SExpression<'a>>) -> (r: Result<
        EvalResult,
        LispError,
    >)
        ensures
            final(self).sample_rate == old(self).sample_rate,
            (match spec_call_key_vel(state_view(*old(self)), func_name@, view_exprs(args@)) {
                Ok((stf, v)) => r matches Ok(res) && result_view(res) == v && state_view(
                    *final(self),
                ) == stf,
                Err(er) => r matches Err(le) && le@ == er,
            }),
    {
        proof {
            lemma_view_exprs_len(args@);
        }
        let args_len = args.len();
        if args_len != 0 {
            return Err(LispError::Arity {
                name: func_name.to_owned(),
                required: 0,
                received: args_len,
                at_least: false,
            });
        }
        match self.key_input {
            KeyInput::Mono { vel: Option::Some(p), .. } => Ok(
                EvalResult::SynthNode(SynthInput::Parameter(p)),
            ),
            KeyInput::Mono { vel: Option::None, freq } => {
                let p = self.synth.new_parameter();
                self.key_input = KeyInput::Mono { vel: Option::Some(p), freq };
                Ok(EvalResult::SynthNode(SynthInput::Parameter(p)))
            },
            KeyInput::NoInput => {
                let p = self.synth.new_parameter();
                self.key_input = KeyInput::Mono { vel: Option::Some(p), freq: Option::None };
                Ok(EvalResult::SynthNode(SynthInput::Parameter(p)))
            },
        }
    }

    /// A builtin function call, dispatched by name into the builtin table.
    fn execute_function(&mut self, func_name: &'a str, args: Vec<SExpression<'a>>) -> (r: Result<
        EvalResult,
        LispError,
    >)
        ensures
            final(self).sample_rate == old(self).sample_rate,
            (match spec_exec_function(
                old(self).sample_rate,
                state_view(*old(self)),
                func_name@,
                view_exprs(args@),
            ) {
                Ok((stf, v)) => r matches Ok(res) && result_view(res) == v && state_view(
                    *final(self),
                ) == stf,
                Err(er) => r matches Err(le) && le@ == er,
            }),
        decreases vsize_seq(view_exprs(args@)), 3int,
    {
        if str_eq_str(func_name, "*") || str_eq_str(func_name, "+") || str_eq_str(func_name, "-") {
            self.call_arith(func_name, args)
        } else if str_eq_str(func_name, "mix") {
            self.call_mix(func_name, args)
        } else if str_eq_str(func_name, "sin") || str_eq_str(func_name, "sine") || str_eq_str(
            func_name,
            "tri",
        ) || str_eq_str(func_name, "triangle") || str_eq_str(func_name, "sqr") || str_eq_str(
            func_name,
            "square",
        ) || str_eq_str(func_name, "saw") || str_eq_str(func_name, "sawtooth") {
            self.call_osc(func_name, args)
        } else if str_eq_str(func_name, "lp") || str_eq_str(func_name, "lowpass") || str_eq_str(
            func_name,
            "hp",
        ) || str_eq_str(func_name, "highpass") {
            self.call_filter(func_name, args)
        } else if str_eq_str(func_name, "ar") || str_eq_str(func_name, "env-ar") {
            self.call_ar(func_name, args)
        } else if str_eq_str(func_name, "adsr") || str_eq_str(func_name, "env-adsr") {
            self.call_adsr(func_name, args)
        } else if str_eq_str(func_name, "clamp") {
            self.call_clamp(func_name, args)
        } else if str_eq_str(func_name, "sequencer") {
            self.call_sequencer(func_name, args)
        } else if str_eq_str(func_name, "bake") {
            self.call_bake(func_name, args)
        } else if str_eq_str(func_name, "key-freq") {
            self.call_key_freq(func_name, args)
        } else if str_eq_str(func_name, "key-vel") {
            self.call_key_vel(func_name, args)
        } else if str_eq_str(func_name, "polyphonic") {
            proof {
                lemma_view_exprs_len(args@);
            }
            if args.len() < 2 {
                return Err(LispError::Arity {
                    name: func_name.to_owned(),
                    required: 2,
                    received: args.len(),
                    at_least: true,
                });
            }
            Err(LispError::Unimplemented)
        } else {
            Err(LispError::UnknownFunction { name: func_name.to_owned() })
        }
    }

    /// A `let` form.
    fn form_let(&mut self, func_name: &'a str, args: Vec<SExpression<'a>>) -> (r: Result<
        (),
        LispError,
    >)
        ensures
            final(self).sample_rate == old(self).sample_rate,
            (match spec_form_let(
                old(self).sample_rate,
                state_view(*old(self)),
                func_name@,
                view_exprs(args@),
            ) {
                Ok(stf) => r is Ok && state_view(*final(self)) == stf,
                Err(er) => r matches Err(le) && le@ == er,
            }),
        decreases vsize_seq(view_exprs(args@)), 2int,
    {
        proof {
            lemma_view_exprs_len(args@);
        }
        let args_len = args.len();
        if args_len != 2 {
            return Err(LispError::Arity {
                name: func_name.to_owned(),
                required: 2,
                received: args_len,
                at_least: false,
            });
        }
        let mut list = args;
        proof {
            lemma_view_exprs_index(list@, 0);
            lemma_view_exprs_index(list@, 1);
            lemma_vsize_seq_le(view_exprs(list@), 0);
            lemma_vsize_seq_le(view_exprs(list@), 1);
        }
        let e1 = list.remove(0);
        let e2 = list.remove(0);
        let ident = match e1.expect_ident() {
            Ok(s) => s,
            Err(e) => {
                return Err(e);
            },
        };
        let value = match self.evaluate_sexpr(e2) {
            Ok(v) => v,
            Err(e) => {
                return Err(e);
            },
        };
        proof {
            lemma_env_push(self.let_bindings@, ident, value);
        }
        self.let_bindings.push((ident, value));
        Ok(())
    }

    /// A `gain` form.
    fn form_gain(&mut self, func_name: &'a str, args: Vec<SExpression<'a>>) -> (r: Result<
        (),
        LispError,
    >)
        ensures
            final(self).sample_rate == old(self).sample_rate,
            (match spec_form_gain(
                old(self).sample_rate,
                state_view(*old(self)),
                func_name@,
                view_exprs(args@),
            ) {
                Ok(stf) => r is Ok && state_view(*final(self)) == stf,
                Err(er) => r matches Err(le) && le@ == er,
            }),
        decreases vsize_seq(view_exprs(args@)), 2int,
    {
        proof {
            lemma_view_exprs_len(args@);
        }
        let args_len = args.len();
        if args_len != 1 {
            return Err(LispError::Arity {
                name: func_name.to_owned(),
                required: 1,
                received: args_len,
                at_least: false,
            });
        }
        let mut list = args;
        proof {
            lemma_view_exprs_index(list@, 0);
            lemma_vsize_seq_le(view_exprs(list@), 0);
        }
        let e1 = list.remove(0);
        let g = match self.eval_const(e1) {
            Ok(c) => c,
            Err(e) => {
                return Err(e);
            },
        };
        self.synth.set_gain(g);
        Ok(())
    }

    /// An `output` form.
    fn form_output(&mut self, func_name: &'a str, args: Vec<SExpression<'a>>) -> (r: Result<
        (),
        LispError,
    >)
        ensures
            final(self).sample_rate == old(self).sample_rate,
            (match spec_form_output(
                old(self).sample_rate,
                state_view(*old(self)),
                func_name@,
                view_exprs(args@),
            ) {
                Ok(stf) => r is Ok && state_view(*final(self)) == stf,
                Err(er) => r matches Err(le) && le@ == er,
            }),
        decreases vsize_seq(view_exprs(args@)), 2int,
    {
        proof {
            lemma_view_exprs_len(args@);
        }
        let args_len = args.len();
        if args_len != 1 {
            return Err(LispError::Arity {
                name: func_name.to_owned(),
                required: 1,
                received: args_len,
                at_least: false,
            });
        }
        let mut list = args;
        proof {
            lemma_view_exprs_index(list@, 0);
            lemma_vsize_seq_le(view_exprs(list@), 0);
        }
        let e1 = list.remove(0);
        let v = match self.evaluate_sexpr(e1) {
            Ok(v) => v,
            Err(e) => {
                return Err(e);
            },
        };
        let node_id = match v.expect_node_id() {
            Ok(id) => id,
            Err(e) => {
                return Err(e);
            },
        };
        self.synth.set_output(node_id);
        Ok(())
    }

    /// A `def-store` form.
    fn form_def_store(&mut self, func_name: &'a str, args: Vec<SExpression<'a>>) -> (r: Result<
        (),
        LispError,
    >)
        ensures
            final(self).sample_rate == old(self).sample_rate,
            (match spec_form_def_store(state_view(*old(self)), func_name@, view_exprs(args@)) {
                Ok(stf) => r is Ok && state_view(*final(self)) == stf,
                Err(er) => r matches Err(le) && le@ == er,
            }),
    {
        proof {
            lemma_view_exprs_len(args@);
        }
        let args_len = args.len();
        if args_len != 1 {
            return Err(LispError::Arity {
                name: func_name.to_owned(),
                required: 1,
                received: args_len,
                at_least: false,
            });
        }
        let mut list = args;
        proof {
            lemma_view_exprs_index(list@, 0);
            lemma_vsize_seq_le(view_exprs(list@), 0);
        }
        let e1 = list.remove(0);
        let ident = match e1.expect_ident() {
            Ok(s) => s,
            Err(e) => {
                return Err(e);
            },
        };
        let sid = self.synth.new_value_store();
        let value = EvalResult::SynthNode(SynthInput::Store(sid));
        proof {
            lemma_env_push(self.let_bindings@, ident, value);
        }
        self.let_bindings.push((ident, value));
        Ok(())
    }

    /// A `store` form.
    fn form_store(&mut self, func_name: &'a str, args: Vec<SExpression<'a>>) -> (r: Result<
        (),
        LispError,
    >)
        ensures
            final(self).sample_rate == old(self).sample_rate,
            (match spec_form_store(
                old(self).sample_rate,
                state_view(*old(self)),
                func_name@,
                view_exprs(args@),
            ) {
                Ok(stf) => r is Ok && state_view(*final(self)) == stf,
                Err(er) => r matches Err(le) && le@ == er,
            }),
        decreases vsize_seq(view_exprs(args@)), 2int,
    {
        proof {
            lemma_view_exprs_len(args@);
        }
        let args_len = args.len();
        if args_len != 2 {
            return Err(LispError::Arity {
                name: func_name.to_owned(),
                required: 2,
                received: args_len,
                at_least: false,
            });
        }
        let mut list = args;
        proof {
            lemma_view_exprs_index(list@, 0);
            lemma_view_exprs_index(list@, 1);
            lemma_vsize_seq_le(view_exprs(list@), 0);
            lemma_vsize_seq_le(view_exprs(list@), 1);
        }
        let e1 = list.remove(0);
        let e2 = list.remove(0);
        let target = match self.evaluate_sexpr(e1) {
            Ok(v) => v,
            Err(e) => {
                return Err(e);
            },
        };
        let value = match self.evaluate_sexpr(e2) {
            Ok(v) => v,
            Err(e) => {
                return Err(e);
            },
        };
        let sid = match target.expect_store_id() {
            Ok(id) => id,
            Err(e) => {
                return Err(e);
            },
        };
        let inp = match value.to_input() {
            Ok(n) => n,
            Err(e) => {
                return Err(e);
            },
        };
        self.synth.new_store_write(sid, inp);
        Ok(())
    }

    /// One top-level form evaluated against this context.
    fn eval_top_form(&mut self, expr: SExpression<'a>) -> (r: Result<(), LispError>)
        ensures
            final(self).sample_rate == old(self).sample_rate,
            (match spec_eval_top_form(old(self).sample_rate, state_view(*old(self)), view_sexpr(
                expr,
            )) {
                Ok(stf) => r is Ok && state_view(*final(self)) == stf,
                Err(er) => r matches Err(le) && le@ == er,
            }),
        decreases vsize(view_sexpr(expr)), 3int,
    {
        match expr {
            SExpression::List(l) => {
                let mut l = l;
                let ghost lv = view_exprs(l@);
                proof {
                    lemma_view_exprs_len(l@);
                }
                if l.len() == 0 {
                    return Err(LispError::EmptyList);
                }
                let ghost lseq = l@;
                proof {
                    lemma_view_exprs_index(lseq, 0);
                    lemma_view_exprs_suffix(lseq, 1);
                }
                let head = l.remove(0);
                proof {
                    assert(l@ =~= lseq.subrange(1, lseq.len() as int));
                    assert(view_exprs(l@) =~= lv.drop_first());
                    assert(view_sexpr(head) == lv[0]);
                    lemma_vsize_seq_subrange(lv, 1, lv.len() as int);
                }
                let func_name = match head.expect_ident() {
                    Ok(s) => s,
                    Err(e) => {
                        return Err(e);
                    },
                };
                if str_eq_str(func_name, "let") {
                    self.form_let(func_name, l)
                } else if str_eq_str(func_name, "gain") {
                    self.form_gain(func_name, l)
                } else if str_eq_str(func_name, "output") {
                    self.form_output(func_name, l)
                } else if str_eq_str(func_name, "def-store") {
                    self.form_def_store(func_name, l)
                } else if str_eq_str(func_name, "store") {
                    self.form_store(func_name, l)
                } else {
                    match self.execute_function(func_name, l) {
                        Ok(_) => Ok(()),
                        Err(e) => Err(e),
                    }
                }
            },
            SExpression::Identifier(_) => Err(LispError::UnexpectedTopLevel {
                found: ValueKind::Identifier,
            }),
            SExpression::Number(_) => Err(LispError::UnexpectedTopLevel {
                found: ValueKind::Number,
            }),
            SExpression::Array(_) => Err(LispError::UnexpectedTopLevel {
                found: ValueKind::Array,
            }),
        }
    }
}

/// A whole program evaluated against one fresh graph: the special forms
/// bind names and shape the graph, any other list is a builtin call whose
/// result is discarded, and anything that is not a list is rejected. On
/// success the finished graph is returned with its key-input descriptor.
pub fn evaluate_top_level<'a>(sample_rate: u32, top_level: Vec<SExpression<'a>>) -> (r: Result<
    (SynthGraph, SynthInfo),
    LispError,
>)
    ensures
        (match spec_evaluate_top_level(sample_rate, view_exprs(top_level@)) {
            Ok((g, k)) => r matches Ok(p) && p.0@ == g && p.1.key_input == k,
            Err(e) => r matches Err(le) && le@ == e,
        }),
    decreases vsize_seq(view_exprs(top_level@)), 4int,
{
    let ghost entry_view = view_exprs(top_level@);
    let mut ctx = EvaluationContext::new(sample_rate);
    let mut rest = top_level;
    proof {
        lemma_view_exprs_len(rest@);
    }
    while rest.len() > 0
        invariant
            ctx.sample_rate == sample_rate,
            entry_view == view_exprs(top_level@),
            vsize_seq(view_exprs(rest@)) <= vsize_seq(entry_view),
            (match spec_eval_program(sample_rate, view_exprs(rest@), state_view(ctx)) {
                Ok(stf) => spec_eval_program(sample_rate, entry_view, init_state()) == Ok::<
                    EStateV,
                    ErrV,
                >(stf),
                Err(e) => spec_eval_program(sample_rate, entry_view, init_state()) == Err::<
                    EStateV,
                    ErrV,
                >(e),
            }),
        decreases vsize_seq(view_exprs(rest@)),
    {
        let ghost pre = view_exprs(rest@);
        let ghost st_pre = state_view(ctx);
        let ghost rv = rest@;
        proof {
            lemma_view_exprs_len(rv);
            lemma_view_exprs_index(rv, 0);
            lemma_view_exprs_suffix(rv, 1);
        }
        let expr = rest.remove(0);
        proof {
            assert(rest@ =~= rv.subrange(1, rv.len() as int));
            assert(view_exprs(rest@) =~= pre.drop_first());
            assert(view_sexpr(expr) == pre[0]);
            lemma_vsize_seq_le(pre, 0);
            lemma_vsize_seq_subrange(pre, 1, pre.len() as int);
        }
        match ctx.eval_top_form(expr) {
            Ok(()) => (),
            Err(e) => {
                return Err(e);
            },
        }
    }
    proof {
        assert(view_exprs(rest@).len() == 0);
    }
    let info = SynthInfo { key_input: ctx.key_input };
    Ok((ctx.synth, info))
}

} // verus!
