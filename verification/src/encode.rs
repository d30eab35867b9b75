//! Encoding: from an expression to the topology program that stands for it.
//!
//! The tree is walked depth first, children before their parent and the left
//! child before the right. Every sub-expression becomes one node, named after
//! its position in the list, so the root is the last node.
use vstd::prelude::*;
use vstd::string::StringExecFns;
use crate::expr::Expr;
use crate::ident::{lemma_node_id_injective, mint, node_id};
use crate::ops::{tag, tag_text, OpKind};
use crate::scalar::Scalar;
use crate::topology::{
    format_tag, node_models, param_models, plain_signature, stock_invariants, texts, NodeModel,
    Param, ParamModel, ParamValue, ProgramModel, TopologyNode, TopologyProgram,
};

verus! {

/// The operator of the topmost node of `e`.
pub open spec fn kind_of(e: Expr) -> OpKind {
    match e {
        Expr::Const(_) => OpKind::Const,
        Expr::X => OpKind::X,
        Expr::Y => OpKind::Y,
        Expr::Z => OpKind::Z,
        Expr::Add(_, _) => OpKind::Add,
        Expr::Sub(_, _) => OpKind::Sub,
        Expr::Mul(_, _) => OpKind::Mul,
        Expr::Div(_, _) => OpKind::Div,
        Expr::Neg(_) => OpKind::Neg,
        Expr::Sin(_) => OpKind::Sin,
        Expr::Cos(_) => OpKind::Cos,
        Expr::Exp(_) => OpKind::Exp,
        Expr::Min(_, _) => OpKind::Min,
        Expr::Max(_, _) => OpKind::Max,
        Expr::SMin { .. } => OpKind::SMin,
        Expr::SMax { .. } => OpKind::SMax,
        Expr::Translate { .. } => OpKind::Translate,
        Expr::RotateZ { .. } => OpKind::RotateZ,
    }
}

/// A number as a parameter value. An infinity or a NaN cannot be written as
/// a number, and is written as something else.
pub open spec fn written(v: Scalar) -> ParamValue {
    if v.finite() {
        ParamValue::Number(v)
    } else {
        ParamValue::Other
    }
}

/// The parameter that holds `v` under `key`.
pub open spec fn param(key: Seq<char>, v: Scalar) -> ParamModel {
    ParamModel { key, value: written(v) }
}

/// The parameters of the topmost node of `e`: its literal data.
pub open spec fn params_of(e: Expr) -> Seq<ParamModel> {
    match e {
        Expr::Const(v) => seq![param("value"@, v)],
        Expr::SMin { k, .. } => seq![param("k"@, k)],
        Expr::SMax { k, .. } => seq![param("k"@, k)],
        Expr::Translate { dx, dy, dz, .. } => seq![
            param("dx"@, dx),
            param("dy"@, dy),
            param("dz"@, dz),
        ],
        Expr::RotateZ { deg, .. } => seq![param("deg"@, deg)],
        _ => Seq::empty(),
    }
}

/// The node at position `at`.
pub open spec fn node_at(
    at: nat,
    kind: OpKind,
    inputs: Seq<Seq<char>>,
    params: Seq<ParamModel>,
) -> NodeModel {
    NodeModel { id: node_id(at), op: tag(kind), inputs, params }
}

/// The nodes of a leaf that is written at position `start`.
pub open spec fn alone(start: nat, kind: OpKind, params: Seq<ParamModel>) -> Seq<NodeModel> {
    seq![node_at(start, kind, Seq::empty(), params)]
}

/// The nodes `child` of the one input, then the node that reads it.
pub open spec fn after_one(
    child: Seq<NodeModel>,
    start: nat,
    kind: OpKind,
    params: Seq<ParamModel>,
) -> Seq<NodeModel> {
    child.push(
        node_at(
            start + child.len(),
            kind,
            seq![node_id((start + child.len() - 1) as nat)],
            params,
        ),
    )
}

/// The nodes `left` and `right` of the two inputs, then the node that reads
/// them.
pub open spec fn after_two(
    left: Seq<NodeModel>,
    right: Seq<NodeModel>,
    start: nat,
    kind: OpKind,
    params: Seq<ParamModel>,
) -> Seq<NodeModel> {
    (left + right).push(
        node_at(
            start + left.len() + right.len(),
            kind,
            seq![
                node_id((start + left.len() - 1) as nat),
                node_id((start + left.len() + right.len() - 1) as nat),
            ],
            params,
        ),
    )
}

/// The nodes of `e`, when `start` nodes stand before them.
pub open spec fn encode_nodes(e: Expr, start: nat) -> Seq<NodeModel>
    decreases e,
{
    match e {
        Expr::Add(a, b)
        | Expr::Sub(a, b)
        | Expr::Mul(a, b)
        | Expr::Div(a, b)
        | Expr::Min(a, b)
        | Expr::Max(a, b)
        | Expr::SMin { a, b, .. }
        | Expr::SMax { a, b, .. } => {
            let left = encode_nodes(*a, start);
            let right = encode_nodes(*b, start + left.len());
            after_two(left, right, start, kind_of(e), params_of(e))
        },
        Expr::Neg(a)
        | Expr::Sin(a)
        | Expr::Cos(a)
        | Expr::Exp(a)
        | Expr::Translate { expr: a, .. }
        | Expr::RotateZ { expr: a, .. } => after_one(
            encode_nodes(*a, start),
            start,
            kind_of(e),
            params_of(e),
        ),
        _ => alone(start, kind_of(e), params_of(e)),
    }
}

/// The input of `e`, where its topmost node has exactly one.
pub open spec fn only_child(e: Expr) -> Option<Expr> {
    match e {
        Expr::Neg(a)
        | Expr::Sin(a)
        | Expr::Cos(a)
        | Expr::Exp(a)
        | Expr::Translate { expr: a, .. }
        | Expr::RotateZ { expr: a, .. } => Some(*a),
        _ => None,
    }
}

/// The inputs of `e`, where its topmost node has exactly two.
pub open spec fn both_children(e: Expr) -> Option<(Expr, Expr)> {
    match e {
        Expr::Add(a, b)
        | Expr::Sub(a, b)
        | Expr::Mul(a, b)
        | Expr::Div(a, b)
        | Expr::Min(a, b)
        | Expr::Max(a, b)
        | Expr::SMin { a, b, .. }
        | Expr::SMax { a, b, .. } => Some((*a, *b)),
        _ => None,
    }
}

/// The nodes of an expression, by the number of its inputs: those of the
/// inputs first, from left to right, then its own.
pub proof fn lemma_encode_shape(e: Expr, start: nat)
    ensures
        both_children(e) matches Some(pair) ==> {
            let left = encode_nodes(pair.0, start);
            &&& encode_nodes(e, start) == after_two(
                left,
                encode_nodes(pair.1, start + left.len()),
                start,
                kind_of(e),
                params_of(e),
            )
            &&& decreases_to!(e => pair.0)
            &&& decreases_to!(e => pair.1)
        },
        only_child(e) matches Some(a) ==> {
            &&& encode_nodes(e, start) == after_one(
                encode_nodes(a, start),
                start,
                kind_of(e),
                params_of(e),
            )
            &&& decreases_to!(e => a)
        },
        both_children(e) is None && only_child(e) is None ==> encode_nodes(e, start) == alone(
            start,
            kind_of(e),
            params_of(e),
        ),
{
}

/// The program of `e`: its nodes from position zero, the last of them as
/// root, under the format tag, the stock invariants and the plain signature.
pub open spec fn encode_program(e: Expr) -> ProgramModel {
    let nodes = encode_nodes(e, 0);
    ProgramModel {
        format: format_tag(),
        root: node_id((nodes.len() - 1) as nat),
        nodes,
        invariants: stock_invariants(),
        signature: plain_signature(),
    }
}

/// Every expression has at least one node.
pub proof fn lemma_encode_nonempty(e: Expr, start: nat)
    ensures
        encode_nodes(e, start).len() >= 1,
{
    lemma_encode_shape(e, start);
}

/// The nodes of an expression are named after their positions, one after
/// another: `n0`, `n1`, ... from the start of a program.
pub proof fn lemma_encoded_ids(e: Expr, start: nat)
    ensures
        forall|i: int|
            0 <= i < encode_nodes(e, start).len() ==> (#[trigger] encode_nodes(e, start)[i]).id
                == node_id((start + i) as nat),
    decreases e,
{
    lemma_encode_shape(e, start);
    let nodes = encode_nodes(e, start);
    if let Some(pair) = both_children(e) {
        let left = encode_nodes(pair.0, start);
        let right = encode_nodes(pair.1, start + left.len());
        lemma_encoded_ids(pair.0, start);
        lemma_encoded_ids(pair.1, start + left.len());
        assert forall|i: int| 0 <= i < nodes.len() implies (#[trigger] nodes[i]).id == node_id(
            (start + i) as nat,
        ) by {
            if i < left.len() {
                assert(nodes[i] == left[i]);
            } else if i < left.len() + right.len() {
                assert(nodes[i] == right[i - left.len()]);
            }
        }
    } else if let Some(a) = only_child(e) {
        let child = encode_nodes(a, start);
        lemma_encoded_ids(a, start);
        assert forall|i: int| 0 <= i < nodes.len() implies (#[trigger] nodes[i]).id == node_id(
            (start + i) as nat,
        ) by {
            if i < child.len() {
                assert(nodes[i] == child[i]);
            }
        }
    }
}

/// No two nodes of an expression have the same identifier.
pub proof fn lemma_encoded_ids_distinct(e: Expr, start: nat, i: int, j: int)
    requires
        0 <= i < encode_nodes(e, start).len(),
        0 <= j < encode_nodes(e, start).len(),
        i != j,
    ensures
        encode_nodes(e, start)[i].id != encode_nodes(e, start)[j].id,
{
    lemma_encoded_ids(e, start);
    if node_id((start + i) as nat) == node_id((start + j) as nat) {
        lemma_node_id_injective((start + i) as nat, (start + j) as nat);
    }
}

/// The operator of the topmost node of `expr`.
fn top_kind(expr: &Expr) -> (k: OpKind)
    ensures
        k == kind_of(*expr),
{
    match expr {
        Expr::Const(_) => OpKind::Const,
        Expr::X => OpKind::X,
        Expr::Y => OpKind::Y,
        Expr::Z => OpKind::Z,
        Expr::Add(_, _) => OpKind::Add,
        Expr::Sub(_, _) => OpKind::Sub,
        Expr::Mul(_, _) => OpKind::Mul,
        Expr::Div(_, _) => OpKind::Div,
        Expr::Neg(_) => OpKind::Neg,
        Expr::Sin(_) => OpKind::Sin,
        Expr::Cos(_) => OpKind::Cos,
        Expr::Exp(_) => OpKind::Exp,
        Expr::Min(_, _) => OpKind::Min,
        Expr::Max(_, _) => OpKind::Max,
        Expr::SMin { .. } => OpKind::SMin,
        Expr::SMax { .. } => OpKind::SMax,
        Expr::Translate { .. } => OpKind::Translate,
        Expr::RotateZ { .. } => OpKind::RotateZ,
    }
}

/// The parameter that holds `v` under `key`.
fn make_param(key: &str, v: Scalar) -> (p: Param)
    ensures
        p@ == param(key@, v),
{
    let value = if v.is_finite() {
        ParamValue::Number(v)
    } else {
        ParamValue::Other
    };
    Param { key: String::from_str(key), value }
}

/// The parameters of the topmost node of `expr`.
fn top_params(expr: &Expr) -> (ps: Vec<Param>)
    ensures
        param_models(ps@) == params_of(*expr),
{
    let mut ps: Vec<Param> = Vec::new();
    match expr {
        Expr::Const(v) => {
            ps.push(make_param("value", *v));
        },
        Expr::SMin { k, .. } => {
            ps.push(make_param("k", *k));
        },
        Expr::SMax { k, .. } => {
            ps.push(make_param("k", *k));
        },
        Expr::Translate { dx, dy, dz, .. } => {
            ps.push(make_param("dx", *dx));
            ps.push(make_param("dy", *dy));
            ps.push(make_param("dz", *dz));
        },
        Expr::RotateZ { deg, .. } => {
            ps.push(make_param("deg", *deg));
        },
        _ => {},
    }
    assert(param_models(ps@) =~= params_of(*expr));
    ps
}

/// Appends a node, named after its position, and returns its identifier.
fn emit(nodes: &mut Vec<TopologyNode>, kind: OpKind, inputs: Vec<String>, params: Vec<Param>) -> (id:
    String)
    ensures
        node_models(final(nodes)@) == node_models(old(nodes)@).push(
            node_at(old(nodes)@.len(), kind, texts(inputs@), param_models(params@)),
        ),
        id@ == node_id(old(nodes)@.len()),
{
    let id = mint(nodes.len());
    let node = TopologyNode { id: id.clone(), op: tag_text(kind), inputs, params };
    nodes.push(node);
    assert(node_models(final(nodes)@) =~= node_models(old(nodes)@).push(
        node_at(old(nodes)@.len(), kind, texts(inputs@), param_models(params@)),
    ));
    id
}

/// Appends the nodes of `expr` and returns the identifier of the last one,
/// which stands for `expr` itself.
fn walk(expr: &Expr, nodes: &mut Vec<TopologyNode>) -> (id: String)
    ensures
        node_models(final(nodes)@) == node_models(old(nodes)@) + encode_nodes(
            *expr,
            old(nodes)@.len(),
        ),
        id@ == node_id((final(nodes)@.len() - 1) as nat),
    decreases *expr,
{
    let kind = top_kind(expr);
    let params = top_params(expr);
    let ghost before = node_models(nodes@);
    let ghost start = nodes@.len();
    match expr {
        Expr::Add(a, b)
        | Expr::Sub(a, b)
        | Expr::Mul(a, b)
        | Expr::Div(a, b)
        | Expr::Min(a, b)
        | Expr::Max(a, b)
        | Expr::SMin { a, b, .. }
        | Expr::SMax { a, b, .. } => {
            let left_id = walk(a, nodes);
            let ghost left = encode_nodes(**a, start);
            assert(node_models(nodes@).len() == before.len() + left.len());
            assert(nodes@.len() == start + left.len());
            let right_id = walk(b, nodes);
            let ghost right = encode_nodes(**b, start + left.len());
            assert(node_models(nodes@).len() == before.len() + left.len() + right.len());
            assert(nodes@.len() == start + left.len() + right.len());
            let mut inputs: Vec<String> = Vec::new();
            inputs.push(left_id);
            inputs.push(right_id);
            proof {
                lemma_encode_nonempty(**a, start);
                lemma_encode_nonempty(**b, start + left.len());
                assert(texts(inputs@) =~= seq![
                    node_id((start + left.len() - 1) as nat),
                    node_id((start + left.len() + right.len() - 1) as nat),
                ]);
            }
            let id = emit(nodes, kind, inputs, params);
            assert(node_models(nodes@) =~= before + encode_nodes(*expr, start));
            id
        },
        Expr::Neg(a)
        | Expr::Sin(a)
        | Expr::Cos(a)
        | Expr::Exp(a)
        | Expr::Translate { expr: a, .. }
        | Expr::RotateZ { expr: a, .. } => {
            let child_id = walk(a, nodes);
            let ghost child = encode_nodes(**a, start);
            assert(node_models(nodes@).len() == before.len() + child.len());
            assert(nodes@.len() == start + child.len());
            let mut inputs: Vec<String> = Vec::new();
            inputs.push(child_id);
            proof {
                lemma_encode_nonempty(**a, start);
                assert(texts(inputs@) =~= seq![node_id((start + child.len() - 1) as nat)]);
            }
            let id = emit(nodes, kind, inputs, params);
            assert(node_models(nodes@) =~= before + encode_nodes(*expr, start));
            id
        },
        _ => {
            let inputs: Vec<String> = Vec::new();
            assert(texts(inputs@) =~= Seq::empty());
            let id = emit(nodes, kind, inputs, params);
            assert(node_models(nodes@) =~= before + encode_nodes(*expr, start));
            id
        },
    }
}

/// Encodes an expression as a program.
pub fn expr_to_topology(expr: &Expr) -> (p: TopologyProgram)
    ensures
        p@ == encode_program(*expr),
{
    let stock = TopologyProgram::default();
    let mut nodes: Vec<TopologyNode> = Vec::new();
    let root = walk(expr, &mut nodes);
    assert(node_models(nodes@) =~= encode_nodes(*expr, 0));
    TopologyProgram {
        format: stock.format,
        root,
        nodes,
        invariants: stock.invariants,
        signature: stock.signature,
    }
}

} // verus!
