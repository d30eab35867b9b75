//! Decoding: from a topology program to the expression that it stands for.
//!
//! The nodes are read in the order in which they are listed. Each is turned
//! into an expression and recorded under its identifier; a later node of the
//! same identifier replaces an earlier one. The result is the expression
//! recorded under the root.
use vstd::prelude::*;
use vstd::string::StringExecFns;
use crate::expr::{
    box3, box3_field, cylinder, cylinder_field, lower, minus, negated, over, plus, sphere,
    sphere_field, times, torus, torus_field, upper, Expr,
};
use crate::ident::{decimal, push_decimal};
use crate::ops::{op_kind, parse_op, OpKind};
use crate::scalar::Scalar;
use crate::topology::{
    param_models, texts, NodeModel, Param, ParamModel, ParamValue, ProgramModel, TopologyNode,
    TopologyProgram,
};
use crate::validity::{lemma_decodes_iff_valid, valid};

verus! {

/// Why a program could not be decoded.
#[derive(Clone, Debug, PartialEq)]
pub enum DecodeError {
    /// A node names an input that no earlier node defines.
    MissingInput { id: String },
    /// A node does not have as many inputs as its operator takes.
    Arity { op: String, expected: usize },
    /// A node lacks a parameter of its operator, or holds no number there.
    MissingParam { op: String, key: String },
    /// A node names an operator that is not known.
    UnsupportedOp { op: String },
    /// No node defines the root.
    MissingRoot { root: String },
}

/// What a `DecodeError` holds.
pub enum DecodeFault {
    MissingInput { id: Seq<char> },
    Arity { op: Seq<char>, expected: nat },
    MissingParam { op: Seq<char>, key: Seq<char> },
    UnsupportedOp { op: Seq<char> },
    MissingRoot { root: Seq<char> },
}

impl View for DecodeError {
    type V = DecodeFault;

    open spec fn view(&self) -> DecodeFault {
        match self {
            DecodeError::MissingInput { id } => DecodeFault::MissingInput { id: id@ },
            DecodeError::Arity { op, expected } => DecodeFault::Arity {
                op: op@,
                expected: *expected as nat,
            },
            DecodeError::MissingParam { op, key } => DecodeFault::MissingParam {
                op: op@,
                key: key@,
            },
            DecodeError::UnsupportedOp { op } => DecodeFault::UnsupportedOp { op: op@ },
            DecodeError::MissingRoot { root } => DecodeFault::MissingRoot { root: root@ },
        }
    }
}

/// The message of a fault, for a human reader.
pub open spec fn message_text(f: DecodeFault) -> Seq<char> {
    match f {
        DecodeFault::MissingInput { id } => "missing input node: "@ + id,
        DecodeFault::Arity { op, expected } => if expected == 1 {
            op + " expects 1 input"@
        } else {
            "op "@ + op + " expects "@ + decimal(expected) + " inputs"@
        },
        DecodeFault::MissingParam { op, key } => op + " missing numeric "@ + key,
        DecodeFault::UnsupportedOp { op } => "unsupported topology op: "@ + op,
        DecodeFault::MissingRoot { root } => "root node "@ + root + " not found"@,
    }
}

impl DecodeError {
    /// The message of this fault, for a human reader.
    pub fn message(&self) -> (s: String)
        ensures
            s@ == message_text(self@),
    {
        match self {
            DecodeError::MissingInput { id } => {
                let mut s = String::from_str("missing input node: ");
                s.append(id.as_str());
                s
            },
            DecodeError::Arity { op, expected } => {
                if *expected == 1 {
                    let mut s = op.clone();
                    s.append(" expects 1 input");
                    s
                } else {
                    let mut s = String::from_str("op ");
                    s.append(op.as_str());
                    s.append(" expects ");
                    push_decimal(&mut s, *expected);
                    s.append(" inputs");
                    s
                }
            },
            DecodeError::MissingParam { op, key } => {
                let mut s = op.clone();
                s.append(" missing numeric ");
                s.append(key.as_str());
                s
            },
            DecodeError::UnsupportedOp { op } => {
                let mut s = String::from_str("unsupported topology op: ");
                s.append(op.as_str());
                s
            },
            DecodeError::MissingRoot { root } => {
                let mut s = String::from_str("root node ");
                s.append(root.as_str());
                s.append(" not found");
                s
            },
        }
    }
}

/// The outcome `r` of a computation is the outcome `m` that was asked for.
pub open spec fn agrees<T>(r: Result<T, DecodeError>, m: Result<T, DecodeFault>) -> bool {
    match r {
        Ok(v) => m == Ok::<T, DecodeFault>(v),
        Err(e) => m == Err::<T, DecodeFault>(e@),
    }
}

/// The value of the first parameter named `key`.
pub open spec fn find_param(params: Seq<ParamModel>, key: Seq<char>) -> Option<ParamValue>
    decreases params.len(),
{
    if params.len() == 0 {
        None
    } else if params.first().key == key {
        Some(params.first().value)
    } else {
        find_param(params.drop_first(), key)
    }
}

/// The number held under `key`, if there is one.
pub open spec fn number_of(params: Seq<ParamModel>, key: Seq<char>) -> Option<Scalar> {
    match find_param(params, key) {
        Some(ParamValue::Number(v)) => Some(v),
        _ => None,
    }
}

/// The number that `node` holds under `key`, which its operator requires.
pub open spec fn need_number(node: NodeModel, key: Seq<char>) -> Result<Scalar, DecodeFault> {
    match number_of(node.params, key) {
        Some(v) => Ok(v),
        None => Err(DecodeFault::MissingParam { op: node.op, key }),
    }
}

/// The expression recorded under `id`.
pub open spec fn need_input(table: Map<Seq<char>, Expr>, id: Seq<char>) -> Result<
    Expr,
    DecodeFault,
> {
    if table.contains_key(id) {
        Ok(table[id])
    } else {
        Err(DecodeFault::MissingInput { id })
    }
}

/// The one input of a node whose operator takes one.
pub open spec fn need_single(node: NodeModel, table: Map<Seq<char>, Expr>) -> Result<
    Expr,
    DecodeFault,
> {
    if node.inputs.len() != 1 {
        Err(DecodeFault::Arity { op: node.op, expected: 1 })
    } else {
        need_input(table, node.inputs[0])
    }
}

/// The two inputs of a node whose operator takes two, the first one looked
/// up first.
pub open spec fn need_pair(node: NodeModel, table: Map<Seq<char>, Expr>) -> Result<
    (Expr, Expr),
    DecodeFault,
> {
    if node.inputs.len() != 2 {
        Err(DecodeFault::Arity { op: node.op, expected: 2 })
    } else {
        match need_input(table, node.inputs[0]) {
            Err(f) => Err(f),
            Ok(a) => match need_input(table, node.inputs[1]) {
                Err(f) => Err(f),
                Ok(b) => Ok((a, b)),
            },
        }
    }
}

/// Whether the operator joins two inputs and has no parameter.
pub open spec fn is_binary(kind: OpKind) -> bool {
    kind == OpKind::Add || kind == OpKind::Sub || kind == OpKind::Mul || kind == OpKind::Div
        || kind == OpKind::Min || kind == OpKind::Max || kind == OpKind::Union || kind
        == OpKind::Intersect || kind == OpKind::Difference
}

/// Whether the operator acts on one input and has no parameter.
pub open spec fn is_unary(kind: OpKind) -> bool {
    kind == OpKind::Neg || kind == OpKind::Sin || kind == OpKind::Cos || kind == OpKind::Exp
}

/// The expression that a binary operator makes of `a` and `b`. The Boolean
/// aliases stand for `min`, `max` and `max(a, -b)`.
pub open spec fn binary_tree(kind: OpKind, a: Expr, b: Expr) -> Expr
    recommends
        is_binary(kind),
{
    match kind {
        OpKind::Add => plus(a, b),
        OpKind::Sub => minus(a, b),
        OpKind::Mul => times(a, b),
        OpKind::Div => over(a, b),
        OpKind::Min => lower(a, b),
        OpKind::Max => upper(a, b),
        OpKind::Union => lower(a, b),
        OpKind::Intersect => upper(a, b),
        _ => upper(a, negated(b)),
    }
}

/// The expression that a unary operator makes of `a`.
pub open spec fn unary_tree(kind: OpKind, a: Expr) -> Expr
    recommends
        is_unary(kind),
{
    match kind {
        OpKind::Neg => Expr::Neg(Box::new(a)),
        OpKind::Sin => Expr::Sin(Box::new(a)),
        OpKind::Cos => Expr::Cos(Box::new(a)),
        _ => Expr::Exp(Box::new(a)),
    }
}

/// A leaf or a shape primitive: no inputs are read, only parameters, in the
/// order in which the operator lists them.
pub open spec fn decode_leaf(kind: OpKind, node: NodeModel) -> Result<Expr, DecodeFault> {
    match kind {
        OpKind::Const => match need_number(node, "value"@) {
            Err(f) => Err(f),
            Ok(v) => Ok(Expr::Const(v)),
        },
        OpKind::X => Ok(Expr::X),
        OpKind::Y => Ok(Expr::Y),
        OpKind::Z => Ok(Expr::Z),
        OpKind::Sphere => match need_number(node, "r"@) {
            Err(f) => Err(f),
            Ok(r) => Ok(sphere_field(r)),
        },
        OpKind::Cylinder => match need_number(node, "r"@) {
            Err(f) => Err(f),
            Ok(r) => match need_number(node, "h"@) {
                Err(f) => Err(f),
                Ok(h) => Ok(cylinder_field(r, h)),
            },
        },
        OpKind::Box3 => match need_number(node, "sx"@) {
            Err(f) => Err(f),
            Ok(sx) => match need_number(node, "sy"@) {
                Err(f) => Err(f),
                Ok(sy) => match need_number(node, "sz"@) {
                    Err(f) => Err(f),
                    Ok(sz) => Ok(box3_field(sx, sy, sz)),
                },
            },
        },
        _ => match need_number(node, "major_r"@) {
            Err(f) => Err(f),
            Ok(major_r) => match need_number(node, "minor_r"@) {
                Err(f) => Err(f),
                Ok(minor_r) => Ok(torus_field(major_r, minor_r)),
            },
        },
    }
}

/// A smooth union or intersection: two inputs, then the blend radius `k`.
pub open spec fn decode_smooth(kind: OpKind, node: NodeModel, table: Map<Seq<char>, Expr>) -> Result<
    Expr,
    DecodeFault,
> {
    match need_pair(node, table) {
        Err(f) => Err(f),
        Ok(pair) => match need_number(node, "k"@) {
            Err(f) => Err(f),
            Ok(k) => if kind == OpKind::SMin {
                Ok(Expr::SMin { a: Box::new(pair.0), b: Box::new(pair.1), k })
            } else {
                Ok(Expr::SMax { a: Box::new(pair.0), b: Box::new(pair.1), k })
            },
        },
    }
}

/// A translation: one input, then `dx`, `dy` and `dz`.
pub open spec fn decode_translate(node: NodeModel, table: Map<Seq<char>, Expr>) -> Result<
    Expr,
    DecodeFault,
> {
    match need_single(node, table) {
        Err(f) => Err(f),
        Ok(e) => match need_number(node, "dx"@) {
            Err(f) => Err(f),
            Ok(dx) => match need_number(node, "dy"@) {
                Err(f) => Err(f),
                Ok(dy) => match need_number(node, "dz"@) {
                    Err(f) => Err(f),
                    Ok(dz) => Ok(Expr::Translate { expr: Box::new(e), dx, dy, dz }),
                },
            },
        },
    }
}

/// A rotation about the z axis: one input, then `deg`.
pub open spec fn decode_rotate(node: NodeModel, table: Map<Seq<char>, Expr>) -> Result<
    Expr,
    DecodeFault,
> {
    match need_single(node, table) {
        Err(f) => Err(f),
        Ok(e) => match need_number(node, "deg"@) {
            Err(f) => Err(f),
            Ok(deg) => Ok(Expr::RotateZ { expr: Box::new(e), deg }),
        },
    }
}

/// The expression that `node` stands for, given what the nodes before it
/// recorded in `table`.
pub open spec fn decode_node(node: NodeModel, table: Map<Seq<char>, Expr>) -> Result<
    Expr,
    DecodeFault,
> {
    match op_kind(node.op) {
        None => Err(DecodeFault::UnsupportedOp { op: node.op }),
        Some(kind) => if is_binary(kind) {
            match need_pair(node, table) {
                Err(f) => Err(f),
                Ok(pair) => Ok(binary_tree(kind, pair.0, pair.1)),
            }
        } else if is_unary(kind) {
            match need_single(node, table) {
                Err(f) => Err(f),
                Ok(a) => Ok(unary_tree(kind, a)),
            }
        } else if kind == OpKind::SMin || kind == OpKind::SMax {
            decode_smooth(kind, node, table)
        } else if kind == OpKind::Translate {
            decode_translate(node, table)
        } else if kind == OpKind::RotateZ {
            decode_rotate(node, table)
        } else {
            decode_leaf(kind, node)
        },
    }
}

/// What the nodes record, read from first to last; the first fault ends
/// the reading.
pub open spec fn decode_all(nodes: Seq<NodeModel>) -> Result<Map<Seq<char>, Expr>, DecodeFault>
    decreases nodes.len(),
{
    if nodes.len() == 0 {
        Ok(Map::empty())
    } else {
        match decode_all(nodes.drop_last()) {
            Err(f) => Err(f),
            Ok(table) => match decode_node(nodes.last(), table) {
                Err(f) => Err(f),
                Ok(e) => Ok(table.insert(nodes.last().id, e)),
            },
        }
    }
}

/// The expression that a program stands for.
pub open spec fn decode_program(p: ProgramModel) -> Result<Expr, DecodeFault> {
    match decode_all(p.nodes) {
        Err(f) => Err(f),
        Ok(table) => if table.contains_key(p.root) {
            Ok(table[p.root])
        } else {
            Err(DecodeFault::MissingRoot { root: p.root })
        },
    }
}

/// A fault among the first `n` nodes is the fault of the whole list.
pub proof fn lemma_fault_persists(nodes: Seq<NodeModel>, n: int)
    requires
        0 <= n <= nodes.len(),
        decode_all(nodes.take(n)) is Err,
    ensures
        decode_all(nodes) == decode_all(nodes.take(n)),
    decreases nodes.len() - n,
{
    if n == nodes.len() {
        assert(nodes.take(n) =~= nodes);
    } else {
        assert(nodes.take(n + 1).drop_last() =~= nodes.take(n));
        lemma_fault_persists(nodes, n + 1);
    }
}

/// The table that holds `exprs[i]` under `ids[i]`, a later entry replacing
/// an earlier one of the same identifier.
spec fn table_of(ids: Seq<Seq<char>>, exprs: Seq<Expr>) -> Map<Seq<char>, Expr>
    decreases ids.len(),
{
    if ids.len() == 0 || exprs.len() == 0 {
        Map::empty()
    } else {
        table_of(ids.drop_last(), exprs.drop_last()).insert(ids.last(), exprs.last())
    }
}

/// The number that `params` holds under `key`, if there is one.
fn number_param(params: &Vec<Param>, key: &str) -> (r: Option<Scalar>)
    ensures
        r == number_of(param_models(params@), key@),
{
    let wanted = String::from_str(key);
    let ghost all = param_models(params@);
    let mut i: usize = 0;
    assert(all.skip(0) =~= all);
    while i < params.len()
        invariant
            i <= params.len(),
            wanted@ == key@,
            all == param_models(params@),
            find_param(all, key@) == find_param(all.skip(i as int), key@),
        decreases params.len() - i,
    {
        let ghost rest = all.skip(i as int);
        assert(rest.first() == params@[i as int]@);
        assert(rest.drop_first() =~= all.skip(i + 1));
        if params[i].key == wanted {
            return match params[i].value {
                ParamValue::Number(v) => Some(v),
                ParamValue::Other => None,
            };
        }
        i += 1;
    }
    assert(all.skip(i as int).len() == 0);
    None
}

/// The number that `node` holds under `key`, which its operator requires.
fn require_number(node: &TopologyNode, key: &str) -> (r: Result<Scalar, DecodeError>)
    ensures
        agrees(r, need_number(node@, key@)),
{
    match number_param(&node.params, key) {
        Some(v) => Ok(v),
        None => Err(DecodeError::MissingParam { op: node.op.clone(), key: String::from_str(key) }),
    }
}

/// A copy of the expression recorded under `key`, if there is one.
fn lookup(ids: &Vec<String>, exprs: &Vec<Expr>, key: &String) -> (r: Option<Expr>)
    requires
        ids.len() == exprs.len(),
    ensures
        r == (if table_of(texts(ids@), exprs@).contains_key(key@) {
            Some(table_of(texts(ids@), exprs@)[key@])
        } else {
            None
        }),
{
    let ghost names = texts(ids@);
    let ghost whole = table_of(names, exprs@);
    let mut i: usize = ids.len();
    assert(names.take(i as int) =~= names);
    assert(exprs@.take(i as int) =~= exprs@);
    while i > 0
        invariant
            i <= ids.len(),
            ids.len() == exprs.len(),
            names == texts(ids@),
            whole == table_of(names, exprs@),
            whole.contains_key(key@) == table_of(
                names.take(i as int),
                exprs@.take(i as int),
            ).contains_key(key@),
            whole.contains_key(key@) ==> whole[key@] == table_of(
                names.take(i as int),
                exprs@.take(i as int),
            )[key@],
        decreases i,
    {
        assert(names.take(i as int).drop_last() =~= names.take(i - 1));
        assert(exprs@.take(i as int).drop_last() =~= exprs@.take(i - 1));
        assert(names.take(i as int).last() == ids@[i - 1]@);
        assert(exprs@.take(i as int).last() == exprs@[i - 1]);
        i -= 1;
        if ids[i] == *key {
            return Some(exprs[i].duplicate());
        }
    }
    None
}

/// The expression recorded under `id`.
fn require_input(ids: &Vec<String>, exprs: &Vec<Expr>, id: &String) -> (r: Result<
    Expr,
    DecodeError,
>)
    requires
        ids.len() == exprs.len(),
    ensures
        agrees(r, need_input(table_of(texts(ids@), exprs@), id@)),
{
    match lookup(ids, exprs, id) {
        Some(e) => Ok(e),
        None => Err(DecodeError::MissingInput { id: id.clone() }),
    }
}

/// The one input of a node whose operator takes one.
fn require_single(node: &TopologyNode, ids: &Vec<String>, exprs: &Vec<Expr>) -> (r: Result<
    Expr,
    DecodeError,
>)
    requires
        ids.len() == exprs.len(),
    ensures
        agrees(r, need_single(node@, table_of(texts(ids@), exprs@))),
{
    if node.inputs.len() != 1 {
        return Err(DecodeError::Arity { op: node.op.clone(), expected: 1 });
    }
    require_input(ids, exprs, &node.inputs[0])
}

/// The two inputs of a node whose operator takes two.
fn require_pair(node: &TopologyNode, ids: &Vec<String>, exprs: &Vec<Expr>) -> (r: Result<
    (Expr, Expr),
    DecodeError,
>)
    requires
        ids.len() == exprs.len(),
    ensures
        agrees(r, need_pair(node@, table_of(texts(ids@), exprs@))),
{
    if node.inputs.len() != 2 {
        return Err(DecodeError::Arity { op: node.op.clone(), expected: 2 });
    }
    let a = match require_input(ids, exprs, &node.inputs[0]) {
        Err(e) => {
            return Err(e);
        },
        Ok(a) => a,
    };
    match require_input(ids, exprs, &node.inputs[1]) {
        Err(e) => Err(e),
        Ok(b) => Ok((a, b)),
    }
}

/// The expression that a binary operator makes of `a` and `b`.
fn build_binary(kind: OpKind, a: Expr, b: Expr) -> (r: Expr)
    requires
        is_binary(kind),
    ensures
        r == binary_tree(kind, a, b),
{
    match kind {
        OpKind::Add => Expr::Add(Box::new(a), Box::new(b)),
        OpKind::Sub => Expr::Sub(Box::new(a), Box::new(b)),
        OpKind::Mul => Expr::Mul(Box::new(a), Box::new(b)),
        OpKind::Div => Expr::Div(Box::new(a), Box::new(b)),
        OpKind::Min => Expr::Min(Box::new(a), Box::new(b)),
        OpKind::Max => Expr::Max(Box::new(a), Box::new(b)),
        OpKind::Union => Expr::Min(Box::new(a), Box::new(b)),
        OpKind::Intersect => Expr::Max(Box::new(a), Box::new(b)),
        _ => Expr::Max(Box::new(a), Box::new(Expr::Neg(Box::new(b)))),
    }
}

/// The expression that a unary operator makes of `a`.
fn build_unary(kind: OpKind, a: Expr) -> (r: Expr)
    requires
        is_unary(kind),
    ensures
        r == unary_tree(kind, a),
{
    match kind {
        OpKind::Neg => Expr::Neg(Box::new(a)),
        OpKind::Sin => Expr::Sin(Box::new(a)),
        OpKind::Cos => Expr::Cos(Box::new(a)),
        _ => Expr::Exp(Box::new(a)),
    }
}

/// A leaf or a shape primitive.
fn build_leaf(kind: OpKind, node: &TopologyNode) -> (r: Result<Expr, DecodeError>)
    ensures
        agrees(r, decode_leaf(kind, node@)),
{
    match kind {
        OpKind::Const => match require_number(node, "value") {
            Err(e) => Err(e),
            Ok(v) => Ok(Expr::Const(v)),
        },
        OpKind::X => Ok(Expr::X),
        OpKind::Y => Ok(Expr::Y),
        OpKind::Z => Ok(Expr::Z),
        OpKind::Sphere => match require_number(node, "r") {
            Err(e) => Err(e),
            Ok(r) => Ok(sphere(r)),
        },
        OpKind::Cylinder => match require_number(node, "r") {
            Err(e) => Err(e),
            Ok(r) => match require_number(node, "h") {
                Err(e) => Err(e),
                Ok(h) => Ok(cylinder(r, h)),
            },
        },
        OpKind::Box3 => match require_number(node, "sx") {
            Err(e) => Err(e),
            Ok(sx) => match require_number(node, "sy") {
                Err(e) => Err(e),
                Ok(sy) => match require_number(node, "sz") {
                    Err(e) => Err(e),
                    Ok(sz) => Ok(box3(sx, sy, sz)),
                },
            },
        },
        _ => match require_number(node, "major_r") {
            Err(e) => Err(e),
            Ok(major_r) => match require_number(node, "minor_r") {
                Err(e) => Err(e),
                Ok(minor_r) => Ok(torus(major_r, minor_r)),
            },
        },
    }
}

/// A smooth union or intersection.
fn build_smooth(kind: OpKind, node: &TopologyNode, ids: &Vec<String>, exprs: &Vec<Expr>) -> (r:
    Result<Expr, DecodeError>)
    requires
        ids.len() == exprs.len(),
    ensures
        agrees(r, decode_smooth(kind, node@, table_of(texts(ids@), exprs@))),
{
    let (a, b) = match require_pair(node, ids, exprs) {
        Err(e) => {
            return Err(e);
        },
        Ok(pair) => pair,
    };
    match require_number(node, "k") {
        Err(e) => Err(e),
        Ok(k) => match kind {
            OpKind::SMin => Ok(Expr::SMin { a: Box::new(a), b: Box::new(b), k }),
            _ => Ok(Expr::SMax { a: Box::new(a), b: Box::new(b), k }),
        },
    }
}

/// A translation.
fn build_translate(node: &TopologyNode, ids: &Vec<String>, exprs: &Vec<Expr>) -> (r: Result<
    Expr,
    DecodeError,
>)
    requires
        ids.len() == exprs.len(),
    ensures
        agrees(r, decode_translate(node@, table_of(texts(ids@), exprs@))),
{
    let e = match require_single(node, ids, exprs) {
        Err(e) => {
            return Err(e);
        },
        Ok(e) => e,
    };
    let dx = match require_number(node, "dx") {
        Err(e) => {
            return Err(e);
        },
        Ok(v) => v,
    };
    let dy = match require_number(node, "dy") {
        Err(e) => {
            return Err(e);
        },
        Ok(v) => v,
    };
    match require_number(node, "dz") {
        Err(e) => Err(e),
        Ok(dz) => Ok(Expr::Translate { expr: Box::new(e), dx, dy, dz }),
    }
}

/// A rotation about the z axis.
fn build_rotate(node: &TopologyNode, ids: &Vec<String>, exprs: &Vec<Expr>) -> (r: Result<
    Expr,
    DecodeError,
>)
    requires
        ids.len() == exprs.len(),
    ensures
        agrees(r, decode_rotate(node@, table_of(texts(ids@), exprs@))),
{
    let e = match require_single(node, ids, exprs) {
        Err(e) => {
            return Err(e);
        },
        Ok(e) => e,
    };
    match require_number(node, "deg") {
        Err(e) => Err(e),
        Ok(deg) => Ok(Expr::RotateZ { expr: Box::new(e), deg }),
    }
}

/// The expression that `node` stands for, given what the nodes before it
/// recorded.
fn build_node(node: &TopologyNode, ids: &Vec<String>, exprs: &Vec<Expr>) -> (r: Result<
    Expr,
    DecodeError,
>)
    requires
        ids.len() == exprs.len(),
    ensures
        agrees(r, decode_node(node@, table_of(texts(ids@), exprs@))),
{
    let kind = match parse_op(&node.op) {
        None => {
            return Err(DecodeError::UnsupportedOp { op: node.op.clone() });
        },
        Some(kind) => kind,
    };
    match kind {
        OpKind::Add
        | OpKind::Sub
        | OpKind::Mul
        | OpKind::Div
        | OpKind::Min
        | OpKind::Max
        | OpKind::Union
        | OpKind::Intersect
        | OpKind::Difference => match require_pair(node, ids, exprs) {
            Err(e) => Err(e),
            Ok(pair) => Ok(build_binary(kind, pair.0, pair.1)),
        },
        OpKind::Neg | OpKind::Sin | OpKind::Cos | OpKind::Exp => match require_single(
            node,
            ids,
            exprs,
        ) {
            Err(e) => Err(e),
            Ok(a) => Ok(build_unary(kind, a)),
        },
        OpKind::SMin | OpKind::SMax => build_smooth(kind, node, ids, exprs),
        OpKind::Translate => build_translate(node, ids, exprs),
        OpKind::RotateZ => build_rotate(node, ids, exprs),
        _ => build_leaf(kind, node),
    }
}

/// Decodes a program.
///
/// Succeeds exactly when the program is well formed: every node names a
/// known operator, has as many inputs as the operator takes, each defined
/// by an earlier node, holds a number under each parameter of the operator,
/// and some node defines the root. Otherwise the fault of the first node
/// that has one is returned, or that of the root.
pub fn compile(program: &TopologyProgram) -> (r: Result<Expr, DecodeError>)
    ensures
        agrees(r, decode_program(program@)),
        r is Ok <==> valid(program@),
{
    proof {
        lemma_decodes_iff_valid(program@);
    }
    let mut ids: Vec<String> = Vec::new();
    let mut exprs: Vec<Expr> = Vec::new();
    let ghost nodes = program@.nodes;
    let mut i: usize = 0;
    assert(nodes.take(0) =~= Seq::empty());
    assert(texts(ids@) =~= Seq::empty());
    while i < program.nodes.len()
        invariant
            i <= program.nodes.len(),
            nodes == program@.nodes,
            ids.len() == exprs.len(),
            decode_program(program@) is Ok <==> valid(program@),
            decode_all(nodes.take(i as int)) == Ok::<Map<Seq<char>, Expr>, DecodeFault>(
                table_of(texts(ids@), exprs@),
            ),
        decreases program.nodes.len() - i,
    {
        let node = &program.nodes[i];
        assert(nodes.take(i + 1).drop_last() =~= nodes.take(i as int));
        assert(nodes.take(i + 1).last() == node@);
        match build_node(node, &ids, &exprs) {
            Err(e) => {
                proof {
                    lemma_fault_persists(nodes, i + 1);
                }
                return Err(e);
            },
            Ok(expr) => {
                let ghost names_before = texts(ids@);
                let ghost exprs_before = exprs@;
                ids.push(node.id.clone());
                exprs.push(expr);
                assert(texts(ids@).drop_last() =~= names_before);
                assert(exprs@.drop_last() =~= exprs_before);
                assert(texts(ids@).last() == node@.id);
            },
        }
        i += 1;
    }
    assert(nodes.take(i as int) =~= nodes);
    match lookup(&ids, &exprs, &program.root) {
        Some(e) => Ok(e),
        None => Err(DecodeError::MissingRoot { root: program.root.clone() }),
    }
}

/// What decoding returns to a caller who reads faults as text: the
/// expression, or the message of the fault.
pub open spec fn decoded_or_message(p: ProgramModel) -> Result<Expr, Seq<char>> {
    match decode_program(p) {
        Ok(e) => Ok(e),
        Err(f) => Err(message_text(f)),
    }
}

/// Decodes a program, as `compile` does, and reports a fault by its
/// message.
pub fn topology_to_expr(program: &TopologyProgram) -> (r: Result<Expr, String>)
    ensures
        match r {
            Ok(e) => decoded_or_message(program@) == Ok::<Expr, Seq<char>>(e),
            Err(m) => decoded_or_message(program@) == Err::<Expr, Seq<char>>(m@),
        },
        r is Ok <==> valid(program@),
{
    match compile(program) {
        Ok(e) => Ok(e),
        Err(fault) => Err(fault.message()),
    }
}

} // verus!
