//! Decoding undoes encoding.
use vstd::prelude::*;
use crate::decode::{
    decode_all, decode_node, decode_program, find_param, lemma_fault_persists, need_number,
    need_pair, need_single, DecodeFault,
};
use crate::encode::{
    both_children, encode_nodes, encode_program, kind_of, lemma_encode_shape, node_at,
    only_child, param, params_of, written,
};
use crate::expr::Expr;
use crate::ident::{lemma_node_id_injective, node_id};
use crate::ops::{lemma_tag_names_kind, tag};
use crate::topology::NodeModel;

verus! {

/// Whether the literal data of the topmost node of `e` are finite.
pub open spec fn top_finite(e: Expr) -> bool {
    match e {
        Expr::Const(v) => v.finite(),
        Expr::SMin { k, .. } => k.finite(),
        Expr::SMax { k, .. } => k.finite(),
        Expr::Translate { dx, dy, dz, .. } => dx.finite() && dy.finite() && dz.finite(),
        Expr::RotateZ { deg, .. } => deg.finite(),
        _ => true,
    }
}

/// Whether every number in `e` is finite: neither an infinity nor a NaN.
pub open spec fn all_finite(e: Expr) -> bool
    decreases e,
{
    match e {
        Expr::Add(a, b)
        | Expr::Sub(a, b)
        | Expr::Mul(a, b)
        | Expr::Div(a, b)
        | Expr::Min(a, b)
        | Expr::Max(a, b)
        | Expr::SMin { a, b, .. }
        | Expr::SMax { a, b, .. } => top_finite(e) && all_finite(*a) && all_finite(*b),
        Expr::Neg(a)
        | Expr::Sin(a)
        | Expr::Cos(a)
        | Expr::Exp(a)
        | Expr::Translate { expr: a, .. }
        | Expr::RotateZ { expr: a, .. } => top_finite(e) && all_finite(*a),
        _ => top_finite(e),
    }
}

/// An expression is finite when its topmost node and its inputs are.
proof fn lemma_all_finite_shape(e: Expr)
    ensures
        both_children(e) matches Some(pair) ==> all_finite(e) == (top_finite(e) && all_finite(
            pair.0,
        ) && all_finite(pair.1)),
        only_child(e) matches Some(a) ==> all_finite(e) == (top_finite(e) && all_finite(a)),
        both_children(e) is None && only_child(e) is None ==> all_finite(e) == top_finite(e),
{
}

/// What the three parameters of a translation hold under each of their
/// keys.
proof fn lemma_translate_params(e: Expr)
    requires
        e is Translate,
    ensures
        find_param(params_of(e), "dx"@) == Some(written(e->dx)),
        find_param(params_of(e), "dy"@) == Some(written(e->dy)),
        find_param(params_of(e), "dz"@) == Some(written(e->dz)),
{
    reveal_strlit("dx");
    reveal_strlit("dy");
    reveal_strlit("dz");
    let ps = params_of(e);
    let rest = ps.drop_first();
    let last = rest.drop_first();
    assert(rest =~= seq![param("dy"@, e->dy), param("dz"@, e->dz)]);
    assert(last =~= seq![param("dz"@, e->dz)]);
    assert("dx"@[1] != "dy"@[1]);
    assert("dx"@[1] != "dz"@[1]);
    assert("dy"@[1] != "dz"@[1]);
    assert(find_param(last, "dz"@) == Some(written(e->dz)));
    assert(find_param(rest, "dz"@) == Some(written(e->dz)));
    assert(find_param(rest, "dy"@) == Some(written(e->dy)));
}

/// The parameters written for a node hold, under each key that decoding
/// reads, the number that the node had.
proof fn lemma_params_read_back(e: Expr, node: NodeModel)
    requires
        top_finite(e),
        node.params == params_of(e),
    ensures
        e matches Expr::Const(v) ==> need_number(node, "value"@) == Ok::<_, DecodeFault>(v),
        e matches Expr::SMin { k, .. } ==> need_number(node, "k"@) == Ok::<_, DecodeFault>(k),
        e matches Expr::SMax { k, .. } ==> need_number(node, "k"@) == Ok::<_, DecodeFault>(k),
        e matches Expr::RotateZ { deg, .. } ==> need_number(node, "deg"@) == Ok::<_, DecodeFault>(
            deg,
        ),
        e matches Expr::Translate { dx, dy, dz, .. } ==> {
            &&& need_number(node, "dx"@) == Ok::<_, DecodeFault>(dx)
            &&& need_number(node, "dy"@) == Ok::<_, DecodeFault>(dy)
            &&& need_number(node, "dz"@) == Ok::<_, DecodeFault>(dz)
        },
{
    if e is Translate {
        lemma_translate_params(e);
    }
}

/// A leaf is read back from its own node.
proof fn lemma_leaf_read_back(e: Expr, at: nat, table: Map<Seq<char>, Expr>)
    requires
        top_finite(e),
        both_children(e) is None,
        only_child(e) is None,
    ensures
        decode_node(node_at(at, kind_of(e), Seq::empty(), params_of(e)), table) == Ok::<
            _,
            DecodeFault,
        >(e),
{
    let node = node_at(at, kind_of(e), Seq::empty(), params_of(e));
    lemma_tag_names_kind(kind_of(e));
    lemma_params_read_back(e, node);
}

/// A node with one input is read back, once its input has been.
proof fn lemma_one_read_back(e: Expr, a: Expr, at: nat, input: Seq<char>, table: Map<Seq<char>, Expr>)
    requires
        top_finite(e),
        only_child(e) == Some(a),
        table.contains_key(input),
        table[input] == a,
    ensures
        decode_node(node_at(at, kind_of(e), seq![input], params_of(e)), table) == Ok::<
            _,
            DecodeFault,
        >(e),
{
    let node = node_at(at, kind_of(e), seq![input], params_of(e));
    lemma_tag_names_kind(kind_of(e));
    lemma_params_read_back(e, node);
    assert(node.inputs.len() == 1);
    assert(node.inputs[0] == input);
    assert(need_single(node, table) == Ok::<_, DecodeFault>(a));
}

/// A node with two inputs is read back, once its inputs have been.
proof fn lemma_two_read_back(
    e: Expr,
    a: Expr,
    b: Expr,
    at: nat,
    left: Seq<char>,
    right: Seq<char>,
    table: Map<Seq<char>, Expr>,
)
    requires
        top_finite(e),
        both_children(e) == Some((a, b)),
        table.contains_key(left),
        table[left] == a,
        table.contains_key(right),
        table[right] == b,
    ensures
        decode_node(node_at(at, kind_of(e), seq![left, right], params_of(e)), table) == Ok::<
            _,
            DecodeFault,
        >(e),
{
    let node = node_at(at, kind_of(e), seq![left, right], params_of(e));
    lemma_tag_names_kind(kind_of(e));
    lemma_params_read_back(e, node);
    assert(node.inputs.len() == 2);
    assert(node.inputs[0] == left);
    assert(node.inputs[1] == right);
    assert(need_pair(node, table) == Ok::<_, DecodeFault>((a, b)));
}

/// What `before` records for the nodes at positions below `upto`, `after`
/// records too.
#[verifier::opaque]
spec fn keeps(before: Map<Seq<char>, Expr>, after: Map<Seq<char>, Expr>, upto: nat) -> bool {
    forall|j: nat|
        j < upto && before.contains_key(#[trigger] node_id(j)) ==> after.contains_key(node_id(j))
            && after[node_id(j)] == before[node_id(j)]
}

/// What is kept for one position.
proof fn lemma_keeps_at(
    before: Map<Seq<char>, Expr>,
    after: Map<Seq<char>, Expr>,
    upto: nat,
    j: nat,
)
    requires
        keeps(before, after, upto),
        j < upto,
        before.contains_key(node_id(j)),
    ensures
        after.contains_key(node_id(j)),
        after[node_id(j)] == before[node_id(j)],
{
    reveal(keeps);
}

/// Keeping is transitive, downwards in the position.
proof fn lemma_keeps_chain(
    t0: Map<Seq<char>, Expr>,
    t1: Map<Seq<char>, Expr>,
    t2: Map<Seq<char>, Expr>,
    upto: nat,
    mid: nat,
)
    requires
        keeps(t0, t1, upto),
        keeps(t1, t2, mid),
        upto <= mid,
    ensures
        keeps(t0, t2, upto),
{
    reveal(keeps);
}

/// Reading one more node, named after a position from `upto` on, where the
/// nodes before it and the node itself are read without fault.
proof fn lemma_decode_push(
    nodes: Seq<NodeModel>,
    node: NodeModel,
    table: Map<Seq<char>, Expr>,
    e: Expr,
    at: nat,
    upto: nat,
)
    requires
        decode_all(nodes) == Ok::<_, DecodeFault>(table),
        decode_node(node, table) == Ok::<_, DecodeFault>(e),
        node.id == node_id(at),
        upto <= at,
    ensures
        decode_all(nodes.push(node)) == Ok::<_, DecodeFault>(table.insert(node_id(at), e)),
        table.insert(node_id(at), e).contains_key(node_id(at)),
        table.insert(node_id(at), e)[node_id(at)] == e,
        keeps(table, table.insert(node_id(at), e), upto),
{
    reveal(keeps);
    assert(nodes.push(node).drop_last() =~= nodes);
    let after = table.insert(node_id(at), e);
    assert forall|j: nat| j < upto && table.contains_key(#[trigger] node_id(j)) implies
        after.contains_key(node_id(j)) && after[node_id(j)] == table[node_id(j)] by {
        if node_id(j) == node_id(at) {
            lemma_node_id_injective(j, at);
        }
    }
}

/// The nodes of `e` behind those of `prefix`.
spec fn behind(prefix: Seq<NodeModel>, e: Expr) -> Seq<NodeModel> {
    prefix + encode_nodes(e, prefix.len())
}

/// The node that stands for `e` itself, when the nodes of its inputs, if
/// any, end the list `before`.
spec fn top_node(e: Expr, before: Seq<NodeModel>) -> NodeModel {
    let inputs = if let Some(pair) = both_children(e) {
        seq![
            node_id((before.len() - encode_nodes(pair.1, 0).len() - 1) as nat),
            node_id((before.len() - 1) as nat),
        ]
    } else if only_child(e) is Some {
        seq![node_id((before.len() - 1) as nat)]
    } else {
        Seq::empty()
    };
    node_at(before.len(), kind_of(e), inputs, params_of(e))
}

/// How many nodes an expression has does not depend on where they start.
proof fn lemma_encode_len(e: Expr, start: nat, other: nat)
    ensures
        encode_nodes(e, start).len() == encode_nodes(e, other).len(),
        encode_nodes(e, start).len() >= 1,
    decreases e,
{
    lemma_encode_shape(e, start);
    lemma_encode_shape(e, other);
    if let Some(pair) = both_children(e) {
        lemma_encode_len(pair.0, start, other);
        lemma_encode_len(
            pair.1,
            start + encode_nodes(pair.0, start).len(),
            other + encode_nodes(pair.0, other).len(),
        );
    } else if let Some(a) = only_child(e) {
        lemma_encode_len(a, start, other);
    }
}

/// The nodes of `e` behind `prefix` are those of its inputs behind
/// `prefix`, one input after the other, and then its own node.
proof fn lemma_behind_shape(e: Expr, prefix: Seq<NodeModel>)
    ensures
        both_children(e) matches Some(pair) ==> {
            let inner = behind(behind(prefix, pair.0), pair.1);
            &&& behind(prefix, e) == inner.push(top_node(e, inner))
            &&& behind(prefix, pair.0).len() == inner.len() - encode_nodes(pair.1, 0).len()
            &&& behind(prefix, pair.0).len() > prefix.len()
            &&& inner.len() > behind(prefix, pair.0).len()
        },
        only_child(e) matches Some(a) ==> {
            let inner = behind(prefix, a);
            &&& behind(prefix, e) == inner.push(top_node(e, inner))
            &&& inner.len() > prefix.len()
        },
        both_children(e) is None && only_child(e) is None ==> behind(prefix, e) == prefix.push(
            top_node(e, prefix),
        ),
{
    let s = prefix.len();
    lemma_encode_shape(e, s);
    if let Some(pair) = both_children(e) {
        let na = encode_nodes(pair.0, s);
        let nb = encode_nodes(pair.1, s + na.len());
        lemma_encode_len(pair.0, s, 0);
        lemma_encode_len(pair.1, s + na.len(), 0);
        let inner = behind(behind(prefix, pair.0), pair.1);
        assert(behind(prefix, pair.0).len() == s + na.len());
        assert(inner =~= (prefix + na) + nb);
        assert(behind(prefix, e) =~= inner.push(top_node(e, inner)));
    } else if let Some(a) = only_child(e) {
        let na = encode_nodes(a, s);
        lemma_encode_len(a, s, 0);
        let inner = behind(prefix, a);
        assert(behind(prefix, e) =~= inner.push(top_node(e, inner)));
    } else {
        assert(behind(prefix, e) =~= prefix.push(top_node(e, prefix)));
    }
}

/// The nodes of `e`, written behind any list of nodes that is read without
/// fault, are read without fault too. They record `e` under the identifier
/// of the last of them, and leave what the earlier nodes recorded as it was.
proof fn lemma_read_back_behind(e: Expr, prefix: Seq<NodeModel>, table: Map<Seq<char>, Expr>)
    requires
        all_finite(e),
        decode_all(prefix) == Ok::<_, DecodeFault>(table),
    ensures
        behind(prefix, e).len() > prefix.len(),
        decode_all(behind(prefix, e)) is Ok,
        decode_all(behind(prefix, e))->Ok_0.contains_key(
            node_id((behind(prefix, e).len() - 1) as nat),
        ),
        decode_all(behind(prefix, e))->Ok_0[node_id((behind(prefix, e).len() - 1) as nat)] == e,
        keeps(table, decode_all(behind(prefix, e))->Ok_0, prefix.len()),
    decreases e,
{
    let s = prefix.len();
    lemma_encode_shape(e, s);
    lemma_all_finite_shape(e);
    lemma_behind_shape(e, prefix);
    if let Some(pair) = both_children(e) {
        let (a, b) = pair;
        let p1 = behind(prefix, a);
        lemma_read_back_behind(a, prefix, table);
        let t1 = decode_all(p1)->Ok_0;
        let p2 = behind(p1, b);
        lemma_read_back_behind(b, p1, t1);
        let t2 = decode_all(p2)->Ok_0;
        let left = node_id((p1.len() - 1) as nat);
        let right = node_id((p2.len() - 1) as nat);
        let top = top_node(e, p2);
        lemma_keeps_at(t1, t2, p1.len(), (p1.len() - 1) as nat);
        assert(top == node_at(p2.len(), kind_of(e), seq![left, right], params_of(e)));
        lemma_two_read_back(e, a, b, p2.len(), left, right, t2);
        lemma_decode_push(p2, top, t2, e, p2.len(), s);
        lemma_keeps_chain(table, t1, t2, s, p1.len());
        lemma_keeps_chain(table, t2, t2.insert(node_id(p2.len()), e), s, s);
    } else if let Some(a) = only_child(e) {
        let p1 = behind(prefix, a);
        lemma_read_back_behind(a, prefix, table);
        let t1 = decode_all(p1)->Ok_0;
        let input = node_id((p1.len() - 1) as nat);
        let top = top_node(e, p1);
        assert(top == node_at(p1.len(), kind_of(e), seq![input], params_of(e)));
        lemma_one_read_back(e, a, p1.len(), input, t1);
        lemma_decode_push(p1, top, t1, e, p1.len(), s);
        lemma_keeps_chain(table, t1, t1.insert(node_id(p1.len()), e), s, s);
    } else {
        let top = top_node(e, prefix);
        assert(top == node_at(s, kind_of(e), Seq::empty(), params_of(e)));
        lemma_leaf_read_back(e, s, table);
        lemma_decode_push(prefix, top, table, e, s, s);
    }
}

/// Decoding the program of an expression gives the expression back, node
/// for node, provided that every number in it is finite. The decoded field
/// therefore has the value of the original at every point.
pub proof fn lemma_round_trip(e: Expr)
    requires
        all_finite(e),
    ensures
        decode_program(encode_program(e)) == Ok::<_, DecodeFault>(e),
{
    let none: Seq<NodeModel> = Seq::empty();
    lemma_read_back_behind(e, none, Map::empty());
    assert(behind(none, e) =~= encode_nodes(e, 0));
}

/// A node whose literal data are not all finite is not read back: a
/// parameter that its operator requires holds no number.
proof fn lemma_top_fails(e: Expr, node: NodeModel, table: Map<Seq<char>, Expr>)
    requires
        !top_finite(e),
        node.op == tag(kind_of(e)),
        node.params == params_of(e),
    ensures
        decode_node(node, table) is Err,
{
    lemma_tag_names_kind(kind_of(e));
    if e is Translate {
        lemma_translate_params(e);
    }
}

/// One more node that is read with a fault makes the whole list faulty.
proof fn lemma_push_fails(nodes: Seq<NodeModel>, node: NodeModel)
    requires
        decode_all(nodes) matches Ok(table) ==> decode_node(node, table) is Err,
    ensures
        decode_all(nodes.push(node)) is Err,
{
    assert(nodes.push(node).drop_last() =~= nodes);
}

/// A list that begins with a faulty list is faulty.
proof fn lemma_longer_fails(head: Seq<NodeModel>, tail: Seq<NodeModel>)
    requires
        decode_all(head) is Err,
    ensures
        decode_all(head + tail) is Err,
{
    assert((head + tail).take(head.len() as int) =~= head);
    lemma_fault_persists(head + tail, head.len() as int);
}

/// The nodes of an expression in which some number is not finite are not
/// read without fault, whatever stands before them.
proof fn lemma_not_finite_fails(e: Expr, prefix: Seq<NodeModel>)
    requires
        !all_finite(e),
    ensures
        decode_all(behind(prefix, e)) is Err,
    decreases e,
{
    lemma_encode_shape(e, prefix.len());
    lemma_all_finite_shape(e);
    lemma_behind_shape(e, prefix);
    if let Some(pair) = both_children(e) {
        let (a, b) = pair;
        let p1 = behind(prefix, a);
        let p2 = behind(p1, b);
        let top = top_node(e, p2);
        if !all_finite(a) {
            lemma_not_finite_fails(a, prefix);
            lemma_longer_fails(p1, encode_nodes(b, p1.len()));
        } else if !all_finite(b) {
            lemma_not_finite_fails(b, p1);
        } else if let Ok(table) = decode_all(p2) {
            lemma_top_fails(e, top, table);
        }
        lemma_push_fails(p2, top);
    } else if let Some(a) = only_child(e) {
        let p1 = behind(prefix, a);
        let top = top_node(e, p1);
        if !all_finite(a) {
            lemma_not_finite_fails(a, prefix);
        } else if let Ok(table) = decode_all(p1) {
            lemma_top_fails(e, top, table);
        }
        lemma_push_fails(p1, top);
    } else {
        let top = top_node(e, prefix);
        if let Ok(table) = decode_all(prefix) {
            lemma_top_fails(e, top, table);
        }
        lemma_push_fails(prefix, top);
    }
}

/// The program of an expression in which some number is not finite does
/// not decode: the number was not written as a number.
pub proof fn lemma_round_trip_only_if_finite(e: Expr)
    requires
        !all_finite(e),
    ensures
        decode_program(encode_program(e)) is Err,
{
    let none: Seq<NodeModel> = Seq::empty();
    lemma_not_finite_fails(e, none);
    assert(behind(none, e) =~= encode_nodes(e, 0));
}

/// Whether the literal data of the topmost node of `expr` are finite.
fn top_is_finite(expr: &Expr) -> (r: bool)
    ensures
        r == top_finite(*expr),
{
    match expr {
        Expr::Const(v) => v.is_finite(),
        Expr::SMin { k, .. } => k.is_finite(),
        Expr::SMax { k, .. } => k.is_finite(),
        Expr::Translate { dx, dy, dz, .. } => dx.is_finite() && dy.is_finite() && dz.is_finite(),
        Expr::RotateZ { deg, .. } => deg.is_finite(),
        _ => true,
    }
}

/// Whether every number in `expr` is finite, which is when its program
/// decodes to it again.
pub fn is_all_finite(expr: &Expr) -> (r: bool)
    ensures
        r == all_finite(*expr),
        r == (decode_program(encode_program(*expr)) == Ok::<_, DecodeFault>(*expr)),
    decreases *expr,
{
    proof {
        if all_finite(*expr) {
            lemma_round_trip(*expr);
        } else {
            lemma_round_trip_only_if_finite(*expr);
        }
    }
    match expr {
        Expr::Add(a, b)
        | Expr::Sub(a, b)
        | Expr::Mul(a, b)
        | Expr::Div(a, b)
        | Expr::Min(a, b)
        | Expr::Max(a, b)
        | Expr::SMin { a, b, .. }
        | Expr::SMax { a, b, .. } => top_is_finite(expr) && is_all_finite(a) && is_all_finite(b),
        Expr::Neg(a)
        | Expr::Sin(a)
        | Expr::Cos(a)
        | Expr::Exp(a)
        | Expr::Translate { expr: a, .. }
        | Expr::RotateZ { expr: a, .. } => top_is_finite(expr) && is_all_finite(a),
        _ => top_is_finite(expr),
    }
}

} // verus!
