//! Which programs decode: the well-formed ones, and no others.
use vstd::prelude::*;
use crate::decode::{
    decode_all, decode_node, decode_program, is_binary, is_unary, number_of,
};
use crate::expr::Expr;
use crate::ops::{op_kind, OpKind};
use crate::topology::{NodeModel, ParamModel, ProgramModel};

verus! {

/// How many inputs the operator reads. A leaf or a shape primitive reads
/// none, whatever the node lists.
pub open spec fn inputs_read(kind: OpKind) -> nat {
    if is_binary(kind) || kind == OpKind::SMin || kind == OpKind::SMax {
        2
    } else if is_unary(kind) || kind == OpKind::Translate || kind == OpKind::RotateZ {
        1
    } else {
        0
    }
}

/// Whether `params` holds a number under `key`.
pub open spec fn has_number(params: Seq<ParamModel>, key: &str) -> bool {
    number_of(params, key@) is Some
}

/// Whether `params` holds a number under each key that the operator reads.
pub open spec fn params_present(kind: OpKind, params: Seq<ParamModel>) -> bool {
    match kind {
        OpKind::Const => has_number(params, "value"),
        OpKind::Sphere => has_number(params, "r"),
        OpKind::Cylinder => has_number(params, "r") && has_number(params, "h"),
        OpKind::Box3 => has_number(params, "sx") && has_number(params, "sy") && has_number(
            params,
            "sz",
        ),
        OpKind::Torus => has_number(params, "major_r") && has_number(params, "minor_r"),
        OpKind::SMin => has_number(params, "k"),
        OpKind::SMax => has_number(params, "k"),
        OpKind::Translate => has_number(params, "dx") && has_number(params, "dy") && has_number(
            params,
            "dz",
        ),
        OpKind::RotateZ => has_number(params, "deg"),
        _ => true,
    }
}

/// Whether the node lists as many inputs as its operator reads, each of
/// them among the identifiers in `defined`.
pub open spec fn inputs_present(kind: OpKind, inputs: Seq<Seq<char>>, defined: Set<Seq<char>>) -> bool {
    if inputs_read(kind) == 2 {
        inputs.len() == 2 && defined.contains(inputs[0]) && defined.contains(inputs[1])
    } else if inputs_read(kind) == 1 {
        inputs.len() == 1 && defined.contains(inputs[0])
    } else {
        true
    }
}

/// A node is well formed where `defined` are the identifiers defined before
/// it: it names a known operator, has that operator's inputs, all defined,
/// and holds a number under each of that operator's parameters.
pub open spec fn node_valid(node: NodeModel, defined: Set<Seq<char>>) -> bool {
    match op_kind(node.op) {
        None => false,
        Some(kind) => inputs_present(kind, node.inputs, defined) && params_present(
            kind,
            node.params,
        ),
    }
}

/// The identifiers that the first `n` nodes define.
pub open spec fn defined_by(nodes: Seq<NodeModel>, n: int) -> Set<Seq<char>> {
    Set::new(|id: Seq<char>| exists|j: int| 0 <= j < n && j < nodes.len() && #[trigger] nodes[j].id == id)
}

/// Every node is well formed where it stands.
pub open spec fn nodes_valid(nodes: Seq<NodeModel>) -> bool {
    forall|i: int| 0 <= i < nodes.len() ==> node_valid(#[trigger] nodes[i], defined_by(nodes, i))
}

/// A program is well formed when every node is, and some node defines the
/// root.
pub open spec fn valid(p: ProgramModel) -> bool {
    nodes_valid(p.nodes) && defined_by(p.nodes, p.nodes.len() as int).contains(p.root)
}

/// A node is read without fault exactly when it is well formed over what
/// the table holds.
pub proof fn lemma_node_decodes_iff_valid(node: NodeModel, table: Map<Seq<char>, Expr>)
    ensures
        decode_node(node, table) is Ok <==> node_valid(node, table.dom()),
{
}

/// A list of nodes is read without fault exactly when every node is well
/// formed where it stands; the table then holds the identifiers that the
/// nodes define, and no others.
pub proof fn lemma_nodes_decode_iff_valid(nodes: Seq<NodeModel>)
    ensures
        decode_all(nodes) is Ok <==> nodes_valid(nodes),
        decode_all(nodes) matches Ok(table) ==> table.dom() == defined_by(
            nodes,
            nodes.len() as int,
        ),
    decreases nodes.len(),
{
    if nodes.len() == 0 {
        assert(Map::<Seq<char>, Expr>::empty().dom() =~= defined_by(nodes, 0));
    } else {
        let init = nodes.drop_last();
        let last = nodes.last();
        let n = init.len() as int;
        lemma_nodes_decode_iff_valid(init);
        assert forall|i: int| 0 <= i <= n implies defined_by(init, i) == #[trigger] defined_by(
            nodes,
            i,
        ) by {
            assert forall|id: Seq<char>| defined_by(init, i).contains(id) == defined_by(
                nodes,
                i,
            ).contains(id) by {
                if defined_by(init, i).contains(id) {
                    let j = choose|j: int| 0 <= j < i && j < init.len() && init[j].id == id;
                    assert(nodes[j].id == id);
                }
                if defined_by(nodes, i).contains(id) {
                    let j = choose|j: int| 0 <= j < i && j < nodes.len() && nodes[j].id == id;
                    assert(init[j].id == id);
                }
            }
            assert(defined_by(init, i) =~= defined_by(nodes, i));
        }
        if nodes_valid(nodes) {
            assert forall|i: int| 0 <= i < init.len() implies node_valid(
                #[trigger] init[i],
                defined_by(init, i),
            ) by {
                assert(init[i] == nodes[i]);
            }
            assert(nodes[n] == last);
        }
        if nodes_valid(init) && node_valid(last, defined_by(nodes, n)) {
            assert forall|i: int| 0 <= i < nodes.len() implies node_valid(
                #[trigger] nodes[i],
                defined_by(nodes, i),
            ) by {
                if i < n {
                    assert(init[i] == nodes[i]);
                }
            }
        }
        match decode_all(init) {
            Err(_) => {},
            Ok(table) => {
                lemma_node_decodes_iff_valid(last, table);
                match decode_node(last, table) {
                    Err(_) => {},
                    Ok(e) => {
                        let after = table.insert(last.id, e);
                        assert forall|id: Seq<char>| after.dom().contains(id) == defined_by(
                            nodes,
                            n + 1,
                        ).contains(id) by {
                            if after.dom().contains(id) && id != last.id {
                                let j = choose|j: int|
                                    0 <= j < n && j < nodes.len() && nodes[j].id == id;
                                assert(nodes[j].id == id);
                            }
                            if id == last.id {
                                assert(nodes[n].id == id);
                            }
                            if defined_by(nodes, n + 1).contains(id) {
                                let j = choose|j: int|
                                    0 <= j < n + 1 && j < nodes.len() && nodes[j].id == id;
                                if j < n {
                                    assert(defined_by(nodes, n).contains(id));
                                }
                            }
                        }
                        assert(after.dom() =~= defined_by(nodes, n + 1));
                    },
                }
            },
        }
    }
}

/// A program decodes exactly when it is well formed: every node names a
/// known operator, has that operator's inputs, each defined by an earlier
/// node, and holds a number under each of that operator's parameters; and
/// some node defines the root.
pub proof fn lemma_decodes_iff_valid(p: ProgramModel)
    ensures
        decode_program(p) is Ok <==> valid(p),
{
    lemma_nodes_decode_iff_valid(p.nodes);
}

} // verus!
