//! The topology program: a flat, portable graph form of an expression.
//!
//! A program lists its nodes in order. Each node has an identifier, an
//! operator tag, the identifiers of its inputs, and named parameters. An input
//! refers to a node listed earlier; the root names the node that is the
//! program's result.
use vstd::prelude::*;
use vstd::string::StringExecFns;
use crate::scalar::Scalar;

pub use crate::decode::{compile, topology_to_expr};
pub use crate::encode::expr_to_topology;

verus! {

/// The value of a parameter, as far as a program reads it: a number, or
/// anything else.
#[derive(Clone, Copy, Debug, PartialEq, Eq, Structural)]
pub enum ParamValue {
    Number(Scalar),
    Other,
}

/// A named parameter of a node.
#[derive(Clone, Debug, PartialEq)]
pub struct Param {
    pub key: String,
    pub value: ParamValue,
}

/// One node of a program.
#[derive(Clone, Debug, PartialEq)]
pub struct TopologyNode {
    pub id: String,
    pub op: String,
    pub inputs: Vec<String>,
    pub params: Vec<Param>,
}

/// Advisory hints on the shape of the solid. They do not affect decoding.
#[derive(Clone, Debug, PartialEq)]
pub struct TopologySignature {
    pub betti_hint: [u8; 3],
    pub euler_hint: i32,
    pub genus_hint: u8,
}

/// A whole program.
#[derive(Clone, Debug, PartialEq)]
pub struct TopologyProgram {
    pub format: String,
    pub root: String,
    pub nodes: Vec<TopologyNode>,
    pub invariants: Vec<String>,
    pub signature: TopologySignature,
}

/// What a `Param` holds.
pub struct ParamModel {
    pub key: Seq<char>,
    pub value: ParamValue,
}

/// What a `TopologyNode` holds.
pub struct NodeModel {
    pub id: Seq<char>,
    pub op: Seq<char>,
    pub inputs: Seq<Seq<char>>,
    pub params: Seq<ParamModel>,
}

/// What a `TopologySignature` holds.
pub struct SignatureModel {
    pub betti_hint: Seq<u8>,
    pub euler_hint: int,
    pub genus_hint: nat,
}

/// What a `TopologyProgram` holds.
pub struct ProgramModel {
    pub format: Seq<char>,
    pub root: Seq<char>,
    pub nodes: Seq<NodeModel>,
    pub invariants: Seq<Seq<char>>,
    pub signature: SignatureModel,
}

/// The texts of a list of strings.
pub open spec fn texts(v: Seq<String>) -> Seq<Seq<char>> {
    Seq::new(v.len(), |i: int| v[i]@)
}

/// The models of a list of parameters.
pub open spec fn param_models(v: Seq<Param>) -> Seq<ParamModel> {
    Seq::new(v.len(), |i: int| v[i]@)
}

/// The models of a list of nodes.
pub open spec fn node_models(v: Seq<TopologyNode>) -> Seq<NodeModel> {
    Seq::new(v.len(), |i: int| v[i]@)
}

impl View for Param {
    type V = ParamModel;

    open spec fn view(&self) -> ParamModel {
        ParamModel { key: self.key@, value: self.value }
    }
}

impl View for TopologyNode {
    type V = NodeModel;

    open spec fn view(&self) -> NodeModel {
        NodeModel {
            id: self.id@,
            op: self.op@,
            inputs: texts(self.inputs@),
            params: param_models(self.params@),
        }
    }
}

impl View for TopologySignature {
    type V = SignatureModel;

    open spec fn view(&self) -> SignatureModel {
        SignatureModel {
            betti_hint: self.betti_hint@,
            euler_hint: self.euler_hint as int,
            genus_hint: self.genus_hint as nat,
        }
    }
}

impl View for TopologyProgram {
    type V = ProgramModel;

    open spec fn view(&self) -> ProgramModel {
        ProgramModel {
            format: self.format@,
            root: self.root@,
            nodes: node_models(self.nodes@),
            invariants: texts(self.invariants@),
            signature: self.signature@,
        }
    }
}

/// The format tag of a program.
pub open spec fn format_tag() -> Seq<char> {
    "morse.topo.v1"@
}

/// The hints of a solid without holes or handles.
pub open spec fn plain_signature() -> SignatureModel {
    SignatureModel { betti_hint: seq![1u8, 0u8, 0u8], euler_hint: 1, genus_hint: 0 }
}

/// The advisory invariants that every program made here carries.
pub open spec fn stock_invariants() -> Seq<Seq<char>> {
    seq!["field_is_truth"@, "no_mesh_in_critical_path"@, "single_expression_graph"@]
}

/// The program without nodes: the format tag, an empty root, the stock
/// invariants and the plain signature.
pub open spec fn empty_program() -> ProgramModel {
    ProgramModel {
        format: format_tag(),
        root: Seq::empty(),
        nodes: Seq::empty(),
        invariants: stock_invariants(),
        signature: plain_signature(),
    }
}

impl Default for TopologyProgram {
    fn default() -> (p: TopologyProgram)
        ensures
            p@ == empty_program(),
    {
        let mut invariants: Vec<String> = Vec::new();
        invariants.push(String::from_str("field_is_truth"));
        invariants.push(String::from_str("no_mesh_in_critical_path"));
        invariants.push(String::from_str("single_expression_graph"));
        let p = TopologyProgram {
            format: String::from_str("morse.topo.v1"),
            root: String::new(),
            nodes: Vec::new(),
            invariants,
            signature: TopologySignature { betti_hint: [1, 0, 0], euler_hint: 1, genus_hint: 0 },
        };
        assert(p@.invariants =~= stock_invariants());
        assert(p@.nodes =~= Seq::empty());
        assert(p@.signature.betti_hint =~= seq![1u8, 0u8, 0u8]);
        p
    }
}

} // verus!
