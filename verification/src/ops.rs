//! The operator tags of a topology program.
use vstd::prelude::*;
use vstd::string::StringExecFns;

verus! {

/// The operators that a program may name.
///
/// The last seven are read but never written: four shape primitives, which
/// stand for their algebraic forms, and three Boolean aliases.
#[derive(Clone, Copy, Debug, PartialEq, Eq, Structural)]
pub enum OpKind {
    Const,
    X,
    Y,
    Z,
    Sphere,
    Cylinder,
    Box3,
    Torus,
    Add,
    Sub,
    Mul,
    Div,
    Min,
    Max,
    SMin,
    SMax,
    Neg,
    Sin,
    Cos,
    Exp,
    Translate,
    RotateZ,
    Union,
    Intersect,
    Difference,
}

/// The tag under which an operator is written.
pub open spec fn tag(kind: OpKind) -> Seq<char> {
    match kind {
        OpKind::Const => "const"@,
        OpKind::X => "x"@,
        OpKind::Y => "y"@,
        OpKind::Z => "z"@,
        OpKind::Sphere => "sphere"@,
        OpKind::Cylinder => "cylinder"@,
        OpKind::Box3 => "box"@,
        OpKind::Torus => "torus"@,
        OpKind::Add => "add"@,
        OpKind::Sub => "sub"@,
        OpKind::Mul => "mul"@,
        OpKind::Div => "div"@,
        OpKind::Min => "min"@,
        OpKind::Max => "max"@,
        OpKind::SMin => "smin"@,
        OpKind::SMax => "smax"@,
        OpKind::Neg => "neg"@,
        OpKind::Sin => "sin"@,
        OpKind::Cos => "cos"@,
        OpKind::Exp => "exp"@,
        OpKind::Translate => "translate"@,
        OpKind::RotateZ => "rotate_z"@,
        OpKind::Union => "union"@,
        OpKind::Intersect => "intersect"@,
        OpKind::Difference => "difference"@,
    }
}

/// The operator that a tag names, if any.
pub open spec fn op_kind(s: Seq<char>) -> Option<OpKind> {
    if s == tag(OpKind::Const) {
        Some(OpKind::Const)
    } else if s == tag(OpKind::X) {
        Some(OpKind::X)
    } else if s == tag(OpKind::Y) {
        Some(OpKind::Y)
    } else if s == tag(OpKind::Z) {
        Some(OpKind::Z)
    } else if s == tag(OpKind::Sphere) {
        Some(OpKind::Sphere)
    } else if s == tag(OpKind::Cylinder) {
        Some(OpKind::Cylinder)
    } else if s == tag(OpKind::Box3) {
        Some(OpKind::Box3)
    } else if s == tag(OpKind::Torus) {
        Some(OpKind::Torus)
    } else if s == tag(OpKind::Add) {
        Some(OpKind::Add)
    } else if s == tag(OpKind::Sub) {
        Some(OpKind::Sub)
    } else if s == tag(OpKind::Mul) {
        Some(OpKind::Mul)
    } else if s == tag(OpKind::Div) {
        Some(OpKind::Div)
    } else if s == tag(OpKind::Min) {
        Some(OpKind::Min)
    } else if s == tag(OpKind::Max) {
        Some(OpKind::Max)
    } else if s == tag(OpKind::SMin) {
        Some(OpKind::SMin)
    } else if s == tag(OpKind::SMax) {
        Some(OpKind::SMax)
    } else if s == tag(OpKind::Neg) {
        Some(OpKind::Neg)
    } else if s == tag(OpKind::Sin) {
        Some(OpKind::Sin)
    } else if s == tag(OpKind::Cos) {
        Some(OpKind::Cos)
    } else if s == tag(OpKind::Exp) {
        Some(OpKind::Exp)
    } else if s == tag(OpKind::Translate) {
        Some(OpKind::Translate)
    } else if s == tag(OpKind::RotateZ) {
        Some(OpKind::RotateZ)
    } else if s == tag(OpKind::Union) {
        Some(OpKind::Union)
    } else if s == tag(OpKind::Intersect) {
        Some(OpKind::Intersect)
    } else if s == tag(OpKind::Difference) {
        Some(OpKind::Difference)
    } else {
        None
    }
}

/// Length, first and last character: enough to tell the tags apart.
spec fn fingerprint(s: Seq<char>) -> (nat, char, char) {
    (s.len(), s.first(), s.last())
}

/// The length, first and last character of each tag.
spec fn tag_fingerprint(kind: OpKind) -> (nat, char, char) {
    match kind {
        OpKind::Const => (5, 'c', 't'),
        OpKind::X => (1, 'x', 'x'),
        OpKind::Y => (1, 'y', 'y'),
        OpKind::Z => (1, 'z', 'z'),
        OpKind::Sphere => (6, 's', 'e'),
        OpKind::Cylinder => (8, 'c', 'r'),
        OpKind::Box3 => (3, 'b', 'x'),
        OpKind::Torus => (5, 't', 's'),
        OpKind::Add => (3, 'a', 'd'),
        OpKind::Sub => (3, 's', 'b'),
        OpKind::Mul => (3, 'm', 'l'),
        OpKind::Div => (3, 'd', 'v'),
        OpKind::Min => (3, 'm', 'n'),
        OpKind::Max => (3, 'm', 'x'),
        OpKind::SMin => (4, 's', 'n'),
        OpKind::SMax => (4, 's', 'x'),
        OpKind::Neg => (3, 'n', 'g'),
        OpKind::Sin => (3, 's', 'n'),
        OpKind::Cos => (3, 'c', 's'),
        OpKind::Exp => (3, 'e', 'p'),
        OpKind::Translate => (9, 't', 'e'),
        OpKind::RotateZ => (8, 'r', 'z'),
        OpKind::Union => (5, 'u', 'n'),
        OpKind::Intersect => (9, 'i', 't'),
        OpKind::Difference => (10, 'd', 'e'),
    }
}

/// Each tag has the fingerprint listed for it.
proof fn lemma_tag_fingerprint(kind: OpKind)
    ensures
        fingerprint(tag(kind)) == tag_fingerprint(kind),
{
    reveal_strlit("const");
    reveal_strlit("x");
    reveal_strlit("y");
    reveal_strlit("z");
    reveal_strlit("sphere");
    reveal_strlit("cylinder");
    reveal_strlit("box");
    reveal_strlit("torus");
    reveal_strlit("add");
    reveal_strlit("sub");
    reveal_strlit("mul");
    reveal_strlit("div");
    reveal_strlit("min");
    reveal_strlit("max");
    reveal_strlit("smin");
    reveal_strlit("smax");
    reveal_strlit("neg");
    reveal_strlit("sin");
    reveal_strlit("cos");
    reveal_strlit("exp");
    reveal_strlit("translate");
    reveal_strlit("rotate_z");
    reveal_strlit("union");
    reveal_strlit("intersect");
    reveal_strlit("difference");
}

/// Every operator is the one that its own tag names.
pub proof fn lemma_tag_names_kind(kind: OpKind)
    ensures
        op_kind(tag(kind)) == Some(kind),
{
    lemma_tag_fingerprint(OpKind::Const);
    lemma_tag_fingerprint(OpKind::X);
    lemma_tag_fingerprint(OpKind::Y);
    lemma_tag_fingerprint(OpKind::Z);
    lemma_tag_fingerprint(OpKind::Sphere);
    lemma_tag_fingerprint(OpKind::Cylinder);
    lemma_tag_fingerprint(OpKind::Box3);
    lemma_tag_fingerprint(OpKind::Torus);
    lemma_tag_fingerprint(OpKind::Add);
    lemma_tag_fingerprint(OpKind::Sub);
    lemma_tag_fingerprint(OpKind::Mul);
    lemma_tag_fingerprint(OpKind::Div);
    lemma_tag_fingerprint(OpKind::Min);
    lemma_tag_fingerprint(OpKind::Max);
    lemma_tag_fingerprint(OpKind::SMin);
    lemma_tag_fingerprint(OpKind::SMax);
    lemma_tag_fingerprint(OpKind::Neg);
    lemma_tag_fingerprint(OpKind::Sin);
    lemma_tag_fingerprint(OpKind::Cos);
    lemma_tag_fingerprint(OpKind::Exp);
    lemma_tag_fingerprint(OpKind::Translate);
    lemma_tag_fingerprint(OpKind::RotateZ);
    lemma_tag_fingerprint(OpKind::Union);
    lemma_tag_fingerprint(OpKind::Intersect);
    lemma_tag_fingerprint(OpKind::Difference);
}

/// Whether `op` is the text `name`.
fn is_tag(op: &String, name: &str) -> (r: bool)
    ensures
        r == (op@ == name@),
{
    let other = String::from_str(name);
    *op == other
}

/// The operator that `op` names, if any.
pub fn parse_op(op: &String) -> (r: Option<OpKind>)
    ensures
        r == op_kind(op@),
{
    if is_tag(op, "const") {
        Some(OpKind::Const)
    } else if is_tag(op, "x") {
        Some(OpKind::X)
    } else if is_tag(op, "y") {
        Some(OpKind::Y)
    } else if is_tag(op, "z") {
        Some(OpKind::Z)
    } else if is_tag(op, "sphere") {
        Some(OpKind::Sphere)
    } else if is_tag(op, "cylinder") {
        Some(OpKind::Cylinder)
    } else if is_tag(op, "box") {
        Some(OpKind::Box3)
    } else if is_tag(op, "torus") {
        Some(OpKind::Torus)
    } else if is_tag(op, "add") {
        Some(OpKind::Add)
    } else if is_tag(op, "sub") {
        Some(OpKind::Sub)
    } else if is_tag(op, "mul") {
        Some(OpKind::Mul)
    } else if is_tag(op, "div") {
        Some(OpKind::Div)
    } else if is_tag(op, "min") {
        Some(OpKind::Min)
    } else if is_tag(op, "max") {
        Some(OpKind::Max)
    } else if is_tag(op, "smin") {
        Some(OpKind::SMin)
    } else if is_tag(op, "smax") {
        Some(OpKind::SMax)
    } else if is_tag(op, "neg") {
        Some(OpKind::Neg)
    } else if is_tag(op, "sin") {
        Some(OpKind::Sin)
    } else if is_tag(op, "cos") {
        Some(OpKind::Cos)
    } else if is_tag(op, "exp") {
        Some(OpKind::Exp)
    } else if is_tag(op, "translate") {
        Some(OpKind::Translate)
    } else if is_tag(op, "rotate_z") {
        Some(OpKind::RotateZ)
    } else if is_tag(op, "union") {
        Some(OpKind::Union)
    } else if is_tag(op, "intersect") {
        Some(OpKind::Intersect)
    } else if is_tag(op, "difference") {
        Some(OpKind::Difference)
    } else {
        None
    }
}

/// The tag of an operator, as text.
pub fn tag_text(kind: OpKind) -> (r: String)
    ensures
        r@ == tag(kind),
{
    match kind {
        OpKind::Const => String::from_str("const"),
        OpKind::X => String::from_str("x"),
        OpKind::Y => String::from_str("y"),
        OpKind::Z => String::from_str("z"),
        OpKind::Sphere => String::from_str("sphere"),
        OpKind::Cylinder => String::from_str("cylinder"),
        OpKind::Box3 => String::from_str("box"),
        OpKind::Torus => String::from_str("torus"),
        OpKind::Add => String::from_str("add"),
        OpKind::Sub => String::from_str("sub"),
        OpKind::Mul => String::from_str("mul"),
        OpKind::Div => String::from_str("div"),
        OpKind::Min => String::from_str("min"),
        OpKind::Max => String::from_str("max"),
        OpKind::SMin => String::from_str("smin"),
        OpKind::SMax => String::from_str("smax"),
        OpKind::Neg => String::from_str("neg"),
        OpKind::Sin => String::from_str("sin"),
        OpKind::Cos => String::from_str("cos"),
        OpKind::Exp => String::from_str("exp"),
        OpKind::Translate => String::from_str("translate"),
        OpKind::RotateZ => String::from_str("rotate_z"),
        OpKind::Union => String::from_str("union"),
        OpKind::Intersect => String::from_str("intersect"),
        OpKind::Difference => String::from_str("difference"),
    }
}

} // verus!
