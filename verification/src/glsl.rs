//! The shader emitter: an expression as the source of one shading-language
//! function, `float sdf(vec3 p)`, whose body is a single returned expression.
//!
//! The source is given as a list of tokens. A token is a piece of fixed
//! text, or stands for a number that the caller writes out with twelve
//! digits behind the decimal point. The source is the tokens written one
//! after another, with nothing in between.
use vstd::prelude::*;
use crate::expr::Expr;
use crate::scalar::Scalar;

verus! {

/// One piece of shader source.
#[derive(Clone, Copy, Debug, PartialEq)]
pub enum GlslToken {
    /// Fixed text.
    Text(&'static str),
    /// The number itself.
    Number(Scalar),
    /// The cosine of minus the given angle, the angle being in degrees.
    TurnCos(Scalar),
    /// The sine of minus the given angle, the angle being in degrees.
    TurnSin(Scalar),
}

/// What a `GlslToken` holds.
pub enum TokenModel {
    Text(Seq<char>),
    Number(Scalar),
    TurnCos(Scalar),
    TurnSin(Scalar),
}

impl View for GlslToken {
    type V = TokenModel;

    open spec fn view(&self) -> TokenModel {
        match self {
            GlslToken::Text(s) => TokenModel::Text(s@),
            GlslToken::Number(v) => TokenModel::Number(*v),
            GlslToken::TurnCos(v) => TokenModel::TurnCos(*v),
            GlslToken::TurnSin(v) => TokenModel::TurnSin(*v),
        }
    }
}

/// The models of a list of tokens.
pub open spec fn token_models(v: Seq<GlslToken>) -> Seq<TokenModel> {
    Seq::new(v.len(), |i: int| v[i]@)
}

/// The one token of fixed text `s`.
pub open spec fn text(s: &str) -> Seq<TokenModel> {
    seq![TokenModel::Text(s@)]
}

/// The one token of the number `v`.
pub open spec fn number(v: Scalar) -> Seq<TokenModel> {
    seq![TokenModel::Number(v)]
}

/// `open l sep r close`.
pub open spec fn joined(
    open: &str,
    l: Seq<TokenModel>,
    sep: &str,
    r: Seq<TokenModel>,
    close: &str,
) -> Seq<TokenModel> {
    text(open) + l + text(sep) + r + text(close)
}

/// `open a close`.
pub open spec fn wrapped(open: &str, a: Seq<TokenModel>, close: &str) -> Seq<TokenModel> {
    text(open) + a + text(close)
}

/// The blend fraction of a smooth operator, `clamp(0.5 + 0.5*((b)-(a))/k, 0.0, 1.0)`
/// for the union and with `0.5 - 0.5*` for the intersection.
pub open spec fn blend_fraction(
    union: bool,
    a: Seq<TokenModel>,
    b: Seq<TokenModel>,
    k: Scalar,
) -> Seq<TokenModel> {
    text(if union { "clamp(0.5 + 0.5*((" } else { "clamp(0.5 - 0.5*((" }) + b + text(")-(") + a
        + text("))/") + number(k) + text(", 0.0, 1.0)")
}

/// The closed form of a smooth operator: `(mix(b, a, h) - k*h*(1.0-h))` for
/// the union and with `+ k` for the intersection, `h` being the blend
/// fraction, written out each time.
pub open spec fn blend(union: bool, a: Seq<TokenModel>, b: Seq<TokenModel>, k: Scalar) -> Seq<
    TokenModel,
> {
    let h = blend_fraction(union, a, b, k);
    text("(mix(") + b + text(", ") + a + text(", ") + h + text(if union { ") - " } else { ") + " })
        + number(k) + text("*") + h + text("*(1.0-") + h + text("))")
}

/// A coordinate moved back by `d`: `(c - d)`.
pub open spec fn shifted(c: Seq<TokenModel>, d: Scalar) -> Seq<TokenModel> {
    text("(") + c + text(" - ") + number(d) + text(")")
}

/// The x coordinate turned back by `deg` degrees: `(cos*x - sin*y)`.
pub open spec fn turned_x(x: Seq<TokenModel>, y: Seq<TokenModel>, deg: Scalar) -> Seq<TokenModel> {
    text("(") + seq![TokenModel::TurnCos(deg)] + text("*") + x + text(" - ") + seq![
        TokenModel::TurnSin(deg),
    ] + text("*") + y + text(")")
}

/// The y coordinate turned back by `deg` degrees: `(sin*x + cos*y)`.
pub open spec fn turned_y(x: Seq<TokenModel>, y: Seq<TokenModel>, deg: Scalar) -> Seq<TokenModel> {
    text("(") + seq![TokenModel::TurnSin(deg)] + text("*") + x + text(" + ") + seq![
        TokenModel::TurnCos(deg),
    ] + text("*") + y + text(")")
}

/// The source of `e`, where `x`, `y` and `z` are the sources of the three
/// coordinates.
pub open spec fn emitted(e: Expr, x: Seq<TokenModel>, y: Seq<TokenModel>, z: Seq<TokenModel>) -> Seq<
    TokenModel,
>
    decreases e,
{
    match e {
        Expr::Const(v) => number(v),
        Expr::X => x,
        Expr::Y => y,
        Expr::Z => z,
        Expr::Add(a, b) => joined("(", emitted(*a, x, y, z), " + ", emitted(*b, x, y, z), ")"),
        Expr::Sub(a, b) => joined("(", emitted(*a, x, y, z), " - ", emitted(*b, x, y, z), ")"),
        Expr::Mul(a, b) => joined("(", emitted(*a, x, y, z), " * ", emitted(*b, x, y, z), ")"),
        Expr::Div(a, b) => joined("(", emitted(*a, x, y, z), " / ", emitted(*b, x, y, z), ")"),
        Expr::Neg(a) => wrapped("(-", emitted(*a, x, y, z), ")"),
        Expr::Sin(a) => wrapped("sin(", emitted(*a, x, y, z), ")"),
        Expr::Cos(a) => wrapped("cos(", emitted(*a, x, y, z), ")"),
        Expr::Exp(a) => wrapped("exp(", emitted(*a, x, y, z), ")"),
        Expr::Min(a, b) => joined("min(", emitted(*a, x, y, z), ", ", emitted(*b, x, y, z), ")"),
        Expr::Max(a, b) => joined("max(", emitted(*a, x, y, z), ", ", emitted(*b, x, y, z), ")"),
        Expr::SMin { a, b, k } => blend(true, emitted(*a, x, y, z), emitted(*b, x, y, z), k),
        Expr::SMax { a, b, k } => blend(false, emitted(*a, x, y, z), emitted(*b, x, y, z), k),
        Expr::Translate { expr, dx, dy, dz } => emitted(
            *expr,
            shifted(x, dx),
            shifted(y, dy),
            shifted(z, dz),
        ),
        Expr::RotateZ { expr, deg } => emitted(*expr, turned_x(x, y, deg), turned_y(x, y, deg), z),
    }
}

/// The source of the whole function for `e`.
pub open spec fn shader(e: Expr) -> Seq<TokenModel> {
    text("float sdf(vec3 p) {\n  return ") + emitted(e, text("p.x"), text("p.y"), text("p.z"))
        + text(";\n}")
}

/// A list of the one token of fixed text `s`.
fn start(s: &'static str) -> (out: Vec<GlslToken>)
    ensures
        token_models(out@) == text(s),
{
    let mut out: Vec<GlslToken> = Vec::new();
    out.push(GlslToken::Text(s));
    assert(token_models(out@) =~= text(s));
    out
}

/// Appends one token.
fn put(out: &mut Vec<GlslToken>, t: GlslToken)
    ensures
        token_models(final(out)@) == token_models(old(out)@) + seq![t@],
{
    out.push(t);
    assert(token_models(final(out)@) =~= token_models(old(out)@) + seq![t@]);
}

/// Appends the fixed text `s`.
fn put_text(out: &mut Vec<GlslToken>, s: &'static str)
    ensures
        token_models(final(out)@) == token_models(old(out)@) + text(s),
{
    put(out, GlslToken::Text(s));
}

/// Appends the number `v`.
fn put_number(out: &mut Vec<GlslToken>, v: Scalar)
    ensures
        token_models(final(out)@) == token_models(old(out)@) + number(v),
{
    put(out, GlslToken::Number(v));
}

/// Appends the tokens of `part`.
fn put_all(out: &mut Vec<GlslToken>, part: &Vec<GlslToken>)
    ensures
        token_models(final(out)@) == token_models(old(out)@) + token_models(part@),
{
    let mut i: usize = 0;
    while i < part.len()
        invariant
            i <= part.len(),
            token_models(out@) =~= token_models(old(out)@) + token_models(part@).take(i as int),
        decreases part.len() - i,
    {
        let ghost done = token_models(part@).take(i as int);
        put(out, part[i]);
        assert(token_models(part@).take(i + 1) =~= done + seq![part@[i as int]@]);
        i += 1;
    }
    assert(token_models(part@).take(i as int) =~= token_models(part@));
}

/// A copy of `part`.
fn copied(part: &Vec<GlslToken>) -> (out: Vec<GlslToken>)
    ensures
        token_models(out@) == token_models(part@),
{
    let mut out: Vec<GlslToken> = Vec::new();
    assert(token_models(out@) =~= Seq::empty());
    put_all(&mut out, part);
    assert(token_models(out@) =~= token_models(part@));
    out
}

/// `open l sep r close`.
fn join(
    open: &'static str,
    l: &Vec<GlslToken>,
    sep: &'static str,
    r: &Vec<GlslToken>,
    close: &'static str,
) -> (out: Vec<GlslToken>)
    ensures
        token_models(out@) == joined(open, token_models(l@), sep, token_models(r@), close),
{
    let mut out = start(open);
    put_all(&mut out, l);
    put_text(&mut out, sep);
    put_all(&mut out, r);
    put_text(&mut out, close);
    out
}

/// `open a close`.
fn wrap(open: &'static str, a: &Vec<GlslToken>, close: &'static str) -> (out: Vec<GlslToken>)
    ensures
        token_models(out@) == wrapped(open, token_models(a@), close),
{
    let mut out = start(open);
    put_all(&mut out, a);
    put_text(&mut out, close);
    out
}

/// The blend fraction of a smooth operator.
fn emit_blend_fraction(union: bool, a: &Vec<GlslToken>, b: &Vec<GlslToken>, k: Scalar) -> (out: Vec<
    GlslToken,
>)
    ensures
        token_models(out@) == blend_fraction(union, token_models(a@), token_models(b@), k),
{
    let mut out = start(if union { "clamp(0.5 + 0.5*((" } else { "clamp(0.5 - 0.5*((" });
    put_all(&mut out, b);
    put_text(&mut out, ")-(");
    put_all(&mut out, a);
    put_text(&mut out, "))/");
    put_number(&mut out, k);
    put_text(&mut out, ", 0.0, 1.0)");
    out
}

/// The closed form of a smooth operator.
fn emit_blend(union: bool, a: &Vec<GlslToken>, b: &Vec<GlslToken>, k: Scalar) -> (out: Vec<
    GlslToken,
>)
    ensures
        token_models(out@) == blend(union, token_models(a@), token_models(b@), k),
{
    let h = emit_blend_fraction(union, a, b, k);
    let mut out = start("(mix(");
    put_all(&mut out, b);
    put_text(&mut out, ", ");
    put_all(&mut out, a);
    put_text(&mut out, ", ");
    put_all(&mut out, &h);
    put_text(&mut out, if union { ") - " } else { ") + " });
    put_number(&mut out, k);
    put_text(&mut out, "*");
    put_all(&mut out, &h);
    put_text(&mut out, "*(1.0-");
    put_all(&mut out, &h);
    put_text(&mut out, "))");
    out
}

/// A coordinate moved back by `d`.
fn shift(c: &Vec<GlslToken>, d: Scalar) -> (out: Vec<GlslToken>)
    ensures
        token_models(out@) == shifted(token_models(c@), d),
{
    let mut out = start("(");
    put_all(&mut out, c);
    put_text(&mut out, " - ");
    put_number(&mut out, d);
    put_text(&mut out, ")");
    out
}

/// The x coordinate turned back by `deg` degrees.
fn turn_x(x: &Vec<GlslToken>, y: &Vec<GlslToken>, deg: Scalar) -> (out: Vec<GlslToken>)
    ensures
        token_models(out@) == turned_x(token_models(x@), token_models(y@), deg),
{
    let mut out = start("(");
    put(&mut out, GlslToken::TurnCos(deg));
    put_text(&mut out, "*");
    put_all(&mut out, x);
    put_text(&mut out, " - ");
    put(&mut out, GlslToken::TurnSin(deg));
    put_text(&mut out, "*");
    put_all(&mut out, y);
    put_text(&mut out, ")");
    out
}

/// The y coordinate turned back by `deg` degrees.
fn turn_y(x: &Vec<GlslToken>, y: &Vec<GlslToken>, deg: Scalar) -> (out: Vec<GlslToken>)
    ensures
        token_models(out@) == turned_y(token_models(x@), token_models(y@), deg),
{
    let mut out = start("(");
    put(&mut out, GlslToken::TurnSin(deg));
    put_text(&mut out, "*");
    put_all(&mut out, x);
    put_text(&mut out, " + ");
    put(&mut out, GlslToken::TurnCos(deg));
    put_text(&mut out, "*");
    put_all(&mut out, y);
    put_text(&mut out, ")");
    out
}

/// The source of `expr`, where `x`, `y` and `z` are the sources of the
/// three coordinates. No helper variable is introduced and nothing is
/// shared: the result is one self-contained expression.
pub fn emit_with_coords(expr: &Expr, x: &Vec<GlslToken>, y: &Vec<GlslToken>, z: &Vec<GlslToken>) -> (out:
    Vec<GlslToken>)
    ensures
        token_models(out@) == emitted(*expr, token_models(x@), token_models(y@), token_models(z@)),
    decreases *expr,
{
    match expr {
        Expr::Const(v) => {
            let mut out: Vec<GlslToken> = Vec::new();
            out.push(GlslToken::Number(*v));
            assert(token_models(out@) =~= number(*v));
            out
        },
        Expr::X => copied(x),
        Expr::Y => copied(y),
        Expr::Z => copied(z),
        Expr::Add(a, b) => join(
            "(",
            &emit_with_coords(a, x, y, z),
            " + ",
            &emit_with_coords(b, x, y, z),
            ")",
        ),
        Expr::Sub(a, b) => join(
            "(",
            &emit_with_coords(a, x, y, z),
            " - ",
            &emit_with_coords(b, x, y, z),
            ")",
        ),
        Expr::Mul(a, b) => join(
            "(",
            &emit_with_coords(a, x, y, z),
            " * ",
            &emit_with_coords(b, x, y, z),
            ")",
        ),
        Expr::Div(a, b) => join(
            "(",
            &emit_with_coords(a, x, y, z),
            " / ",
            &emit_with_coords(b, x, y, z),
            ")",
        ),
        Expr::Neg(a) => wrap("(-", &emit_with_coords(a, x, y, z), ")"),
        Expr::Sin(a) => wrap("sin(", &emit_with_coords(a, x, y, z), ")"),
        Expr::Cos(a) => wrap("cos(", &emit_with_coords(a, x, y, z), ")"),
        Expr::Exp(a) => wrap("exp(", &emit_with_coords(a, x, y, z), ")"),
        Expr::Min(a, b) => join(
            "min(",
            &emit_with_coords(a, x, y, z),
            ", ",
            &emit_with_coords(b, x, y, z),
            ")",
        ),
        Expr::Max(a, b) => join(
            "max(",
            &emit_with_coords(a, x, y, z),
            ", ",
            &emit_with_coords(b, x, y, z),
            ")",
        ),
        Expr::SMin { a, b, k } => emit_blend(
            true,
            &emit_with_coords(a, x, y, z),
            &emit_with_coords(b, x, y, z),
            *k,
        ),
        Expr::SMax { a, b, k } => emit_blend(
            false,
            &emit_with_coords(a, x, y, z),
            &emit_with_coords(b, x, y, z),
            *k,
        ),
        Expr::Translate { expr, dx, dy, dz } => {
            let nx = shift(x, *dx);
            let ny = shift(y, *dy);
            let nz = shift(z, *dz);
            emit_with_coords(expr, &nx, &ny, &nz)
        },
        Expr::RotateZ { expr, deg } => {
            let nx = turn_x(x, y, *deg);
            let ny = turn_y(x, y, *deg);
            emit_with_coords(expr, &nx, &ny, z)
        },
    }
}

/// The source of the function `float sdf(vec3 p)` that returns `expr` at
/// the point `p`.
pub fn to_glsl(expr: &Expr) -> (out: Vec<GlslToken>)
    ensures
        token_models(out@) == shader(*expr),
{
    let x = start("p.x");
    let y = start("p.y");
    let z = start("p.z");
    let body = emit_with_coords(expr, &x, &y, &z);
    let mut out = start("float sdf(vec3 p) {\n  return ");
    put_all(&mut out, &body);
    put_text(&mut out, ";\n}");
    out
}

} // verus!
