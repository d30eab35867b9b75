//! The expression algebra: a closed set of node kinds, and builders for the
//! arithmetic operators, the CSG operators and the shape primitives.
//!
//! A solid is the set of points where its field is negative. The primitives
//! are sign predicates, not distance functions.
use vstd::prelude::*;
use crate::scalar::{Scalar, FOUR_BITS, HALF_BITS, ONE_BITS, ZERO_BITS};

verus! {

/// A scalar field over `(x, y, z)`, as a tree. A parent owns its children.
#[derive(Debug, PartialEq)]
pub enum Expr {
    Const(Scalar),
    X,
    Y,
    Z,
    Add(Box<Expr>, Box<Expr>),
    Sub(Box<Expr>, Box<Expr>),
    Mul(Box<Expr>, Box<Expr>),
    Div(Box<Expr>, Box<Expr>),
    Neg(Box<Expr>),
    Sin(Box<Expr>),
    Cos(Box<Expr>),
    Exp(Box<Expr>),
    /// Sharp union.
    Min(Box<Expr>, Box<Expr>),
    /// Sharp intersection.
    Max(Box<Expr>, Box<Expr>),
    /// Smooth union with blend radius `k`.
    SMin { a: Box<Expr>, b: Box<Expr>, k: Scalar },
    /// Smooth intersection with blend radius `k`.
    SMax { a: Box<Expr>, b: Box<Expr>, k: Scalar },
    /// The child, moved by `(dx, dy, dz)`.
    Translate { expr: Box<Expr>, dx: Scalar, dy: Scalar, dz: Scalar },
    /// The child, turned about the z axis by `deg` degrees.
    RotateZ { expr: Box<Expr>, deg: Scalar },
}

/// The constant field `v`.
pub open spec fn konst(v: Scalar) -> Expr {
    Expr::Const(v)
}

/// The constant field whose value has the given bits.
pub open spec fn lit(bits: u64) -> Expr {
    Expr::Const(Scalar { bits })
}

pub open spec fn plus(a: Expr, b: Expr) -> Expr {
    Expr::Add(Box::new(a), Box::new(b))
}

pub open spec fn minus(a: Expr, b: Expr) -> Expr {
    Expr::Sub(Box::new(a), Box::new(b))
}

pub open spec fn times(a: Expr, b: Expr) -> Expr {
    Expr::Mul(Box::new(a), Box::new(b))
}

pub open spec fn over(a: Expr, b: Expr) -> Expr {
    Expr::Div(Box::new(a), Box::new(b))
}

pub open spec fn negated(a: Expr) -> Expr {
    Expr::Neg(Box::new(a))
}

pub open spec fn lower(a: Expr, b: Expr) -> Expr {
    Expr::Min(Box::new(a), Box::new(b))
}

pub open spec fn upper(a: Expr, b: Expr) -> Expr {
    Expr::Max(Box::new(a), Box::new(b))
}

/// `a` times itself.
pub open spec fn squared(a: Expr) -> Expr {
    times(a, a)
}

/// `x^2 + y^2`.
pub open spec fn radial2() -> Expr {
    plus(squared(Expr::X), squared(Expr::Y))
}

/// `x^2 + y^2 + z^2`.
pub open spec fn norm2() -> Expr {
    plus(radial2(), squared(Expr::Z))
}

/// `x^2 + y^2 + z^2 - r^2`.
pub open spec fn sphere_field(r: Scalar) -> Expr {
    minus(norm2(), squared(konst(r)))
}

/// `x^2 + y^2 + (z - zc)^2 - r^2`.
pub open spec fn sphere_shifted_field(r: Scalar, zc: Scalar) -> Expr {
    minus(plus(radial2(), squared(minus(Expr::Z, konst(zc)))), squared(konst(r)))
}

/// `x^2 + y^2 - r^2`: the unbounded cylinder about the z axis.
pub open spec fn cylinder_z_field(r: Scalar) -> Expr {
    minus(radial2(), squared(konst(r)))
}

/// `max(z0 - z, z - z1)`: the slab between the planes `z = z0` and `z = z1`.
pub open spec fn z_slab_field(z0: Scalar, z1: Scalar) -> Expr {
    upper(minus(konst(z0), Expr::Z), minus(Expr::Z, konst(z1)))
}

/// The cylinder of the given radius standing on the plane `z = 0`.
pub open spec fn cylinder_field(radius: Scalar, height: Scalar) -> Expr {
    upper(cylinder_z_field(radius), z_slab_field(Scalar { bits: ZERO_BITS }, height))
}

/// `((x^2 + y^2 + z^2) - (R^2 + r^2))^2 - 4 R^2 (x^2 + y^2)`.
pub open spec fn torus_field(major_r: Scalar, minor_r: Scalar) -> Expr {
    minus(
        squared(minus(norm2(), plus(squared(konst(major_r)), squared(konst(minor_r))))),
        times(times(times(lit(FOUR_BITS), konst(major_r)), konst(major_r)), radial2()),
    )
}

/// The outer disk, the complement of the inner disk, and the cap `|z| <= half_h`,
/// intersected.
pub open spec fn tube_field(outer_r: Scalar, inner_r: Scalar, half_h: Scalar) -> Expr {
    upper(
        upper(minus(radial2(), squared(konst(outer_r))), minus(squared(konst(inner_r)), radial2())),
        minus(squared(Expr::Z), squared(konst(half_h))),
    )
}

/// Half of the extent `s`.
pub open spec fn half_of(s: Scalar) -> Expr {
    times(konst(s), lit(HALF_BITS))
}

/// The two half-space residuals of a box of extent `s` along `axis`.
pub open spec fn box_pair(axis: Expr, s: Scalar) -> Expr {
    upper(
        minus(times(axis, lit(ONE_BITS)), half_of(s)),
        minus(negated(half_of(s)), axis),
    )
}

/// The largest of the six half-space residuals of the box centred at the origin.
pub open spec fn box3_field(sx: Scalar, sy: Scalar, sz: Scalar) -> Expr {
    upper(box_pair(Expr::X, sx), upper(box_pair(Expr::Y, sy), box_pair(Expr::Z, sz)))
}

impl Expr {
    /// The constant field `v`.
    pub fn c(v: Scalar) -> (r: Expr)
        ensures
            r == konst(v),
    {
        Expr::Const(v)
    }

    pub fn add(self, rhs: Expr) -> (r: Expr)
        ensures
            r == plus(self, rhs),
    {
        Expr::Add(Box::new(self), Box::new(rhs))
    }

    pub fn sub(self, rhs: Expr) -> (r: Expr)
        ensures
            r == minus(self, rhs),
    {
        Expr::Sub(Box::new(self), Box::new(rhs))
    }

    pub fn mul(self, rhs: Expr) -> (r: Expr)
        ensures
            r == times(self, rhs),
    {
        Expr::Mul(Box::new(self), Box::new(rhs))
    }

    pub fn div(self, rhs: Expr) -> (r: Expr)
        ensures
            r == over(self, rhs),
    {
        Expr::Div(Box::new(self), Box::new(rhs))
    }

    pub fn neg(self) -> (r: Expr)
        ensures
            r == negated(self),
    {
        Expr::Neg(Box::new(self))
    }

    pub fn sin(self) -> (r: Expr)
        ensures
            r == Expr::Sin(Box::new(self)),
    {
        Expr::Sin(Box::new(self))
    }

    pub fn cos(self) -> (r: Expr)
        ensures
            r == Expr::Cos(Box::new(self)),
    {
        Expr::Cos(Box::new(self))
    }

    pub fn exp(self) -> (r: Expr)
        ensures
            r == Expr::Exp(Box::new(self)),
    {
        Expr::Exp(Box::new(self))
    }

    /// A copy of the whole tree.
    pub fn duplicate(&self) -> (r: Expr)
        ensures
            r == *self,
        decreases *self,
    {
        match self {
            Expr::Const(v) => Expr::Const(*v),
            Expr::X => Expr::X,
            Expr::Y => Expr::Y,
            Expr::Z => Expr::Z,
            Expr::Add(a, b) => Expr::Add(Box::new(a.duplicate()), Box::new(b.duplicate())),
            Expr::Sub(a, b) => Expr::Sub(Box::new(a.duplicate()), Box::new(b.duplicate())),
            Expr::Mul(a, b) => Expr::Mul(Box::new(a.duplicate()), Box::new(b.duplicate())),
            Expr::Div(a, b) => Expr::Div(Box::new(a.duplicate()), Box::new(b.duplicate())),
            Expr::Neg(a) => Expr::Neg(Box::new(a.duplicate())),
            Expr::Sin(a) => Expr::Sin(Box::new(a.duplicate())),
            Expr::Cos(a) => Expr::Cos(Box::new(a.duplicate())),
            Expr::Exp(a) => Expr::Exp(Box::new(a.duplicate())),
            Expr::Min(a, b) => Expr::Min(Box::new(a.duplicate()), Box::new(b.duplicate())),
            Expr::Max(a, b) => Expr::Max(Box::new(a.duplicate()), Box::new(b.duplicate())),
            Expr::SMin { a, b, k } => Expr::SMin {
                a: Box::new(a.duplicate()),
                b: Box::new(b.duplicate()),
                k: *k,
            },
            Expr::SMax { a, b, k } => Expr::SMax {
                a: Box::new(a.duplicate()),
                b: Box::new(b.duplicate()),
                k: *k,
            },
            Expr::Translate { expr, dx, dy, dz } => Expr::Translate {
                expr: Box::new(expr.duplicate()),
                dx: *dx,
                dy: *dy,
                dz: *dz,
            },
            Expr::RotateZ { expr, deg } => Expr::RotateZ {
                expr: Box::new(expr.duplicate()),
                deg: *deg,
            },
        }
    }
}

impl Clone for Expr {
    fn clone(&self) -> (r: Expr)
        ensures
            r == *self,
    {
        self.duplicate()
    }
}

/// The constant field whose value has the given bits.
fn literal(bits: u64) -> (r: Expr)
    ensures
        r == lit(bits),
{
    Expr::Const(Scalar { bits })
}

/// `a` times itself.
fn square(a: Expr) -> (r: Expr)
    ensures
        r == squared(a),
{
    let b = a.duplicate();
    a.mul(b)
}

fn radial2_tree() -> (r: Expr)
    ensures
        r == radial2(),
{
    square(Expr::X).add(square(Expr::Y))
}

fn norm2_tree() -> (r: Expr)
    ensures
        r == norm2(),
{
    radial2_tree().add(square(Expr::Z))
}

/// The ball of radius `r` about the origin.
pub fn sphere(r: Scalar) -> (e: Expr)
    ensures
        e == sphere_field(r),
{
    norm2_tree().sub(square(Expr::c(r)))
}

/// The torus about the z axis, in its algebraic form.
pub fn torus(major_r: Scalar, minor_r: Scalar) -> (e: Expr)
    ensures
        e == torus_field(major_r, minor_r),
{
    let t = norm2_tree().sub(square(Expr::c(major_r)).add(square(Expr::c(minor_r))));
    let four_r2 = literal(FOUR_BITS).mul(Expr::c(major_r)).mul(Expr::c(major_r));
    square(t).sub(four_r2.mul(radial2_tree()))
}

/// The solid tube `inner_r <= sqrt(x^2 + y^2) <= outer_r`, `|z| <= half_h`.
pub fn tube(outer_r: Scalar, inner_r: Scalar, half_h: Scalar) -> (e: Expr)
    ensures
        e == tube_field(outer_r, inner_r, half_h),
{
    let outer = radial2_tree().sub(square(Expr::c(outer_r)));
    let inner = square(Expr::c(inner_r)).sub(radial2_tree());
    let caps = square(Expr::Z).sub(square(Expr::c(half_h)));
    intersect(intersect(outer, inner), caps)
}

/// The ball of radius `r` about `(0, 0, zc)`.
pub fn sphere_shifted(r: Scalar, zc: Scalar) -> (e: Expr)
    ensures
        e == sphere_shifted_field(r, zc),
{
    let z = Expr::Z.sub(Expr::c(zc));
    radial2_tree().add(square(z)).sub(square(Expr::c(r)))
}

/// The unbounded cylinder of radius `r` about the z axis.
pub fn cylinder_z(r: Scalar) -> (e: Expr)
    ensures
        e == cylinder_z_field(r),
{
    radial2_tree().sub(square(Expr::c(r)))
}

/// The cylinder of the given radius between `z = 0` and `z = height`.
pub fn cylinder(radius: Scalar, height: Scalar) -> (e: Expr)
    ensures
        e == cylinder_field(radius, height),
{
    intersect(cylinder_z(radius), z_slab(Scalar { bits: ZERO_BITS }, height))
}

/// The two half-space residuals of a box of extent `s` along `axis`.
fn box_pair_tree(axis: Expr, s: Scalar) -> (e: Expr)
    ensures
        e == box_pair(axis, s),
{
    let other = axis.duplicate();
    let h = Expr::c(s).mul(literal(HALF_BITS));
    let hn = h.duplicate().neg();
    intersect(axis.mul(literal(ONE_BITS)).sub(h), hn.sub(other))
}

/// The box of extents `(sx, sy, sz)` centred at the origin.
pub fn box3(sx: Scalar, sy: Scalar, sz: Scalar) -> (e: Expr)
    ensures
        e == box3_field(sx, sy, sz),
{
    intersect(
        box_pair_tree(Expr::X, sx),
        intersect(box_pair_tree(Expr::Y, sy), box_pair_tree(Expr::Z, sz)),
    )
}

/// The slab between the planes `z = z0` and `z = z1`.
pub fn z_slab(z0: Scalar, z1: Scalar) -> (e: Expr)
    ensures
        e == z_slab_field(z0, z1),
{
    intersect(Expr::c(z0).sub(Expr::Z), Expr::Z.sub(Expr::c(z1)))
}

/// The points of `a` or of `b`.
pub fn union(a: Expr, b: Expr) -> (e: Expr)
    ensures
        e == lower(a, b),
{
    Expr::Min(Box::new(a), Box::new(b))
}

/// The points of both `a` and `b`.
pub fn intersect(a: Expr, b: Expr) -> (e: Expr)
    ensures
        e == upper(a, b),
{
    Expr::Max(Box::new(a), Box::new(b))
}

/// The points of `a` that are not in `b`.
pub fn subtract(a: Expr, b: Expr) -> (e: Expr)
    ensures
        e == upper(a, negated(b)),
{
    Expr::Max(Box::new(a), Box::new(b.neg()))
}

} // verus!
