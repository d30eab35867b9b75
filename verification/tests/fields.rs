use morse_kernel::expr::{
    box3, cylinder, cylinder_z, intersect, sphere, sphere_shifted, subtract, torus, tube, union,
    z_slab, Expr,
};
use morse_kernel::scalar::Scalar;
use morse_kernel::topology::{
    expr_to_topology, topology_to_expr, Param, ParamValue, TopologyNode, TopologyProgram,
    TopologySignature,
};

fn s(v: f64) -> Scalar {
    Scalar::from_bits(v.to_bits())
}

fn f(v: Scalar) -> f64 {
    f64::from_bits(v.to_bits())
}

#[derive(Clone, Copy)]
struct Point {
    x: f64,
    y: f64,
    z: f64,
}

/// The value of the field at a point, in double precision.
fn eval(expr: &Expr, p: Point) -> f64 {
    match expr {
        Expr::Const(c) => f(*c),
        Expr::X => p.x,
        Expr::Y => p.y,
        Expr::Z => p.z,
        Expr::Add(a, b) => eval(a, p) + eval(b, p),
        Expr::Sub(a, b) => eval(a, p) - eval(b, p),
        Expr::Mul(a, b) => eval(a, p) * eval(b, p),
        Expr::Div(a, b) => eval(a, p) / eval(b, p),
        Expr::Neg(a) => f(s(eval(a, p)).neg()),
        Expr::Sin(a) => eval(a, p).sin(),
        Expr::Cos(a) => eval(a, p).cos(),
        Expr::Exp(a) => eval(a, p).exp(),
        Expr::Min(a, b) => f(s(eval(a, p)).min(s(eval(b, p)))),
        Expr::Max(a, b) => f(s(eval(a, p)).max(s(eval(b, p)))),
        Expr::SMin { a, b, k } => {
            let (va, vb, k) = (eval(a, p), eval(b, p), f(*k));
            let h = (0.5 + 0.5 * (vb - va) / k).clamp(0.0, 1.0);
            vb * (1.0 - h) + va * h - k * h * (1.0 - h)
        }
        Expr::SMax { a, b, k } => {
            let (va, vb, k) = (eval(a, p), eval(b, p), f(*k));
            let h = (0.5 - 0.5 * (vb - va) / k).clamp(0.0, 1.0);
            vb * (1.0 - h) + va * h + k * h * (1.0 - h)
        }
        Expr::Translate { expr, dx, dy, dz } => eval(
            expr,
            Point { x: p.x - f(*dx), y: p.y - f(*dy), z: p.z - f(*dz) },
        ),
        Expr::RotateZ { expr, deg } => {
            let a = (-f(*deg)).to_radians();
            let (c, sn) = (a.cos(), a.sin());
            eval(expr, Point { x: c * p.x - sn * p.y, y: sn * p.x + c * p.y, z: p.z })
        }
    }
}

fn at(x: f64, y: f64, z: f64) -> Point {
    Point { x, y, z }
}

fn number(key: &str, v: f64) -> Param {
    Param { key: key.to_string(), value: ParamValue::Number(s(v)) }
}

#[test]
fn sphere_eval_signs() {
    let e = sphere(s(1.0));
    assert!(eval(&e, Point { x: 0.0, y: 0.0, z: 0.0 }) < 0.0);
    assert!(eval(&e, Point { x: 2.0, y: 0.0, z: 0.0 }) > 0.0);
}

#[test]
fn sphere_values_at_centre_and_outside() {
    let e = sphere(s(1.0));
    assert_eq!(eval(&e, at(0.0, 0.0, 0.0)), -1.0);
    assert_eq!(eval(&e, at(2.0, 0.0, 0.0)), 3.0);
}

#[test]
fn tube_eval_signs() {
    let t = tube(s(1.0), s(0.5), s(1.2));
    assert!(eval(&t, Point { x: 0.75, y: 0.0, z: 0.0 }) < 0.0);
    assert!(eval(&t, Point { x: 0.25, y: 0.0, z: 0.0 }) > 0.0);
    assert!(eval(&t, Point { x: 1.2, y: 0.0, z: 0.0 }) > 0.0);
    assert!(eval(&t, Point { x: 0.75, y: 0.0, z: 1.3 }) > 0.0);
}

#[test]
fn sphere_sign_matches_the_ball_on_a_grid() {
    let r = 0.8;
    let e = sphere(s(r));
    for i in -6..=6 {
        for j in -6..=6 {
            for k in -6..=6 {
                let (x, y, z) = (i as f64 * 0.21, j as f64 * 0.21, k as f64 * 0.21);
                let d2 = x * x + y * y + z * z;
                let v = eval(&e, at(x, y, z));
                if d2 < r * r - 1e-9 {
                    assert!(v < 0.0);
                } else if d2 > r * r + 1e-9 {
                    assert!(v > 0.0);
                }
            }
        }
    }
}

#[test]
fn box_sign_matches_the_box_on_a_grid() {
    let (sx, sy, sz) = (1.0, 0.6, 0.4);
    let e = box3(s(sx), s(sy), s(sz));
    for i in -7..=7 {
        for j in -7..=7 {
            for k in -7..=7 {
                let (x, y, z) = (i as f64 * 0.11, j as f64 * 0.11, k as f64 * 0.11);
                let v = eval(&e, at(x, y, z));
                let m = (x.abs() - sx * 0.5).max(y.abs() - sy * 0.5).max(z.abs() - sz * 0.5);
                if m < -1e-9 {
                    assert!(v < 0.0);
                } else if m > 1e-9 {
                    assert!(v > 0.0);
                }
            }
        }
    }
}

#[test]
fn box_value_is_the_largest_residual() {
    let e = box3(s(2.0), s(4.0), s(6.0));
    assert_eq!(eval(&e, at(0.0, 0.0, 0.0)), -1.0);
    assert_eq!(eval(&e, at(1.5, 0.0, 0.0)), 0.5);
    assert_eq!(eval(&e, at(0.0, -2.5, 0.0)), 0.5);
    assert_eq!(eval(&e, at(0.0, 0.0, 4.0)), 1.0);
}

#[test]
fn cylinder_signs() {
    let e = cylinder(s(0.5), s(2.0));
    assert!(eval(&e, at(0.0, 0.0, 1.0)) < 0.0);
    assert!(eval(&e, at(0.4, 0.0, 1.9)) < 0.0);
    assert!(eval(&e, at(0.6, 0.0, 1.0)) > 0.0);
    assert!(eval(&e, at(0.0, 0.0, -0.1)) > 0.0);
    assert!(eval(&e, at(0.0, 0.0, 2.1)) > 0.0);
    assert_eq!(eval(&e, at(0.0, 0.0, 0.5)), -0.25);
}

#[test]
fn torus_value_is_its_algebraic_form() {
    // (q - (R^2 + r^2))^2 - 4 R^2 (x^2 + y^2), with q = x^2 + y^2 + z^2
    let e = torus(s(1.0), s(0.5));
    assert_eq!(eval(&e, at(2.0, 0.0, 0.0)), 2.75 * 2.75 - 16.0);
    assert_eq!(eval(&e, at(0.0, 0.0, 0.0)), 1.25 * 1.25);
    assert_eq!(eval(&e, at(0.0, 1.0, 2.0)), 3.75 * 3.75 - 4.0);
    assert!(eval(&e, at(1.0, 0.0, 0.0)) < 0.0);
    assert!(eval(&e, at(0.0, 0.0, 3.0)) > 0.0);
}

#[test]
fn shifted_sphere_and_cylinder_about_z() {
    let e = sphere_shifted(s(1.0), s(3.0));
    assert_eq!(eval(&e, at(0.0, 0.0, 3.0)), -1.0);
    assert!(eval(&e, at(0.0, 0.0, 0.0)) > 0.0);
    let c = cylinder_z(s(2.0));
    assert_eq!(eval(&c, at(1.0, 0.0, 100.0)), -3.0);
    assert_eq!(eval(&c, at(3.0, 0.0, -100.0)), 5.0);
}

#[test]
fn slab_and_csg_helpers() {
    let slab = z_slab(s(1.0), s(2.0));
    assert_eq!(eval(&slab, at(0.0, 0.0, 1.5)), -0.5);
    assert_eq!(eval(&slab, at(0.0, 0.0, 0.0)), 1.0);
    assert_eq!(eval(&slab, at(0.0, 0.0, 4.0)), 2.0);
    let a = sphere(s(1.0));
    let b = Expr::Translate { expr: Box::new(sphere(s(1.0))), dx: s(1.5), dy: s(0.0), dz: s(0.0) };
    let u = union(a.clone(), b.clone());
    let i = intersect(a.clone(), b.clone());
    let d = subtract(a.clone(), b.clone());
    assert_eq!(u, Expr::Min(Box::new(a.clone()), Box::new(b.clone())));
    assert_eq!(i, Expr::Max(Box::new(a.clone()), Box::new(b.clone())));
    assert_eq!(d, Expr::Max(Box::new(a.clone()), Box::new(Expr::Neg(Box::new(b.clone())))));
    // in a only, in both, in b only
    for (p, in_a, in_b) in [
        (at(-0.5, 0.0, 0.0), true, false),
        (at(0.75, 0.0, 0.0), true, true),
        (at(2.0, 0.0, 0.0), false, true),
        (at(0.0, 3.0, 0.0), false, false),
    ] {
        assert_eq!(eval(&u, p) < 0.0, in_a || in_b);
        assert_eq!(eval(&i, p) < 0.0, in_a && in_b);
        assert_eq!(eval(&d, p) < 0.0, in_a && !in_b);
    }
}

#[test]
fn topology_roundtrip_matches_eval() {
    let e = tube(s(1.0), s(0.5), s(1.0)).add(sphere(s(0.2)));
    let topo = expr_to_topology(&e);
    let e2 = topology_to_expr(&topo).expect("topology to expr");
    let p = Point { x: 0.71, y: -0.22, z: 0.31 };
    let v1 = eval(&e, p);
    let v2 = eval(&e2, p);
    assert!((v1 - v2).abs() < 1e-10);
}

#[test]
fn topology_primitive_ops_compile() {
    let topo = TopologyProgram {
        format: "morse.topo.v1".to_string(),
        root: "n4".to_string(),
        nodes: vec![
            TopologyNode {
                id: "n1".to_string(),
                op: "sphere".to_string(),
                inputs: vec![],
                params: vec![number("r", 1.0)],
            },
            TopologyNode {
                id: "n2".to_string(),
                op: "cylinder".to_string(),
                inputs: vec![],
                params: vec![number("r", 0.25), number("h", 2.0)],
            },
            TopologyNode {
                id: "n3".to_string(),
                op: "translate".to_string(),
                inputs: vec!["n2".to_string()],
                params: vec![number("dx", 0.75), number("dy", 0.0), number("dz", 0.0)],
            },
            TopologyNode {
                id: "n4".to_string(),
                op: "difference".to_string(),
                inputs: vec!["n1".to_string(), "n3".to_string()],
                params: vec![],
            },
        ],
        invariants: vec!["field_is_truth".to_string()],
        signature: TopologySignature { betti_hint: [1, 0, 0], euler_hint: 1, genus_hint: 0 },
    };
    let e = topology_to_expr(&topo).expect("compile topology");
    assert!(eval(&e, Point { x: 0.0, y: 0.0, z: 0.0 }) < 0.0);
    assert!(eval(&e, Point { x: 0.75, y: 0.0, z: 0.2 }) > 0.0);
}

#[test]
fn round_trip_keeps_the_value_everywhere_sampled() {
    let e = Expr::SMin {
        a: Box::new(Expr::Translate {
            expr: Box::new(box3(s(1.0), s(1.0), s(1.0))),
            dx: s(0.25),
            dy: s(-0.5),
            dz: s(0.125),
        }),
        b: Box::new(Expr::RotateZ {
            expr: Box::new(torus(s(1.0), s(0.25)).div(Expr::X.exp().add(Expr::Y.sin().cos()))),
            deg: s(30.0),
        }),
        k: s(0.1),
    };
    let back = topology_to_expr(&expr_to_topology(&e)).expect("decodes");
    for i in -3..=3 {
        for j in -3..=3 {
            let p = at(i as f64 * 0.37, j as f64 * 0.29, (i + j) as f64 * 0.13);
            let (v1, v2) = (eval(&e, p), eval(&back, p));
            assert!((v1 - v2).abs() < 1e-10);
            assert_eq!(v1.to_bits(), v2.to_bits());
        }
    }
}

#[test]
fn min_and_max_bound_their_inputs() {
    let a = sphere(s(1.0));
    let b = tube(s(1.0), s(0.5), s(1.2));
    let lo = union(a.clone(), b.clone());
    let hi = intersect(a.clone(), b.clone());
    for i in -4..=4 {
        for j in -4..=4 {
            let p = at(i as f64 * 0.31, j as f64 * 0.27, (i - j) as f64 * 0.19);
            let (va, vb) = (eval(&a, p), eval(&b, p));
            assert!(eval(&lo, p) <= va && eval(&lo, p) <= vb);
            assert!(eval(&hi, p) >= va && eval(&hi, p) >= vb);
            assert_eq!(eval(&lo, p), va.min(vb));
            assert_eq!(eval(&hi, p), va.max(vb));
        }
    }
}

#[test]
fn csg_operators_have_the_signs_of_the_set_operations() {
    let a = sphere(s(1.0));
    let b = Expr::Translate { expr: Box::new(box3(s(1.0), s(1.0), s(4.0))), dx: s(0.8), dy: s(0.0), dz: s(0.0) };
    let u = union(a.clone(), b.clone());
    let i = intersect(a.clone(), b.clone());
    let d = subtract(a.clone(), b.clone());
    for ix in -8..=8 {
        for iy in -8..=8 {
            for iz in -8..=8 {
                let p = at(ix as f64 * 0.23, iy as f64 * 0.23, iz as f64 * 0.23);
                let (va, vb) = (eval(&a, p), eval(&b, p));
                assert_eq!(eval(&u, p) < 0.0, va < 0.0 || vb < 0.0);
                assert_eq!(eval(&i, p) < 0.0, va < 0.0 && vb < 0.0);
                assert_eq!(eval(&d, p) < 0.0, va < 0.0 && vb > 0.0);
            }
        }
    }
}
