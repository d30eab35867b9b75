use morse_kernel::expr::{sphere, Expr};
use morse_kernel::glsl::{emit_with_coords, to_glsl, GlslToken};
use morse_kernel::scalar::Scalar;

fn s(v: f64) -> Scalar {
    Scalar::from_bits(v.to_bits())
}

fn f(v: Scalar) -> f64 {
    f64::from_bits(v.to_bits())
}

/// The tokens written one after another, numbers with twelve decimals.
fn render(tokens: &[GlslToken]) -> String {
    let mut out = String::new();
    for t in tokens {
        match t {
            GlslToken::Text(text) => out.push_str(text),
            GlslToken::Number(v) => out.push_str(&format!("{:.12}", f(*v))),
            GlslToken::TurnCos(deg) => {
                out.push_str(&format!("{:.12}", (-f(*deg)).to_radians().cos()))
            }
            GlslToken::TurnSin(deg) => {
                out.push_str(&format!("{:.12}", (-f(*deg)).to_radians().sin()))
            }
        }
    }
    out
}

fn body(e: &Expr) -> String {
    let x = vec![GlslToken::Text("p.x")];
    let y = vec![GlslToken::Text("p.y")];
    let z = vec![GlslToken::Text("p.z")];
    render(&emit_with_coords(e, &x, &y, &z))
}

#[test]
fn glsl_codegen_contains_sdf() {
    let e = sphere(s(1.0));
    let g = render(&to_glsl(&e));
    assert!(g.contains("float sdf"));
}

#[test]
fn shader_of_the_unit_sphere() {
    let g = render(&to_glsl(&sphere(s(1.0))));
    assert_eq!(
        g,
        "float sdf(vec3 p) {\n  return ((((p.x * p.x) + (p.y * p.y)) + (p.z * p.z)) - (1.000000000000 * 1.000000000000));\n}"
    );
    assert_eq!(g.matches("return").count(), 1);
    assert_eq!(g.matches(';').count(), 1);
}

#[test]
fn leaves_and_operators() {
    assert_eq!(body(&Expr::c(s(0.5))), "0.500000000000");
    assert_eq!(body(&Expr::c(s(-2.0))), "-2.000000000000");
    assert_eq!(body(&Expr::c(s(1.0 / 3.0))), "0.333333333333");
    assert_eq!(body(&Expr::X), "p.x");
    assert_eq!(body(&Expr::Y), "p.y");
    assert_eq!(body(&Expr::Z), "p.z");
    assert_eq!(body(&Expr::X.add(Expr::Y)), "(p.x + p.y)");
    assert_eq!(body(&Expr::X.sub(Expr::Y)), "(p.x - p.y)");
    assert_eq!(body(&Expr::X.mul(Expr::Y)), "(p.x * p.y)");
    assert_eq!(body(&Expr::X.div(Expr::Y)), "(p.x / p.y)");
    assert_eq!(body(&Expr::Z.neg()), "(-p.z)");
    assert_eq!(body(&Expr::Z.sin()), "sin(p.z)");
    assert_eq!(body(&Expr::Z.cos()), "cos(p.z)");
    assert_eq!(body(&Expr::Z.exp()), "exp(p.z)");
    assert_eq!(body(&Expr::Min(Box::new(Expr::X), Box::new(Expr::Y))), "min(p.x, p.y)");
    assert_eq!(body(&Expr::Max(Box::new(Expr::X), Box::new(Expr::Y))), "max(p.x, p.y)");
}

#[test]
fn smooth_operators_are_written_in_closed_form() {
    let smin = Expr::SMin { a: Box::new(Expr::X), b: Box::new(Expr::Y), k: s(0.25) };
    let (a, b, k) = ("p.x", "p.y", "0.250000000000");
    assert_eq!(
        body(&smin),
        format!(
            "(mix({b}, {a}, clamp(0.5 + 0.5*(({b})-({a}))/{k}, 0.0, 1.0)) - {k}*clamp(0.5 + 0.5*(({b})-({a}))/{k}, 0.0, 1.0)*(1.0-clamp(0.5 + 0.5*(({b})-({a}))/{k}, 0.0, 1.0)))"
        )
    );
    let smax = Expr::SMax { a: Box::new(Expr::X), b: Box::new(Expr::Y), k: s(0.25) };
    assert_eq!(
        body(&smax),
        format!(
            "(mix({b}, {a}, clamp(0.5 - 0.5*(({b})-({a}))/{k}, 0.0, 1.0)) + {k}*clamp(0.5 - 0.5*(({b})-({a}))/{k}, 0.0, 1.0)*(1.0-clamp(0.5 - 0.5*(({b})-({a}))/{k}, 0.0, 1.0)))"
        )
    );
}

#[test]
fn translate_substitutes_shifted_coordinates() {
    let e = Expr::Translate {
        expr: Box::new(Expr::X.add(Expr::Y.mul(Expr::Z))),
        dx: s(1.0),
        dy: s(-2.0),
        dz: s(0.5),
    };
    assert_eq!(
        body(&e),
        "((p.x - 1.000000000000) + ((p.y - -2.000000000000) * (p.z - 0.500000000000)))"
    );
    let twice = Expr::Translate { expr: Box::new(e), dx: s(3.0), dy: s(0.0), dz: s(0.0) };
    assert_eq!(
        body(&twice),
        "(((p.x - 3.000000000000) - 1.000000000000) + (((p.y - 0.000000000000) - -2.000000000000) * ((p.z - 0.000000000000) - 0.500000000000)))"
    );
}

#[test]
fn rotate_substitutes_turned_coordinates() {
    let e = Expr::RotateZ { expr: Box::new(Expr::X.add(Expr::Y).add(Expr::Z)), deg: s(90.0) };
    let a = (-90.0f64).to_radians();
    let (c, sn) = (format!("{:.12}", a.cos()), format!("{:.12}", a.sin()));
    assert_eq!(
        body(&e),
        format!("((({c}*p.x - {sn}*p.y) + ({sn}*p.x + {c}*p.y)) + p.z)")
    );
    assert_eq!(sn, "-1.000000000000");
}

#[test]
fn emission_is_a_function_of_the_tree() {
    let e = sphere(s(0.75)).add(Expr::X.sin());
    assert_eq!(to_glsl(&e), to_glsl(&e.clone()));
}

#[test]
fn coordinates_are_threaded_as_given() {
    let x = vec![GlslToken::Text("u"), GlslToken::Number(s(1.0))];
    let y = vec![GlslToken::Text("v")];
    let z = vec![GlslToken::Text("w")];
    let out = emit_with_coords(&Expr::X.mul(Expr::Z), &x, &y, &z);
    assert_eq!(
        out,
        vec![
            GlslToken::Text("("),
            GlslToken::Text("u"),
            GlslToken::Number(s(1.0)),
            GlslToken::Text(" * "),
            GlslToken::Text("w"),
            GlslToken::Text(")"),
        ]
    );
}
