//! An implicit-geometry kernel.
//!
//! A solid is given by a scalar field over space: a point is inside where the
//! field is negative, outside where it is positive, and on the boundary where
//! it is zero. This crate holds the part of the kernel that works on the
//! shape of a field and not on its values:
//!
//! - the expression algebra and the shape primitives (`expr`);
//! - the topology program, the portable graph form in which a field is kept
//!   and sent, with its encoder and decoder (`topology`, `encode`, `decode`),
//!   the programs that decode (`validity`), and the proof that decoding
//!   undoes encoding (`round_trip`);
//! - the shader emitter (`glsl`);
//! - the Morse index of a critical point from the signs of the eigenvalues
//!   of its Hessian (`morse`);
//! - intervals, with the bounds of a field that follow from sign and order
//!   alone (`interval`).
//!
//! Numbers are double-precision values held as their bits (`scalar`). The
//! crate carries them, compares them and turns their signs; arithmetic on
//! them, and with it the evaluation of a field, is left to the caller.
pub mod scalar;
pub mod expr;
pub mod ident;
pub mod ops;
pub mod topology;
pub mod decode;
pub mod encode;
pub mod validity;
pub mod round_trip;
pub mod glsl;
pub mod morse;
pub mod interval;
