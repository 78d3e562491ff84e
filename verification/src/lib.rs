//! Numerical toolkit for designing axisymmetric Busemann-type supersonic
//! inlets.
//!
//! The crate is built on a fixed-point scalar type ([`scalar::Scalar`]) whose
//! arithmetic, square root and elementary functions are implemented and
//! verified down to the integer level.  On top of it stand generic iterative
//! root finders ([`utils::numerics`]), isentropic-flow and oblique-shock
//! relations ([`utils::isentropic`], [`utils::obliqueshock`]), a conical-flow
//! integrator for the Taylor-Maccoll equations ([`taylormaccoll`]), and the
//! inlet-design orchestration layer ([`busemann`]).
//!
//! Every computation has an exact specification: the contract of each public
//! function pins its result (value and error alike) to a spec-level mirror of
//! the fixed-point algorithm, so callers can reason about the library purely
//! through its contracts.

pub mod busemann;
pub mod error;
pub mod scalar;
pub mod taylormaccoll;
pub mod utils;
