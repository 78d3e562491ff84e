use vstd::prelude::*;

verus! {

/// Error taxonomy of the toolkit.
///
/// Every flow relation, root finder and integrator validates its own inputs
/// and reports a failure through one of these kinds instead of panicking or
/// propagating a meaningless value.
#[derive(Clone, Copy, Debug, PartialEq, Eq, Structural)]
pub enum FlowError {
    /// A specific heat ratio that is not greater than one.
    InvalidSpecificHeatRatio,
    /// A Mach number outside the domain a relation requires.
    InvalidMachNumber,
    /// A pressure, temperature or density ratio outside `(0, 1]`.
    InvalidRatio,
    /// An angle outside `[0, pi/2]`.
    InvalidAngle,
    /// An argument outside the domain of a mathematical operation,
    /// such as the square root or arcsine of a value out of range,
    /// or a division by zero.
    MathDomainError,
    /// A root finder exhausted its iteration budget without converging.
    ConvergenceFailure,
    /// A Newton-Raphson derivative too small to divide by.
    SingularDerivative,
    /// A division by a vanishing tangential velocity component in the
    /// Taylor-Maccoll or streamline derivatives.
    SingularFlowField,
    /// An intermediate value too large in magnitude for the fixed-point
    /// representation.
    OutOfRange,
}

impl FlowError {
    /// A short description of the failure, for diagnostics.
    pub fn message(self) -> &'static str {
        match self {
            FlowError::InvalidSpecificHeatRatio => "invalid specific heat ratio",
            FlowError::InvalidMachNumber => "invalid mach number",
            FlowError::InvalidRatio => "invalid ratio",
            FlowError::InvalidAngle => "invalid angle",
            FlowError::MathDomainError => "math error",
            FlowError::ConvergenceFailure => "solution not converged",
            FlowError::SingularDerivative => "derivative is too small",
            FlowError::SingularFlowField => "singular flow field",
            FlowError::OutOfRange => "value out of fixed-point range",
        }
    }
}

} // verus!
