use vstd::prelude::*;

pub mod adaptive_strategy;
pub mod error;
pub mod euler;
pub mod integrator;
pub mod problem;
pub mod rosenbrock23;
pub mod scalar;
pub mod step_algorithm;
pub mod system;
pub mod tsit5;

pub use adaptive_strategy::{
    AdaptiveStrategy, ConstantStep, IntegralController, ProportionalIntegralController,
};
pub use error::{Capability, SolveError};
pub use euler::Euler;
pub use integrator::{Integrator, TSpan};
pub use problem::{OdeProblem, OdeSolution};
pub use rosenbrock23::{Rosenbrock23, Rosenbrock23Cache};
pub use scalar::Scalar;
pub use step_algorithm::StepAlgorithm;
pub use system::OdeSystem;
pub use tsit5::{Tsit5, Tsit5Cache};

verus! {

} // verus!
