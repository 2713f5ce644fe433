//! A generic curve algebra: an abstract contract for parametric curves
//! (evaluation, derivatives, parameter domain) together with combinators
//! built on that contract alone — affine reparametrization, concatenation
//! with continuity validation, splitting, and a fold accumulator — plus a
//! randomized trial harness that exercises the capability laws against any
//! conforming implementation.

pub mod frac;
pub mod curve;
pub mod shapes;
pub mod collector;
pub mod descriptor;
pub mod harness;
pub mod laws;

pub use frac::Frac;
