//! Dispatch and iteration control for European option pricing under the
//! spot (Black–Scholes) and forward (Black-76) models.
//!
//! The closed-form formulas work on double-precision reals and are evaluated
//! by the host around this crate. What is proved here is the part of the
//! engine that decides: which formula of the catalogue answers a request, and
//! how the Newton iteration of the implied-volatility solver proceeds and
//! stops.

pub mod catalogue;
pub mod newton;

pub use catalogue::{Formula, Model, OptionKind, Quantity};
pub use newton::{Action, NewtonControl, Outcome};
