//! Disk capacity planning for a distributed search-index cluster.
//!
//! All sizes are decimal gigabytes, held in exact fixed-point form: an input
//! real number is a whole count of milli-units (thousandths of a gigabyte, or
//! thousandths of a dimensionless fraction), and every derived quantity is an
//! exact rational `num / den`. The derivation chain is therefore free of
//! rounding; only the rendered report rounds, and it does so explicitly.

pub mod laws;
pub mod planner;
pub mod rat;
pub mod render;

pub use planner::plan_capacity;
pub use planner::Plan;
pub use planner::PlanError;
pub use rat::Frac;
