//! Lambert boundary-value solver core: verified decision and policy layer.
//!
//! The crate models the discrete structure of a Lambert solver — transfer
//! direction selection, input validation, the revolution-count feasibility
//! gate, the iteration-budget state machines that drive the root-finding
//! loops, and the batch aggregation rules — and proves exact contracts for
//! each. The floating-point arithmetic that evaluates Stumpff functions and
//! time-of-flight residuals is carried out by the surrounding application
//! layer, which reports each outcome back to these verified policies.

pub mod direction;
pub mod errors;
pub mod frames;
pub mod iteration;
pub mod lambert;
pub mod solution;
