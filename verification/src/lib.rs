//! Decision logic for landing a feature branch on the integration branch.

pub mod analysis;
pub mod confirm;
pub mod error;
pub mod laws;
pub mod model;
pub mod naming;
pub mod protocol;
pub mod workflow;
