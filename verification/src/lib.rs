//! A registry of uniquely identified, individually owned tokens, with
//! delegated transfer rights and a two-phase transfer that the receiving
//! party may accept or reject.

pub mod approvals;
pub mod error;
pub mod greeting;
pub mod model;
pub mod token;
pub mod registry;
pub mod laws;
pub mod payment;
