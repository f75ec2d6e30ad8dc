//! Provider-neutral authorization decisions.
//!
//! This module defines a boundary between verified identity evidence and
//! deployment-specific policy: a provider request built from verified
//! evidence, and the crate-owned validation of the provider's decision.

pub mod capability;
pub mod contract;
pub mod opaque;
pub mod request;
pub mod decision;
pub mod laws;
