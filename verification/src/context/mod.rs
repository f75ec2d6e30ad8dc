//! Versioned, transport-neutral authorization context.

pub mod reason;
pub mod evidence;
pub mod binding;
pub mod auth_context;
pub mod laws;
