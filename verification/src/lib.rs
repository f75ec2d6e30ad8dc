//! Authorization-context finalization, provider-decision validation, relay
//! admin request authorization and managed-agent desktop bookkeeping, with
//! their contracts checked by Verus.

pub mod admin;
pub mod codec;
pub mod context;
pub mod desktop;
pub mod ids;
pub mod provider;
pub mod redaction;
pub mod text;
