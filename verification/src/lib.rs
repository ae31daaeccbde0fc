//! Application-facing model of a constrained-application messaging protocol:
//! a typed option registry with length validation, a message envelope and its
//! conversion to and from the parts of a native protocol data unit, a response
//! layer that enforces per-option applicability and cardinality rules, and a
//! reference-counted session-handle model bridging application code and an
//! externally owned network engine.

pub mod codec;
pub mod crypto;
pub mod error;
pub mod message;
pub mod protocol;
pub mod response;
pub mod session;
pub mod uri;
