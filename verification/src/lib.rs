//! Runtime core for stand-in objects: a registry of single-use answers filed
//! under method identities, and the wrapper that routes every call either to
//! the real value or to that registry.

pub mod laws;
pub mod maybe_quack;
pub mod quack;

pub use maybe_quack::MaybeQuack;
pub use quack::{MethodIdentity, MockError, Quack};
