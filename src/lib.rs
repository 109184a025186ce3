//! Chaum-Pedersen zero-knowledge authentication: the protocol arithmetic
//! over a prime-order subgroup, the prover and verifier roles, and the
//! stateful authentication service.

pub mod actors;
pub mod laws;
pub mod natural;
pub mod service;
pub mod system;

pub use actors::{Prover, Verifier};
pub use natural::Natural;
pub use service::{AuthError, AuthService};
pub use system::{ZKPParameters, ZKPSystem, ZKPSystemBuilder};
