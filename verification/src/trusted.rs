//! Contracts that are believed, not proved: declarations of types that other
//! crates define, and thin calls into them.

pub mod channel;
pub mod concurrent_map;
pub mod ident;
pub mod json;
pub mod text;
