//! What the request handlers decide.

pub mod posts;
pub mod users;
