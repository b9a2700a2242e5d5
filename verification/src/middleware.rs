//! What the layers around the request handlers decide.

pub mod cors;
