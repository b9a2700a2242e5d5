//! The broker that runs beside the request handlers.

pub mod decoder;
pub mod fanout;
pub mod fanout_laws;
pub mod posts_broker;
pub mod posts_broker_laws;
pub mod registry;
pub mod registry_laws;
