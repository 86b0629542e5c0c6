//! Permission resolution for a guild: a bit-flag permission set, the entity
//! model (roles, members, channels, overwrites), an overwrite resolver, the
//! resolution engine, a snapshot store, and a permission guard for mutating
//! operations.

pub mod engine;
pub mod guard;
pub mod laws;
pub mod model;
pub mod permissions;
pub mod resolver;
pub mod store;
