//! An idempotent secret-provisioning engine.
//!
//! Secret material is generated from declarative specifications and written
//! to a namespaced key-value store exactly once per declared name: a write
//! never overwrites an existing value, a name conflict is a terminal success,
//! and each item of a batch reaches its own outcome without disturbing the
//! others.
pub mod apply;
pub mod codec;
pub mod generate;
pub mod secrets;
pub mod store;
