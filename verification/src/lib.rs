//! Gateway core for a local tool-provider registry: binding resolution,
//! secret-vault framing, dispatch planning and invocation routing.
pub mod models;
pub mod dispatch;
pub mod gateway;
pub mod ids;
pub mod import;
pub mod jsontext;
pub mod registry;
pub mod resolver;
pub mod strutil;
pub mod vault;
