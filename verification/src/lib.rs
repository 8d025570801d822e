//! The boundary between a module-bundling engine and the plugins that
//! customise it: the records that cross it, the conversions between the
//! plugin-facing records and the engine's own, and the rules by which the
//! hooks of the registered plugins are invoked and their replies folded back.
//!
//! - [`schema`] holds the plugin-facing records, [`engine`] the engine's own,
//!   and [`model`] what both stand for.
//! - [`convert`] holds the conversions between the two, and what they keep.
//! - [`table`] holds the modules of a chunk under their ids.
//! - [`hooks`] names the hooks and holds a plugin's registration;
//!   [`registry`] keeps the registrations in order and says who is called.
//! - [`dispatch`] says what the replies of the plugins called add up to.
//!
//! Calling a hook is left to the caller. No function here panics on any input;
//! whatever a plugin hands back, the engine's records are only ever replaced
//! by whole, well-formed values.

pub mod convert;
pub mod dispatch;
pub mod engine;
pub mod hooks;
pub mod model;
pub mod registry;
pub mod schema;
pub mod table;
