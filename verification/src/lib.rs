//! Connections to MongoDB for an interactive shell: a table of open
//! connections addressed by small integer handles, and the mapping between
//! the shell's values and BSON documents.
//!
//! The shell's values and the documents are held as plain data
//! ([`Value`], [`Bson`]), so that every conversion rule is stated over them
//! and proved. The driver, the BSON library and the calendar are called
//! for what only they can compute.

pub mod cmds;
pub mod document;
pub mod handle;
pub mod oid;
pub mod plugin;
pub mod time;
pub mod value;

pub use document::{Bson, Document};
pub use handle::{Handle, RegistryError};
pub use plugin::MongoPlugin;
pub use time::Timestamp;
pub use value::{Record, Span, Spanned, Value};
