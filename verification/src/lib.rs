//! Guest-side adapter for a document viewer's rendering-plugin interface.
//!
//! The host owns documents and pages; this library gives a plugin scoped,
//! exclusive accessors over them, a contract to implement, and the callback
//! protocol that turns the plugin's answers into the host's status codes.

pub mod definition;
pub mod document;
pub mod error;
pub mod page;
pub mod plugin;
pub mod store;
pub mod wrapper;

pub use crate::definition::{plugin_entry, PluginDefinition, PluginFunctions, PluginVersion};
pub use crate::document::{DocumentRef, RawDocument, RawPage, Scalar};
pub use crate::error::{to_zathura, wrap, PluginError};
pub use crate::page::PageRef;
pub use crate::plugin::{DocumentInfo, PageInfo, ZathuraPlugin};
pub use crate::store::DataStore;
