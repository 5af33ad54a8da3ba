//! A minimal plugin runtime contract.
//!
//! A host loads separately built modules, drives each through one uniform
//! interface and releases it again. This crate holds what both sides share:
//! the failure taxonomy ([`PluginError`]), the capability interface
//! ([`Plugin`]), the two entry operations behind the boundary symbols
//! ([`create_plugin`], [`unload_plugin`]) and the text of the boundary
//! symbols themselves ([`plugin_entry`], [`plugin_exit`]).

pub mod command;
pub mod entry;
pub mod error;
pub mod plugin;

pub use command::PluginCommand;
pub use entry::plugin_entry;
pub use entry::plugin_exit;
pub use entry::TypeDeclaration;
pub use error::PluginError;
pub use error::PluginErrorView;
pub use error::PluginResult;
pub use plugin::create_plugin;
pub use plugin::unload_plugin;
pub use plugin::Plugin;
pub use plugin::PluginHandle;
pub use plugin::PluginIdentity;
