//! The interface between the darling front end and its package-manager backends:
//! the record handed to each install or uninstall, the session context, the
//! backend capability trait, and the batch discipline that drives it.
pub mod config;
pub mod entry;
pub mod batch;
pub mod manager;
