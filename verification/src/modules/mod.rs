//! Settings of the desktop shell.

/// Tracing settings of the desktop shell.
pub mod settings;
