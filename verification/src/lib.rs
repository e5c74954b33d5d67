//! Verified core of the castellan chat client: key bindings and input
//! resolution, chat tab and transcript state, text wrapping and the small
//! formatting rules of the settings, logging and llm layers.

/// Input modes, key events and their resolution into actions.
pub mod input;
/// Settings models.
pub mod settings;
/// Character-level text helpers.
pub mod text;
/// TUI state and components.
pub mod tui;
/// Assistant reply outcomes.
pub mod llm;
/// Logging helpers.
pub mod logging;
/// Earlier settings model.
pub mod config;
/// Settings of the desktop shell.
pub mod modules;
/// Rules of the desktop shell's components.
pub mod components;
