//! TUI state: the app shell, chat components and layout geometry.

/// Screen geometry and the layout solver.
pub mod layout;
/// Text wrapping shared by the chat components.
pub mod util;
/// Chat components.
pub mod components;
/// Root app state and command application.
pub mod app;
