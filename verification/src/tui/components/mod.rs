//! Composable TUI components.
//!
//! Render order in the page:
//! - `chat`: transcript and input panel.
//! - `info_sidebar`: tab list and auxiliary status.
//! - `status_bar`: mode and command hints.

/// User-authored transcript message rows.
pub mod request_message;
/// Assistant-authored transcript message rows.
pub mod response_message;
/// Input box sizing.
pub mod user_input;
/// Chat transcript, input and scroll state.
pub mod chat;
/// Sidebar with auxiliary information.
pub mod info_sidebar;
/// Bottom status bar text.
pub mod status_bar;
/// Tab strip text.
pub mod tabs_bar;
