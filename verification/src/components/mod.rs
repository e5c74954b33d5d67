//! Rules of the desktop shell's components, apart from their markup.

/// The message composer.
pub mod user_input;
