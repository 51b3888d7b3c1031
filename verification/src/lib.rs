//! The core of a terminal browser for project context files: the snippet
//! composer, the user configuration rules, the colour themes and the state
//! machine of the Compose screen.

pub mod compose;
pub mod config;
pub mod library;
pub mod text;
pub mod tui;
