//! The terminal interface: colour themes, the application state, the
//! Compose screen, its selection and its export.

pub mod app;
pub mod compose;
pub mod export;
pub mod selection;
pub mod theme;
