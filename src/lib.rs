//! The navigation and modal-editing engine of a terminal file browser.

pub mod state;
pub mod edit;
pub mod history;
pub mod selection;
pub mod listing;
pub mod words;
pub mod engine;
pub mod errors;
pub mod functions;
pub mod rename;
pub mod extension;
pub mod contents;
