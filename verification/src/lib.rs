//! A terminal interface for logs of expenses: the store of the logs, the screens that
//! show them, and the dispatcher that leads from one screen to the next.
pub mod error;
pub mod frontend;
pub mod layout;
pub mod log;
pub mod text;
pub mod ui_data;
