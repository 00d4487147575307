//! A runtime for terminal applications built as model, update and view, with
//! side effects deferred to commands.
//!
//! This library holds the rules of that runtime and nothing that blocks or
//! prints: [`runtime::Runtime`] decides what the run loop does with each
//! message, [`worker::Worker`] what the input worker does next, and
//! [`command::Command`] what a command yields. [`lock::Lock`] is the pause
//! gate that the two share, and [`view_helper`] helps a view to reprint
//! itself.

pub mod command;
pub mod lock;
pub mod message;
pub mod runtime;
pub mod system;
pub mod trace;
pub mod view_helper;
pub mod worker;

pub use crate::command::Command;
pub use crate::message::{Message, ResizeEvent};
pub use crossterm;
