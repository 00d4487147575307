//! Messages: what the bus carries to the run loop.

use crate::command::{Command, EventsPausedMessage, EventsUnpausedMessage};
use crossterm::event::{KeyEvent, MouseEvent};
use vstd::prelude::*;

verus! {

/// `crossterm::event::KeyEvent`: a key with its modifiers. It is carried
/// from the terminal to the application and never looked into.
#[verifier::external_type_specification]
#[verifier::external_body]
pub struct ExKeyEvent(crossterm::event::KeyEvent);

/// `crossterm::event::MouseEvent`: a mouse action with its position. It is
/// carried from the terminal to the application and never looked into.
#[verifier::external_type_specification]
#[verifier::external_body]
pub struct ExMouseEvent(crossterm::event::MouseEvent);

/// The terminal was resized to this many columns and rows.
#[derive(Clone, Copy, Debug, PartialEq, Eq, Structural)]
pub struct ResizeEvent(pub u16, pub u16);

/// What travels on the bus to the runtime loop. `M` is what the application
/// sends to itself, `T` the work that its commands defer.
#[derive(Debug, PartialEq)]
pub enum Message<M, T> {
    /// Ends the run loop.
    Quit,
    /// Stops the reading of terminal input until it is resumed.
    PauseEvents,
    /// Resumes the reading of terminal input.
    UnpauseEvents,
    /// Commands to be run side by side.
    Batch(Vec<Command<M, T>>),
    /// Terminal input is no longer read.
    EventsPaused(EventsPausedMessage),
    /// Terminal input is read again.
    EventsUnpaused(EventsUnpausedMessage),
    /// A key was pressed.
    Key(KeyEvent),
    /// The mouse was moved or clicked.
    Mouse(MouseEvent),
    /// The terminal changed its size.
    Resize(ResizeEvent),
    /// An event that the application defines.
    User(M),
}

impl<M, T> Message<M, T> {
    /// A reserved message is handled by the runtime and never shown to the
    /// application.
    pub open spec fn reserved(self) -> bool {
        self is Quit || self is PauseEvents || self is UnpauseEvents || self is Batch
    }

    /// Tells whether the runtime keeps this message to itself.
    pub fn is_reserved(&self) -> (held_back: bool)
        ensures
            held_back == self.reserved(),
    {
        match self {
            Message::Quit | Message::PauseEvents | Message::UnpauseEvents | Message::Batch(_) => true,
            _ => false,
        }
    }
}

} // verus!
