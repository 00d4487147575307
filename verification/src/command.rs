//! Commands: deferred work that yields at most one message, and the built in
//! commands that ask the runtime to quit, to pause or resume the reading of
//! input, or to run several commands side by side.

use crate::message::Message;
use vstd::prelude::*;

verus! {

/// Sent when a request to pause event processing has been carried out.
#[derive(Clone, Copy, Debug, PartialEq, Eq, Structural)]
pub struct EventsPausedMessage;

/// Sent when a request to resume event processing has been carried out.
#[derive(Clone, Copy, Debug, PartialEq, Eq, Structural)]
pub struct EventsUnpausedMessage;

/// A deferred unit of work that yields at most one message.
#[derive(Debug, PartialEq)]
pub enum Command<M, T> {
    /// Yields this message and does nothing else.
    Emit(Message<M, T>),
    /// Work of the application, which decides what it yields.
    Task(T),
}

impl<M, T> Command<M, T> {
    /// Whether `outcome` is a result of running the command with `perform`
    /// as the way to carry out the application's work.
    pub open spec fn may_yield<F: FnOnce(T) -> Option<Message<M, T>>>(
        self,
        perform: F,
        outcome: Option<Message<M, T>>,
    ) -> bool {
        match self {
            Command::Emit(message) => outcome == Some(message),
            Command::Task(task) => call_ensures(perform, (task,), outcome),
        }
    }

    /// Runs the command. Work of the application is handed to `perform`.
    pub fn run<F: FnOnce(T) -> Option<Message<M, T>>>(self, perform: F) -> (outcome: Option<
        Message<M, T>,
    >)
        requires
            self matches Command::Task(task) ==> call_requires(perform, (task,)),
        ensures
            self.may_yield(perform, outcome),
    {
        match self {
            Command::Emit(message) => Some(message),
            Command::Task(task) => perform(task),
        }
    }
}

/// A built in command that quits the application.
pub fn quit<M, T>() -> (command: Command<M, T>)
    ensures
        command == Command::<M, T>::Emit(Message::Quit),
{
    Command::Emit(Message::Quit)
}

/// A built in command that pauses event processing.
pub fn pause_events<M, T>() -> (command: Command<M, T>)
    ensures
        command == Command::<M, T>::Emit(Message::PauseEvents),
{
    Command::Emit(Message::PauseEvents)
}

/// A built in command that unpauses event processing.
pub fn unpause_events<M, T>() -> (command: Command<M, T>)
    ensures
        command == Command::<M, T>::Emit(Message::UnpauseEvents),
{
    Command::Emit(Message::UnpauseEvents)
}

/// A built in command that combines multiple commands together.
///
/// The commands are not run by this one: it yields them as one message, and
/// the runtime hands each of them to the scheduler, where they run side by
/// side like any other command.
pub fn batch<M, T>(cmds: Vec<Command<M, T>>) -> (command: Command<M, T>)
    ensures
        command == Command::Emit(Message::Batch(cmds)),
{
    Command::Emit(Message::Batch(cmds))
}

/// Each built in command yields its own message and nothing else, whatever
/// way of carrying out the application's work it is run with: the command
/// of `quit` yields Quit, that of `pause_events` PauseEvents, that of
/// `unpause_events` UnpauseEvents, and that of `batch` the batch message
/// that holds the commands it was given.
pub proof fn law_builtins_yield_their_message<M, T, F: FnOnce(T) -> Option<Message<M, T>>>(
    perform: F,
    cmds: Vec<Command<M, T>>,
    outcome: Option<Message<M, T>>,
)
    ensures
        Command::<M, T>::Emit(Message::Quit).may_yield(perform, outcome) <==> outcome == Some(
            Message::<M, T>::Quit,
        ),
        Command::<M, T>::Emit(Message::PauseEvents).may_yield(perform, outcome) <==> outcome
            == Some(Message::<M, T>::PauseEvents),
        Command::<M, T>::Emit(Message::UnpauseEvents).may_yield(perform, outcome) <==> outcome
            == Some(Message::<M, T>::UnpauseEvents),
        Command::Emit(Message::Batch(cmds)).may_yield(perform, outcome) <==> outcome == Some(
            Message::Batch(cmds),
        ),
{
}

} // verus!
