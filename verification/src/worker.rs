//! The worker that feeds terminal input to the bus, as a state machine: it
//! waits for the pause gate, reads one raw event, publishes the message that
//! stands for it, and begins again.

use crate::message::{Message, ResizeEvent};
use crossterm::event::{KeyEvent, MouseEvent};
use vstd::prelude::*;

verus! {

/// What the terminal reported.
#[derive(Debug, PartialEq)]
pub enum RawEvent {
    /// A key with its modifiers.
    Key(KeyEvent),
    /// A mouse action with its position.
    Mouse(MouseEvent),
    /// The new size of the terminal: columns, then rows.
    Resize(u16, u16),
    /// Anything else, which no message stands for.
    Other,
}

/// The message that stands for a raw event, with the event's fields as they
/// came.
pub open spec fn classified<M, T>(raw: RawEvent) -> Option<Message<M, T>> {
    match raw {
        RawEvent::Key(event) => Some(Message::Key(event)),
        RawEvent::Mouse(event) => Some(Message::Mouse(event)),
        RawEvent::Resize(columns, rows) => Some(Message::Resize(ResizeEvent(columns, rows))),
        RawEvent::Other => None,
    }
}

/// Turns a raw event into the message to publish, if it has one.
pub fn classify<M, T>(raw: RawEvent) -> (message: Option<Message<M, T>>)
    ensures
        message == classified::<M, T>(raw),
{
    match raw {
        RawEvent::Key(event) => Some(Message::Key(event)),
        RawEvent::Mouse(event) => Some(Message::Mouse(event)),
        RawEvent::Resize(columns, rows) => Some(Message::Resize(ResizeEvent(columns, rows))),
        RawEvent::Other => None,
    }
}

/// What the worker asks its caller to do next.
#[derive(Clone, Copy, Debug, PartialEq, Eq, Structural)]
pub enum Request {
    /// Block until the pause gate is released.
    AwaitGate,
    /// Block until the terminal reports the next raw event.
    Read,
    /// Leave the loop.
    Exit,
}

/// What woke the worker.
#[derive(Debug, PartialEq)]
pub enum Wake {
    /// The pause gate was found released.
    GateOpen,
    /// The terminal reported a raw event.
    Input(RawEvent),
}

/// The worker's answer to being woken.
#[derive(Debug, PartialEq)]
pub struct Turn<M, T> {
    /// The message to publish on the bus, if any.
    pub publish: Option<Message<M, T>>,
    /// What to do after that.
    pub next: Request,
}

/// The first request of a worker: to wait for the pause gate, unless it was
/// told to stop before it began.
pub open spec fn opening(stop: bool) -> Request {
    if stop {
        Request::Exit
    } else {
        Request::AwaitGate
    }
}

/// The worker's answer to `wake` while `pending` is what it asked for.
///
/// A released pause gate is answered by a read, and only that is: no input
/// is read while the pause gate is engaged. Input that was asked for is
/// published once, and the worker waits for the pause gate again or, if it
/// was told to stop, leaves. A wake that answers no request changes nothing.
pub open spec fn resumed<M, T>(pending: Request, wake: Wake, stop: bool) -> Turn<M, T> {
    match (pending, wake) {
        (Request::AwaitGate, Wake::GateOpen) => Turn { publish: None, next: Request::Read },
        (Request::Read, Wake::Input(raw)) => Turn { publish: classified(raw), next: opening(stop) },
        _ => Turn { publish: None, next: pending },
    }
}

/// The decisions of the worker that feeds terminal input to the bus. It
/// reads nothing itself: it says what to wait for, and is told what came.
pub struct Worker {
    pending: Request,
}

impl View for Worker {
    type V = Request;

    /// What the worker last asked for.
    closed spec fn view(&self) -> Request {
        self.pending
    }
}

impl Worker {
    /// A worker at the start of its loop. `stop` says whether it was
    /// already told to stop.
    pub fn new(stop: bool) -> (worker: Self)
        ensures
            worker@ == opening(stop),
    {
        Worker { pending: if stop { Request::Exit } else { Request::AwaitGate } }
    }

    /// What the worker is waiting for.
    pub fn pending(&self) -> (request: Request)
        ensures
            request == self@,
    {
        self.pending
    }

    /// Tells the worker what woke it, and whether it has been told to stop.
    pub fn resume<M, T>(&mut self, wake: Wake, stop: bool) -> (turn: Turn<M, T>)
        ensures
            turn == resumed::<M, T>(old(self)@, wake, stop),
            final(self)@ == turn.next,
    {
        let turn = match (self.pending, wake) {
            (Request::AwaitGate, Wake::GateOpen) => Turn { publish: None, next: Request::Read },
            (Request::Read, Wake::Input(raw)) => Turn {
                publish: classify(raw),
                next: if stop { Request::Exit } else { Request::AwaitGate },
            },
            _ => Turn { publish: None, next: self.pending },
        };
        self.pending = turn.next;
        turn
    }
}

/// The worker reads only after it found the pause gate released: it asks
/// for a read exactly when it was waiting for the pause gate and is told
/// that it is open, and then it publishes nothing.
pub proof fn law_reads_pass_the_gate<M, T>(pending: Request, wake: Wake, stop: bool)
    requires
        !(pending is Read),
    ensures
        resumed::<M, T>(pending, wake, stop).next is Read <==> pending is AwaitGate
            && wake is GateOpen,
        resumed::<M, T>(pending, wake, stop).publish is None,
{
}

/// No raw event is lost or published twice: input that was asked for gives
/// exactly the message that stands for it, and the worker then asks for no
/// further read before it has waited for the pause gate again.
pub proof fn law_input_is_published_once<M, T>(raw: RawEvent, stop: bool)
    ensures
        resumed::<M, T>(Request::Read, Wake::Input(raw), stop).publish == classified::<M, T>(raw),
        !(resumed::<M, T>(Request::Read, Wake::Input(raw), stop).next is Read),
{
}

} // verus!
