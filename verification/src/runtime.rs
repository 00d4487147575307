//! The run loop as a state machine. A call takes what happened (the run was
//! started, a message arrived, the transition function returned) and gives
//! back what is to be done; the caller owns the threads, the bus and the
//! terminal and does it.

use crate::command::{Command, EventsPausedMessage, EventsUnpausedMessage};
use crate::message::Message;
use vstd::prelude::*;

verus! {

/// Where the run loop stands in its life.
#[derive(Clone, Copy, Debug, PartialEq, Eq, Structural)]
pub enum Phase {
    /// Nothing has been set up yet.
    Starting,
    /// Messages are taken from the bus and processed.
    Running,
    /// Quit has been processed; what remains is to shut down.
    Draining,
    /// The run is over.
    Stopped,
}

/// One thing for the caller of the runtime to do. The effects of a call are
/// to be carried out in the order in which they are returned.
#[derive(Debug, PartialEq)]
pub enum Effect<M, T> {
    /// Put the terminal into the modes that the application runs in.
    EnterTerminal,
    /// Start the worker that reads terminal input.
    StartWorker,
    /// Hand the command to the scheduler.
    Schedule(Command<M, T>),
    /// Engage the pause gate: the worker reads no further input.
    EngageGate,
    /// Release the pause gate: the worker reads input again.
    ReleaseGate,
    /// Call the application's transition function with the message, hand
    /// the command it returns to [`Runtime::updated`], and carry out what
    /// that returns before the next effect.
    Update(Message<M, T>),
    /// Call the application's render hook.
    Render,
    /// Tell the worker that reads terminal input to stop.
    StopWorker,
    /// Undo what `EnterTerminal` did.
    RestoreTerminal,
}

/// What the runtime remembers between two calls.
pub struct RuntimeState {
    pub phase: Phase,
    /// Whether the pause gate was last engaged rather than released.
    pub paused: bool,
}

/// A state together with the effects of the call that led to it.
pub struct Outcome<M, T> {
    pub state: RuntimeState,
    pub effects: Seq<Effect<M, T>>,
}

/// The state in which every runtime begins.
pub open spec fn initial() -> RuntimeState {
    RuntimeState { phase: Phase::Starting, paused: false }
}

/// Scheduling of a command that may be absent.
pub open spec fn scheduling<M, T>(command: Option<Command<M, T>>) -> Seq<Effect<M, T>> {
    match command {
        Some(command) => seq![Effect::Schedule(command)],
        None => Seq::empty(),
    }
}

/// Scheduling of each command, in order.
pub open spec fn fan_out<M, T>(cmds: Seq<Command<M, T>>) -> Seq<Effect<M, T>> {
    cmds.map_values(|command: Command<M, T>| Effect::Schedule(command))
}

/// Start-up: from `Starting` the terminal is entered, the first command is
/// scheduled if there is one and the worker is started. In any other phase
/// nothing happens.
pub open spec fn started<M, T>(state: RuntimeState, first: Option<Command<M, T>>) -> Outcome<M, T> {
    if state.phase is Starting {
        Outcome {
            state: RuntimeState { phase: Phase::Running, ..state },
            effects: seq![Effect::EnterTerminal] + scheduling(first) + seq![Effect::StartWorker],
        }
    } else {
        Outcome { state, effects: Seq::empty() }
    }
}

/// What a running loop does with a message that it took from the bus. The
/// four reserved messages are dealt with here; every other message goes to
/// the application. Outside `Running` the message is dropped.
pub open spec fn received<M, T>(state: RuntimeState, message: Message<M, T>) -> Outcome<M, T> {
    if !(state.phase is Running) {
        Outcome { state, effects: Seq::empty() }
    } else {
        match message {
            Message::Quit => Outcome {
                state: RuntimeState { phase: Phase::Draining, ..state },
                effects: seq![Effect::Render],
            },
            Message::PauseEvents => Outcome {
                state: RuntimeState { paused: true, ..state },
                effects: seq![
                    Effect::EngageGate,
                    Effect::Schedule(Command::Emit(Message::EventsPaused(EventsPausedMessage))),
                    Effect::Render,
                ],
            },
            Message::UnpauseEvents => Outcome {
                state: RuntimeState { paused: false, ..state },
                effects: seq![
                    Effect::ReleaseGate,
                    Effect::Schedule(Command::Emit(Message::EventsUnpaused(EventsUnpausedMessage))),
                    Effect::Render,
                ],
            },
            Message::Batch(cmds) => Outcome { state, effects: fan_out(cmds@).push(Effect::Render) },
            other => Outcome { state, effects: seq![Effect::Update(other), Effect::Render] },
        }
    }
}

/// What is done with the command that the transition function returned.
pub open spec fn returned<M, T>(state: RuntimeState, command: Option<Command<M, T>>) -> Seq<
    Effect<M, T>,
> {
    if state.phase is Running {
        scheduling(command)
    } else {
        Seq::empty()
    }
}

/// Shut-down after Quit: from `Draining` the worker is told to stop and the
/// terminal is restored. In any other phase nothing happens.
pub open spec fn drained<M, T>(state: RuntimeState) -> Outcome<M, T> {
    if state.phase is Draining {
        Outcome {
            state: RuntimeState { phase: Phase::Stopped, ..state },
            effects: seq![Effect::StopWorker, Effect::RestoreTerminal],
        }
    } else {
        Outcome { state, effects: Seq::empty() }
    }
}

/// The end of a run on a fatal failure: whatever start-up set up is taken
/// down again.
pub open spec fn aborted<M, T>(state: RuntimeState) -> Outcome<M, T> {
    Outcome {
        state: RuntimeState { phase: Phase::Stopped, ..state },
        effects: if state.phase is Running || state.phase is Draining {
            seq![Effect::StopWorker, Effect::RestoreTerminal]
        } else {
            Seq::empty()
        },
    }
}

/// The decisions of the run loop. It owns no terminal, thread or channel:
/// each call says what is to be done, and the caller does it.
pub struct Runtime {
    phase: Phase,
    paused: bool,
}

impl View for Runtime {
    type V = RuntimeState;

    closed spec fn view(&self) -> RuntimeState {
        RuntimeState { phase: self.phase, paused: self.paused }
    }
}

impl Runtime {
    /// A runtime that has not started.
    pub fn new() -> (runtime: Self)
        ensures
            runtime@ == initial(),
    {
        Runtime { phase: Phase::Starting, paused: false }
    }

    /// Starts the run with what the application's initialization hook
    /// returned.
    pub fn start<M, T>(&mut self, first: Option<Command<M, T>>) -> (effects: Vec<Effect<M, T>>)
        ensures
            final(self)@ == started(old(self)@, first).state,
            effects@ == started(old(self)@, first).effects,
    {
        let mut effects: Vec<Effect<M, T>> = Vec::new();
        match self.phase {
            Phase::Starting => {
                effects.push(Effect::EnterTerminal);
                match first {
                    Some(command) => {
                        effects.push(Effect::Schedule(command));
                    },
                    None => {},
                }
                effects.push(Effect::StartWorker);
                self.phase = Phase::Running;
            },
            _ => {},
        }
        effects
    }

    /// Processes one message taken from the bus.
    pub fn receive<M, T>(&mut self, message: Message<M, T>) -> (effects: Vec<Effect<M, T>>)
        ensures
            final(self)@ == received(old(self)@, message).state,
            effects@ == received(old(self)@, message).effects,
    {
        let mut effects: Vec<Effect<M, T>> = Vec::new();
        match self.phase {
            Phase::Running => {},
            _ => {
                return effects;
            },
        }
        match message {
            Message::Quit => {
                self.phase = Phase::Draining;
            },
            Message::PauseEvents => {
                self.paused = true;
                effects.push(Effect::EngageGate);
                effects.push(
                    Effect::Schedule(Command::Emit(Message::EventsPaused(EventsPausedMessage))),
                );
            },
            Message::UnpauseEvents => {
                self.paused = false;
                effects.push(Effect::ReleaseGate);
                effects.push(
                    Effect::Schedule(Command::Emit(Message::EventsUnpaused(EventsUnpausedMessage))),
                );
            },
            Message::Batch(cmds) => {
                for command in pending: cmds
                    invariant
                        effects@ == fan_out(pending.seq().take(pending.index() as int)),
                {
                    effects.push(Effect::Schedule(command));
                }
            },
            other => {
                effects.push(Effect::Update(other));
            },
        }
        effects.push(Effect::Render);
        effects
    }

    /// Says what to do with the command that the transition function
    /// returned.
    pub fn updated<M, T>(&self, command: Option<Command<M, T>>) -> (effects: Vec<Effect<M, T>>)
        ensures
            effects@ == returned(self@, command),
    {
        let mut effects: Vec<Effect<M, T>> = Vec::new();
        match (self.phase, command) {
            (Phase::Running, Some(command)) => {
                effects.push(Effect::Schedule(command));
            },
            _ => {},
        }
        effects
    }

    /// Shuts the run down once Quit has been processed.
    pub fn drain<M, T>(&mut self) -> (effects: Vec<Effect<M, T>>)
        ensures
            final(self)@ == drained::<M, T>(old(self)@).state,
            effects@ == drained::<M, T>(old(self)@).effects,
    {
        let mut effects: Vec<Effect<M, T>> = Vec::new();
        match self.phase {
            Phase::Draining => {
                effects.push(Effect::StopWorker);
                effects.push(Effect::RestoreTerminal);
                self.phase = Phase::Stopped;
            },
            _ => {},
        }
        effects
    }

    /// Ends the run after a failure that it cannot survive.
    pub fn abort<M, T>(&mut self) -> (effects: Vec<Effect<M, T>>)
        ensures
            final(self)@ == aborted::<M, T>(old(self)@).state,
            effects@ == aborted::<M, T>(old(self)@).effects,
    {
        let mut effects: Vec<Effect<M, T>> = Vec::new();
        match self.phase {
            Phase::Running | Phase::Draining => {
                effects.push(Effect::StopWorker);
                effects.push(Effect::RestoreTerminal);
            },
            _ => {},
        }
        self.phase = Phase::Stopped;
        effects
    }

    /// The phase that the run is in.
    pub fn phase(&self) -> (phase: Phase)
        ensures
            phase == self@.phase,
    {
        self.phase
    }

    /// Whether the pause gate was last engaged rather than released.
    pub fn paused(&self) -> (paused: bool)
        ensures
            paused == self@.paused,
    {
        self.paused
    }
}

} // verus!
