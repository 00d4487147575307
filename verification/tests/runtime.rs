use crossterm::event::{KeyCode, KeyEvent, KeyModifiers};
use rusteadux::command::{batch, pause_events, quit, unpause_events, Command};
use rusteadux::command::{EventsPausedMessage, EventsUnpausedMessage};
use rusteadux::message::{Message, ResizeEvent};
use rusteadux::runtime::{Effect, Phase, Runtime};
use std::collections::VecDeque;

type Msg = Message<&'static str, u8>;
type Cmd = Command<&'static str, u8>;
type Eff = Effect<&'static str, u8>;

fn running() -> Runtime {
    let mut runtime = Runtime::new();
    let _: Vec<Eff> = runtime.start(None);
    runtime
}

#[test]
fn a_new_runtime_is_starting_with_the_gate_released() {
    let runtime = Runtime::new();
    assert_eq!(runtime.phase(), Phase::Starting);
    assert!(!runtime.paused());
}

#[test]
fn start_without_a_first_command() {
    let mut runtime = Runtime::new();
    let effects: Vec<Eff> = runtime.start(None);
    assert_eq!(effects, vec![Effect::EnterTerminal, Effect::StartWorker]);
    assert_eq!(runtime.phase(), Phase::Running);
}

#[test]
fn start_schedules_the_first_command_before_the_worker() {
    let mut runtime = Runtime::new();
    let effects: Vec<Eff> = runtime.start(Some(Command::Task(7)));
    assert_eq!(
        effects,
        vec![Effect::EnterTerminal, Effect::Schedule(Command::Task(7)), Effect::StartWorker]
    );
    assert_eq!(runtime.phase(), Phase::Running);
}

#[test]
fn start_happens_once() {
    let mut runtime = running();
    let effects: Vec<Eff> = runtime.start(Some(Command::Task(7)));
    assert_eq!(effects, Vec::new());
    assert_eq!(runtime.phase(), Phase::Running);
}

#[test]
fn a_message_before_start_is_dropped() {
    let mut runtime = Runtime::new();
    let effects: Vec<Eff> = runtime.receive(Message::User("early"));
    assert_eq!(effects, Vec::new());
    assert_eq!(runtime.phase(), Phase::Starting);
}

#[test]
fn an_ordinary_message_is_updated_then_rendered() {
    let mut runtime = running();
    let effects: Vec<Eff> = runtime.receive(Message::User("hello"));
    assert_eq!(effects, vec![Effect::Update(Message::User("hello")), Effect::Render]);
    assert_eq!(runtime.phase(), Phase::Running);
}

#[test]
fn terminal_input_reaches_the_application_unchanged() {
    let mut runtime = running();
    let key = KeyEvent::new(KeyCode::Char('x'), KeyModifiers::NONE);
    let effects: Vec<Eff> = runtime.receive(Message::Key(key));
    assert_eq!(effects, vec![Effect::Update(Message::Key(key)), Effect::Render]);
    let effects: Vec<Eff> = runtime.receive(Message::Resize(ResizeEvent(80, 24)));
    assert_eq!(effects, vec![Effect::Update(Message::Resize(ResizeEvent(80, 24))), Effect::Render]);
}

#[test]
fn quit_renders_and_leaves_the_running_phase() {
    let mut runtime = running();
    let effects: Vec<Eff> = runtime.receive(Message::Quit);
    assert_eq!(effects, vec![Effect::Render]);
    assert_eq!(runtime.phase(), Phase::Draining);
}

#[test]
fn nothing_is_processed_after_quit() {
    let mut runtime = running();
    let _: Vec<Eff> = runtime.receive(Message::Quit);
    let later: Vec<Msg> = vec![
        Message::User("late"),
        Message::PauseEvents,
        Message::Batch(vec![Command::Task(1)]),
        Message::Quit,
    ];
    for message in later {
        assert_eq!(runtime.receive(message), Vec::new());
        assert_eq!(runtime.phase(), Phase::Draining);
    }
    assert!(!runtime.paused());
    let none: Vec<Eff> = runtime.updated(Some(Command::Task(1)));
    assert_eq!(none, Vec::new());
}

#[test]
fn drain_stops_the_worker_and_restores_the_terminal() {
    let mut runtime = running();
    let _: Vec<Eff> = runtime.receive(Message::Quit);
    let effects: Vec<Eff> = runtime.drain();
    assert_eq!(effects, vec![Effect::StopWorker, Effect::RestoreTerminal]);
    assert_eq!(runtime.phase(), Phase::Stopped);
    let again: Vec<Eff> = runtime.drain();
    assert_eq!(again, Vec::new());
    assert_eq!(runtime.phase(), Phase::Stopped);
}

#[test]
fn drain_waits_for_quit() {
    let mut runtime = running();
    let effects: Vec<Eff> = runtime.drain();
    assert_eq!(effects, Vec::new());
    assert_eq!(runtime.phase(), Phase::Running);
}

#[test]
fn pause_engages_the_gate_and_schedules_the_acknowledgement() {
    let mut runtime = running();
    let effects: Vec<Eff> = runtime.receive(Message::PauseEvents);
    assert_eq!(
        effects,
        vec![
            Effect::EngageGate,
            Effect::Schedule(Command::Emit(Message::EventsPaused(EventsPausedMessage))),
            Effect::Render,
        ]
    );
    assert!(runtime.paused());
    assert_eq!(runtime.phase(), Phase::Running);
}

#[test]
fn unpause_releases_the_gate_and_schedules_the_acknowledgement() {
    let mut runtime = running();
    let _: Vec<Eff> = runtime.receive(Message::PauseEvents);
    let effects: Vec<Eff> = runtime.receive(Message::UnpauseEvents);
    assert_eq!(
        effects,
        vec![
            Effect::ReleaseGate,
            Effect::Schedule(Command::Emit(Message::EventsUnpaused(EventsUnpausedMessage))),
            Effect::Render,
        ]
    );
    assert!(!runtime.paused());
}

#[test]
fn pausing_twice_engages_twice_and_stays_paused() {
    let mut runtime = running();
    let first: Vec<Eff> = runtime.receive(Message::PauseEvents);
    let second: Vec<Eff> = runtime.receive(Message::PauseEvents);
    assert_eq!(first, second);
    assert!(runtime.paused());
}

#[test]
fn the_acknowledgements_are_ordinary_messages() {
    let mut runtime = running();
    let effects: Vec<Eff> = runtime.receive(Message::EventsPaused(EventsPausedMessage));
    assert_eq!(
        effects,
        vec![Effect::Update(Message::EventsPaused(EventsPausedMessage)), Effect::Render]
    );
    let effects: Vec<Eff> = runtime.receive(Message::EventsUnpaused(EventsUnpausedMessage));
    assert_eq!(
        effects,
        vec![Effect::Update(Message::EventsUnpaused(EventsUnpausedMessage)), Effect::Render]
    );
}

#[test]
fn a_batch_schedules_each_command_in_order() {
    let mut runtime = running();
    let effects: Vec<Eff> =
        runtime.receive(Message::Batch(vec![Command::Task(1), Command::Task(2), Command::Task(3)]));
    assert_eq!(
        effects,
        vec![
            Effect::Schedule(Command::Task(1)),
            Effect::Schedule(Command::Task(2)),
            Effect::Schedule(Command::Task(3)),
            Effect::Render,
        ]
    );
}

#[test]
fn an_empty_batch_only_renders() {
    let mut runtime = running();
    let effects: Vec<Eff> = runtime.receive(Message::Batch(Vec::new()));
    assert_eq!(effects, vec![Effect::Render]);
}

#[test]
fn a_batch_inside_a_batch_is_scheduled_not_opened() {
    let mut runtime = running();
    let inner: Cmd = batch(vec![Command::Task(9)]);
    let effects: Vec<Eff> = runtime.receive(Message::Batch(vec![inner]));
    assert_eq!(
        effects,
        vec![
            Effect::Schedule(Command::Emit(Message::Batch(vec![Command::Task(9)]))),
            Effect::Render,
        ]
    );
}

#[test]
fn a_returned_command_is_scheduled() {
    let runtime = running();
    let effects: Vec<Eff> = runtime.updated(Some(Command::Task(4)));
    assert_eq!(effects, vec![Effect::Schedule(Command::Task(4))]);
    let effects: Vec<Eff> = runtime.updated(None);
    assert_eq!(effects, Vec::new());
}

#[test]
fn a_returned_command_is_dropped_before_start() {
    let runtime = Runtime::new();
    let effects: Vec<Eff> = runtime.updated(Some(Command::Task(4)));
    assert_eq!(effects, Vec::new());
}

#[test]
fn abort_takes_down_what_start_set_up() {
    let mut runtime = running();
    let effects: Vec<Eff> = runtime.abort();
    assert_eq!(effects, vec![Effect::StopWorker, Effect::RestoreTerminal]);
    assert_eq!(runtime.phase(), Phase::Stopped);

    let mut runtime = running();
    let _: Vec<Eff> = runtime.receive(Message::Quit);
    let effects: Vec<Eff> = runtime.abort();
    assert_eq!(effects, vec![Effect::StopWorker, Effect::RestoreTerminal]);
    assert_eq!(runtime.phase(), Phase::Stopped);
}

#[test]
fn abort_before_start_or_after_the_end_does_nothing_to_the_terminal() {
    let mut runtime = Runtime::new();
    let effects: Vec<Eff> = runtime.abort();
    assert_eq!(effects, Vec::new());
    assert_eq!(runtime.phase(), Phase::Stopped);
    let effects: Vec<Eff> = runtime.abort();
    assert_eq!(effects, Vec::new());
    assert_eq!(runtime.phase(), Phase::Stopped);
}

/// An application that remembers the last key and the acknowledgements.
struct Model {
    last_key: Option<char>,
    seen: Vec<&'static str>,
    paused_acks: usize,
    unpaused_acks: usize,
}

impl Model {
    fn new() -> Model {
        Model { last_key: None, seen: Vec::new(), paused_acks: 0, unpaused_acks: 0 }
    }

    fn update(&mut self, message: Msg) -> Option<Cmd> {
        match message {
            Message::Key(key) => {
                if key.modifiers == KeyModifiers::CONTROL {
                    return match key.code {
                        KeyCode::Char('c') => Some(quit()),
                        _ => None,
                    };
                }
                if let KeyCode::Char(c) = key.code {
                    self.last_key = Some(c);
                }
                None
            }
            Message::EventsPaused(_) => {
                self.paused_acks += 1;
                None
            }
            Message::EventsUnpaused(_) => {
                self.unpaused_acks += 1;
                None
            }
            Message::User(text) => {
                self.seen.push(text);
                None
            }
            _ => None,
        }
    }
}

/// What a run of the loop on one thread showed from outside.
struct Record {
    updates: usize,
    rendered: Vec<Option<char>>,
    gate: Vec<bool>,
    scheduled: usize,
}

/// Tasks: an odd number yields a message, an even one yields nothing.
fn perform(task: u8) -> Option<Msg> {
    match task {
        1 => Some(Message::User("first")),
        3 => Some(Message::User("third")),
        _ => None,
    }
}

/// Runs the loop on one thread: a scheduled command runs at once and what it
/// yields joins the end of the bus.
fn drive(runtime: &mut Runtime, model: &mut Model, published: Vec<Msg>) -> Record {
    let mut record = Record { updates: 0, rendered: Vec::new(), gate: Vec::new(), scheduled: 0 };
    let mut bus: VecDeque<Msg> = published.into();
    while runtime.phase() == Phase::Running {
        let Some(message) = bus.pop_front() else { break };
        let mut todo: VecDeque<Eff> = runtime.receive(message).into();
        while let Some(effect) = todo.pop_front() {
            match effect {
                Effect::Update(message) => {
                    record.updates += 1;
                    let returned = model.update(message);
                    for effect in runtime.updated(returned).into_iter().rev() {
                        todo.push_front(effect);
                    }
                }
                Effect::Schedule(command) => {
                    record.scheduled += 1;
                    if let Some(message) = command.run(perform) {
                        bus.push_back(message);
                    }
                }
                Effect::Render => record.rendered.push(model.last_key),
                Effect::EngageGate => record.gate.push(true),
                Effect::ReleaseGate => record.gate.push(false),
                other => panic!("unexpected effect {:?}", other),
            }
        }
    }
    record
}

#[test]
fn a_key_is_seen_by_update_and_then_by_render_and_control_c_quits() {
    let mut runtime = running();
    let mut model = Model::new();
    assert_eq!(model.last_key, None);

    let x = KeyEvent::new(KeyCode::Char('x'), KeyModifiers::NONE);
    let record = drive(&mut runtime, &mut model, vec![Message::Key(x)]);
    assert_eq!(model.last_key, Some('x'));
    assert_eq!(record.updates, 1);
    assert_eq!(record.rendered, vec![Some('x')]);
    assert_eq!(runtime.phase(), Phase::Running);

    let control_c = KeyEvent::new(KeyCode::Char('c'), KeyModifiers::CONTROL);
    let record = drive(&mut runtime, &mut model, vec![Message::Key(control_c)]);
    // The key itself is the one update; the Quit that its command yields causes none.
    assert_eq!(record.updates, 1);
    assert_eq!(record.scheduled, 1);
    assert_eq!(model.last_key, Some('x'));
    assert_eq!(runtime.phase(), Phase::Draining);

    let record = drive(&mut runtime, &mut model, vec![Message::User("never seen")]);
    assert_eq!(record.updates, 0);
    assert_eq!(record.rendered, Vec::new());
    assert_eq!(model.seen, Vec::<&str>::new());
    let effects: Vec<Eff> = runtime.drain();
    assert_eq!(effects, vec![Effect::StopWorker, Effect::RestoreTerminal]);
    assert_eq!(runtime.phase(), Phase::Stopped);
}

#[test]
fn update_is_called_once_for_each_ordinary_message_in_order() {
    let mut runtime = running();
    let mut model = Model::new();
    let record = drive(
        &mut runtime,
        &mut model,
        vec![
            Message::User("a"),
            Message::Batch(Vec::new()),
            Message::User("b"),
            Message::Batch(vec![Command::Task(2)]),
            Message::User("c"),
            Message::Quit,
            Message::User("d"),
        ],
    );
    assert_eq!(model.seen, vec!["a", "b", "c"]);
    assert_eq!(record.updates, 3);
    assert_eq!(record.rendered.len(), 6);
}

#[test]
fn a_batch_of_three_with_two_results_delivers_two_messages() {
    let mut runtime = running();
    let mut model = Model::new();
    let three: Cmd = batch(vec![Command::Task(1), Command::Task(2), Command::Task(3)]);
    let yielded = three.run(perform).expect("a batch command yields its batch message");
    assert!(yielded.is_reserved());
    let record = drive(&mut runtime, &mut model, vec![yielded]);
    assert_eq!(record.scheduled, 3);
    assert_eq!(record.updates, 2);
    let mut seen = model.seen.clone();
    seen.sort();
    assert_eq!(seen, vec!["first", "third"]);
}

#[test]
fn pause_is_acknowledged_once_and_resume_once() {
    let mut runtime = running();
    let mut model = Model::new();
    let pause: Cmd = pause_events();
    let yielded = pause.run(perform).expect("the pause command yields its message");
    let record = drive(&mut runtime, &mut model, vec![yielded]);
    assert_eq!(record.gate, vec![true]);
    assert!(runtime.paused());
    assert_eq!(model.paused_acks, 1);
    assert_eq!(model.unpaused_acks, 0);

    let resume: Cmd = unpause_events();
    let yielded = resume.run(perform).expect("the resume command yields its message");
    let record = drive(&mut runtime, &mut model, vec![yielded]);
    assert_eq!(record.gate, vec![false]);
    assert!(!runtime.paused());
    assert_eq!(model.paused_acks, 1);
    assert_eq!(model.unpaused_acks, 1);
}

#[test]
fn the_gate_follows_the_requests_in_order() {
    let mut runtime = running();
    let mut model = Model::new();
    let record = drive(
        &mut runtime,
        &mut model,
        vec![
            Message::PauseEvents,
            Message::User("a"),
            Message::UnpauseEvents,
            Message::PauseEvents,
            Message::Quit,
            Message::UnpauseEvents,
        ],
    );
    assert_eq!(record.gate, vec![true, false, true]);
    assert!(runtime.paused());
}
