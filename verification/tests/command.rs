use rusteadux::command::{batch, pause_events, quit, unpause_events, Command};
use rusteadux::command::{EventsPausedMessage, EventsUnpausedMessage};
use rusteadux::message::{Message, ResizeEvent};

type Msg = Message<u32, u8>;
type Cmd = Command<u32, u8>;

fn never(_task: u8) -> Option<Msg> {
    panic!("a built in command has no work for the application")
}

#[test]
fn quit_yields_the_quit_message() {
    let command: Cmd = quit();
    assert_eq!(command.run(never), Some(Message::Quit));
}

#[test]
fn pause_events_yields_the_pause_message() {
    let command: Cmd = pause_events();
    assert_eq!(command.run(never), Some(Message::PauseEvents));
}

#[test]
fn unpause_events_yields_the_unpause_message() {
    let command: Cmd = unpause_events();
    assert_eq!(command.run(never), Some(Message::UnpauseEvents));
}

#[test]
fn the_built_in_commands_differ() {
    let q: Cmd = quit();
    let p: Cmd = pause_events();
    let u: Cmd = unpause_events();
    assert_ne!(q, p);
    assert_ne!(p, u);
    assert_ne!(q, u);
}

#[test]
fn batch_yields_its_commands_untouched() {
    let command: Cmd = batch(vec![Command::Task(1), quit(), Command::Task(3)]);
    let outcome = command.run(never);
    assert_eq!(
        outcome,
        Some(Message::Batch(vec![Command::Task(1), Command::Emit(Message::Quit), Command::Task(3)]))
    );
}

#[test]
fn batch_of_nothing_yields_an_empty_batch() {
    let command: Cmd = batch(Vec::new());
    assert_eq!(command.run(never), Some(Message::Batch(Vec::new())));
}

#[test]
fn a_task_yields_what_the_application_makes_of_it() {
    let command: Cmd = Command::Task(20);
    let outcome = command.run(|task| Some(Message::User(u32::from(task) + 1)));
    assert_eq!(outcome, Some(Message::User(21)));
}

#[test]
fn a_task_may_yield_nothing() {
    let command: Cmd = Command::Task(0);
    assert_eq!(command.run(|_task| None), None);
}

#[test]
fn an_emitted_message_is_not_handed_to_the_application() {
    let command: Cmd = Command::Emit(Message::User(5));
    assert_eq!(command.run(never), Some(Message::User(5)));
}

#[test]
fn reserved_messages_are_the_four_control_messages() {
    let quit: Msg = Message::Quit;
    let pause: Msg = Message::PauseEvents;
    let unpause: Msg = Message::UnpauseEvents;
    let batch: Msg = Message::Batch(Vec::new());
    assert!(quit.is_reserved());
    assert!(pause.is_reserved());
    assert!(unpause.is_reserved());
    assert!(batch.is_reserved());
    let paused: Msg = Message::EventsPaused(EventsPausedMessage);
    let unpaused: Msg = Message::EventsUnpaused(EventsUnpausedMessage);
    let resize: Msg = Message::Resize(ResizeEvent(80, 24));
    let user: Msg = Message::User(1);
    assert!(!paused.is_reserved());
    assert!(!unpaused.is_reserved());
    assert!(!resize.is_reserved());
    assert!(!user.is_reserved());
}
