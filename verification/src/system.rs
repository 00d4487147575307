//! The run loop and the input worker side by side, as far as the pause gate
//! ties them together.

use crate::message::Message;
use crate::runtime::{received, RuntimeState};
use crate::worker::{classified, resumed, RawEvent, Request, Wake};
use vstd::prelude::*;

verus! {

/// Where the two sides stand.
pub struct World {
    /// What the run loop remembers.
    pub runtime: RuntimeState,
    /// What the worker is waiting for.
    pub pending: Request,
}

/// One move of one side.
pub enum Move<M, T> {
    /// The run loop takes this message from the bus.
    Loop(Message<M, T>),
    /// The worker is woken, and told whether it is to stop.
    Worker(Wake, bool),
}

/// What the pause gate grants: a worker is told that the pause gate is open
/// only while the run loop has it released. This is what blocking in
/// [`crate::lock::Lock::wait`] is for. Of the lock itself no more is proved
/// than that a wait which ended well found the flag cleared while it held
/// the mutex; that this was while the run loop had it released is the
/// premise of the laws below, not a consequence of anything stated here.
pub open spec fn granted<M, T>(world: World, step: Move<M, T>) -> bool {
    step matches Move::Worker(Wake::GateOpen, _) ==> !world.runtime.paused
}

/// The world after a move.
pub open spec fn moved<M, T>(world: World, step: Move<M, T>) -> World {
    match step {
        Move::Loop(message) => World { runtime: received(world.runtime, message).state, ..world },
        Move::Worker(wake, stop) => World {
            pending: resumed::<M, T>(world.pending, wake, stop).next,
            ..world
        },
    }
}

/// Whether the move makes the worker ask for a read.
pub open spec fn asks_to_read<M, T>(world: World, step: Move<M, T>) -> bool {
    !(world.pending is Read) && moved(world, step).pending is Read
}

/// Whether each move of the run is one that the pause gate grants.
pub open spec fn lawful<M, T>(world: World, steps: Seq<Move<M, T>>) -> bool
    decreases steps.len(),
{
    steps.len() == 0 || (granted(world, steps.first()) && lawful(
        moved(world, steps.first()),
        steps.drop_first(),
    ))
}

/// How many reads the worker asks for in the run.
pub open spec fn reads<M, T>(world: World, steps: Seq<Move<M, T>>) -> nat
    decreases steps.len(),
{
    if steps.len() == 0 {
        0
    } else if asks_to_read(world, steps.first()) {
        1 + reads(moved(world, steps.first()), steps.drop_first())
    } else {
        reads(moved(world, steps.first()), steps.drop_first())
    }
}

/// The world at the end of the run.
pub open spec fn ended<M, T>(world: World, steps: Seq<Move<M, T>>) -> World
    decreases steps.len(),
{
    if steps.len() == 0 {
        world
    } else {
        ended(moved(world, steps.first()), steps.drop_first())
    }
}

/// While input is paused, none is asked for. From the moment PauseEvents has
/// been processed until UnpauseEvents is, whatever else the run loop
/// processes and however often the worker is woken, a worker that was not
/// already waiting for input asks for no read; and the pause lasts.
pub proof fn law_no_read_while_paused<M, T>(world: World, steps: Seq<Move<M, T>>)
    requires
        world.runtime.paused,
        !(world.pending is Read),
        lawful(world, steps),
        forall|i: int|
            0 <= i < steps.len() ==> !(#[trigger] steps[i] matches Move::Loop(
                Message::UnpauseEvents,
            )),
    ensures
        reads(world, steps) == 0,
        ended(world, steps).runtime.paused,
        !(ended(world, steps).pending is Read),
    decreases steps.len(),
{
    if steps.len() > 0 {
        let rest = steps.drop_first();
        assert(forall|i: int|
            0 <= i < rest.len() ==> !(#[trigger] rest[i] matches Move::Loop(
                Message::UnpauseEvents,
            )));
        law_no_read_while_paused(moved(world, steps.first()), rest);
    }
}

/// A read that was asked for before the pause is answered all the same, and
/// read once; the pause holds back the read after it. A worker that waits
/// for input and gets `raw` while input is paused publishes what stands for
/// `raw` and asks for no further read while the pause lasts.
pub proof fn law_pause_spares_the_read_in_flight<M, T>(
    world: World,
    raw: RawEvent,
    stop: bool,
    steps: Seq<Move<M, T>>,
)
    requires
        world.runtime.paused,
        world.pending is Read,
        lawful(moved(world, Move::<M, T>::Worker(Wake::Input(raw), stop)), steps),
        forall|i: int|
            0 <= i < steps.len() ==> !(#[trigger] steps[i] matches Move::Loop(
                Message::UnpauseEvents,
            )),
    ensures
        resumed::<M, T>(world.pending, Wake::Input(raw), stop).publish == classified::<M, T>(raw),
        reads(moved(world, Move::<M, T>::Worker(Wake::Input(raw), stop)), steps) == 0,
{
    law_no_read_while_paused(moved(world, Move::<M, T>::Worker(Wake::Input(raw), stop)), steps);
}

} // verus!
