//! What holds of whole runs: the effects of a sequence of messages, and the
//! laws that tie them to what was published.

use crate::command::Command;
use crate::message::Message;
use crate::runtime::{drained, fan_out, received, Effect, Outcome, Phase, RuntimeState};
use vstd::prelude::*;

verus! {

/// What the runtime does with the messages of `msgs`, taken from the bus one
/// after the other, beginning in `state`.
pub open spec fn ran<M, T>(state: RuntimeState, msgs: Seq<Message<M, T>>) -> Outcome<M, T>
    decreases msgs.len(),
{
    if msgs.len() == 0 {
        Outcome { state, effects: Seq::empty() }
    } else {
        let first = received(state, msgs.first());
        let rest = ran(first.state, msgs.drop_first());
        Outcome { state: rest.state, effects: first.effects + rest.effects }
    }
}

/// The messages with which the transition function is called, in the order
/// of the calls.
pub open spec fn updates<M, T>(effects: Seq<Effect<M, T>>) -> Seq<Message<M, T>>
    decreases effects.len(),
{
    if effects.len() == 0 {
        Seq::empty()
    } else if let Effect::Update(message) = effects.first() {
        seq![message] + updates(effects.drop_first())
    } else {
        updates(effects.drop_first())
    }
}

/// The moves of the pause gate, in order: `true` where it is engaged,
/// `false` where it is released.
pub open spec fn gate_moves<M, T>(effects: Seq<Effect<M, T>>) -> Seq<bool>
    decreases effects.len(),
{
    if effects.len() == 0 {
        Seq::empty()
    } else if effects.first() is EngageGate {
        seq![true] + gate_moves(effects.drop_first())
    } else if effects.first() is ReleaseGate {
        seq![false] + gate_moves(effects.drop_first())
    } else {
        gate_moves(effects.drop_first())
    }
}

/// How often the render hook is called.
pub open spec fn renders<M, T>(effects: Seq<Effect<M, T>>) -> nat
    decreases effects.len(),
{
    if effects.len() == 0 {
        0
    } else if effects.first() is Render {
        1 + renders(effects.drop_first())
    } else {
        renders(effects.drop_first())
    }
}

/// The messages that are processed: all up to and including the first Quit.
pub open spec fn processed<M, T>(msgs: Seq<Message<M, T>>) -> Seq<Message<M, T>>
    decreases msgs.len(),
{
    if msgs.len() == 0 {
        Seq::empty()
    } else if msgs.first() is Quit {
        seq![msgs.first()]
    } else {
        seq![msgs.first()] + processed(msgs.drop_first())
    }
}

/// The messages that are meant for the application: those before the first
/// Quit that are not reserved, in their order.
pub open spec fn forwarded<M, T>(msgs: Seq<Message<M, T>>) -> Seq<Message<M, T>>
    decreases msgs.len(),
{
    if msgs.len() == 0 || msgs.first() is Quit {
        Seq::empty()
    } else if msgs.first().reserved() {
        forwarded(msgs.drop_first())
    } else {
        seq![msgs.first()] + forwarded(msgs.drop_first())
    }
}

/// The requests to pause (`true`) and to resume (`false`) before the first
/// Quit, in their order.
pub open spec fn gate_requests<M, T>(msgs: Seq<Message<M, T>>) -> Seq<bool>
    decreases msgs.len(),
{
    if msgs.len() == 0 || msgs.first() is Quit {
        Seq::empty()
    } else if msgs.first() is PauseEvents {
        seq![true] + gate_requests(msgs.drop_first())
    } else if msgs.first() is UnpauseEvents {
        seq![false] + gate_requests(msgs.drop_first())
    } else {
        gate_requests(msgs.drop_first())
    }
}

proof fn lemma_updates_concat<M, T>(head: Seq<Effect<M, T>>, tail: Seq<Effect<M, T>>)
    ensures
        updates(head + tail) == updates(head) + updates(tail),
    decreases head.len(),
{
    if head.len() > 0 {
        assert((head + tail).drop_first() == head.drop_first() + tail);
        lemma_updates_concat(head.drop_first(), tail);
    }
}

proof fn lemma_gate_moves_concat<M, T>(head: Seq<Effect<M, T>>, tail: Seq<Effect<M, T>>)
    ensures
        gate_moves(head + tail) == gate_moves(head) + gate_moves(tail),
    decreases head.len(),
{
    if head.len() > 0 {
        assert((head + tail).drop_first() == head.drop_first() + tail);
        lemma_gate_moves_concat(head.drop_first(), tail);
    }
}

proof fn lemma_renders_concat<M, T>(head: Seq<Effect<M, T>>, tail: Seq<Effect<M, T>>)
    ensures
        renders(head + tail) == renders(head) + renders(tail),
    decreases head.len(),
{
    if head.len() > 0 {
        assert((head + tail).drop_first() == head.drop_first() + tail);
        lemma_renders_concat(head.drop_first(), tail);
    }
}

/// Scheduling alone calls no hook and moves no gate.
proof fn lemma_fan_out_is_quiet<M, T>(cmds: Seq<Command<M, T>>)
    ensures
        updates(fan_out(cmds)) == Seq::<Message<M, T>>::empty(),
        gate_moves(fan_out(cmds)) == Seq::<bool>::empty(),
        renders(fan_out(cmds)) == 0,
    decreases cmds.len(),
{
    if cmds.len() > 0 {
        assert(fan_out(cmds).drop_first() == fan_out(cmds.drop_first()));
        lemma_fan_out_is_quiet(cmds.drop_first());
    }
}

/// What one message leads to while the loop is running.
proof fn lemma_received_running<M, T>(state: RuntimeState, message: Message<M, T>)
    requires
        state.phase is Running,
    ensures
        updates(received(state, message).effects) == forwarded(seq![message]),
        gate_moves(received(state, message).effects) == gate_requests(seq![message]),
        renders(received(state, message).effects) == 1,
        received(state, message).state.phase == if message is Quit {
            Phase::Draining
        } else {
            Phase::Running
        },
        received(state, message).state.paused == if message is PauseEvents {
            true
        } else if message is UnpauseEvents {
            false
        } else {
            state.paused
        },
{
    let effects = received(state, message).effects;
    reveal_with_fuel(updates, 4);
    reveal_with_fuel(gate_moves, 4);
    reveal_with_fuel(renders, 4);
    reveal_with_fuel(forwarded, 2);
    reveal_with_fuel(gate_requests, 2);
    if let Message::Batch(cmds) = message {
        let tail = seq![Effect::<M, T>::Render];
        assert(effects == fan_out(cmds@) + tail);
        lemma_fan_out_is_quiet(cmds@);
        lemma_updates_concat(fan_out(cmds@), tail);
        lemma_gate_moves_concat(fan_out(cmds@), tail);
        lemma_renders_concat(fan_out(cmds@), tail);
    }
}

/// A loop that is not running lets every message pass without effect.
pub proof fn law_idle_loop_is_inert<M, T>(state: RuntimeState, msgs: Seq<Message<M, T>>)
    requires
        !(state.phase is Running),
    ensures
        ran(state, msgs).state == state,
        ran(state, msgs).effects == Seq::<Effect<M, T>>::empty(),
    decreases msgs.len(),
{
    if msgs.len() > 0 {
        law_idle_loop_is_inert(state, msgs.drop_first());
    }
}

/// The transition function is called once for each message that is not
/// reserved and comes before the first Quit, in the order in which the
/// messages were published, and for no other message.
pub proof fn law_updates_follow_publication<M, T>(state: RuntimeState, msgs: Seq<Message<M, T>>)
    requires
        state.phase is Running,
    ensures
        updates(ran(state, msgs).effects) == forwarded(msgs),
    decreases msgs.len(),
{
    if msgs.len() > 0 {
        let first = received(state, msgs.first());
        let rest = ran(first.state, msgs.drop_first());
        lemma_received_running(state, msgs.first());
        lemma_updates_concat(first.effects, rest.effects);
        reveal_with_fuel(forwarded, 2);
        if msgs.first() is Quit {
            law_idle_loop_is_inert(first.state, msgs.drop_first());
        } else {
            law_updates_follow_publication(first.state, msgs.drop_first());
        }
    }
}

/// The test of a message that the application is to see.
pub open spec fn ordinary<M, T>() -> spec_fn(Message<M, T>) -> bool {
    |message: Message<M, T>| !message.reserved()
}

/// While no Quit is published, the transition function is called once for
/// each message that is not reserved and for no other, in the order in
/// which the messages were published.
pub proof fn law_each_ordinary_message_is_updated_once<M, T>(
    state: RuntimeState,
    msgs: Seq<Message<M, T>>,
)
    requires
        state.phase is Running,
        forall|i: int| 0 <= i < msgs.len() ==> !(#[trigger] msgs[i] is Quit),
    ensures
        updates(ran(state, msgs).effects) == msgs.filter(ordinary()),
        ran(state, msgs).state.phase is Running,
    decreases msgs.len(),
{
    law_updates_follow_publication(state, msgs);
    if msgs.len() > 0 {
        let first = received(state, msgs.first());
        let rest = msgs.drop_first();
        assert(forall|i: int| 0 <= i < rest.len() ==> !(#[trigger] rest[i] is Quit));
        law_each_ordinary_message_is_updated_once(first.state, rest);
        law_updates_follow_publication(first.state, rest);
        assert(msgs == seq![msgs.first()] + rest);
        Seq::filter_distributes_over_add(seq![msgs.first()], rest, ordinary());
        reveal_with_fuel(Seq::filter, 2);
    }
}

/// Quit is final. Processing it leaves the running phase; whatever is
/// published afterwards has no effect, so nothing more reaches the
/// application; and shutting down ends in `Stopped`.
pub proof fn law_quit_is_final<M, T>(state: RuntimeState, later: Seq<Message<M, T>>)
    requires
        state.phase is Running,
    ensures
        ({
            let quit = received(state, Message::<M, T>::Quit);
            &&& quit.state.phase is Draining
            &&& updates(quit.effects) == Seq::<Message<M, T>>::empty()
            &&& ran(quit.state, later).state == quit.state
            &&& ran(quit.state, later).effects == Seq::<Effect<M, T>>::empty()
            &&& drained::<M, T>(ran(quit.state, later).state).state.phase is Stopped
        }),
{
    let quit = received(state, Message::<M, T>::Quit);
    lemma_received_running(state, Message::<M, T>::Quit);
    law_idle_loop_is_inert(quit.state, later);
}

/// The pause gate follows the requests. It is engaged once for each
/// PauseEvents and released once for each UnpauseEvents that comes before
/// the first Quit, in their order and at no other time; and the runtime
/// remembers the state in which the last of these moves left it.
pub proof fn law_gate_follows_requests<M, T>(state: RuntimeState, msgs: Seq<Message<M, T>>)
    requires
        state.phase is Running,
    ensures
        gate_moves(ran(state, msgs).effects) == gate_requests(msgs),
        ran(state, msgs).state.paused == if gate_requests(msgs).len() == 0 {
            state.paused
        } else {
            gate_requests(msgs).last()
        },
    decreases msgs.len(),
{
    if msgs.len() > 0 {
        let first = received(state, msgs.first());
        let rest = ran(first.state, msgs.drop_first());
        lemma_received_running(state, msgs.first());
        lemma_gate_moves_concat(first.effects, rest.effects);
        reveal_with_fuel(gate_requests, 2);
        if msgs.first() is Quit {
            law_idle_loop_is_inert(first.state, msgs.drop_first());
        } else {
            law_gate_follows_requests(first.state, msgs.drop_first());
        }
    }
}

/// The render hook is called once after each message that is processed.
pub proof fn law_render_follows_each_message<M, T>(state: RuntimeState, msgs: Seq<Message<M, T>>)
    requires
        state.phase is Running,
    ensures
        renders(ran(state, msgs).effects) == processed(msgs).len(),
    decreases msgs.len(),
{
    if msgs.len() > 0 {
        let first = received(state, msgs.first());
        let rest = ran(first.state, msgs.drop_first());
        lemma_received_running(state, msgs.first());
        lemma_renders_concat(first.effects, rest.effects);
        if msgs.first() is Quit {
            law_idle_loop_is_inert(first.state, msgs.drop_first());
        } else {
            law_render_follows_each_message(first.state, msgs.drop_first());
        }
    }
}

/// A batch is spread by the runtime, not by the command. The batch message
/// makes the running loop schedule each of its commands once, in the order
/// given, and then render; the transition function is not called and the
/// state stays as it is.
pub proof fn law_batch_fans_out<M, T>(state: RuntimeState, cmds: Vec<Command<M, T>>)
    requires
        state.phase is Running,
    ensures
        ({
            let spread = received(state, Message::Batch(cmds));
            &&& spread.state == state
            &&& spread.effects.len() == cmds@.len() + 1
            &&& forall|i: int|
                0 <= i < cmds@.len() ==> spread.effects[i] == Effect::Schedule(cmds@[i])
            &&& spread.effects.last() is Render
            &&& updates(spread.effects) == Seq::<Message<M, T>>::empty()
        }),
{
    lemma_received_running(state, Message::Batch(cmds));
    reveal_with_fuel(forwarded, 2);
}

} // verus!
