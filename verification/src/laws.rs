//! What holds of the controller over whole event streams: the run semantics
//! built from one-event steps, and the guarantees the controller gives —
//! degenerate resizes change nothing, a ready controller stays ready, an
//! uninitialized one is inert, a close request always exits, and an accepted
//! resize is acted on before the redraw that follows it.

use vstd::prelude::*;

use crate::controller::Action;
use crate::controller::Event;
use crate::controller::SurfaceSize;
use crate::controller::step_action;
use crate::controller::step_state;

verus! {

/// The state after a whole stream of events is reacted to, one at a time,
/// in order.
pub open spec fn run_state(s: Option<SurfaceSize>, events: Seq<Event>) -> Option<SurfaceSize>
    decreases events.len(),
{
    if events.len() == 0 {
        s
    } else {
        run_state(step_state(s, events[0]), events.drop_first())
    }
}

/// The actions a stream of events calls for, one per event, in the order
/// the events arrive, each decided in the state its predecessors left.
pub open spec fn run_actions(s: Option<SurfaceSize>, events: Seq<Event>) -> Seq<Action>
    decreases events.len(),
{
    if events.len() == 0 {
        Seq::empty()
    } else {
        seq![step_action(s, events[0])] + run_actions(step_state(s, events[0]), events.drop_first())
    }
}

/// A resize with a zero width or height is a no-op: the state — in
/// particular any stored surface size — is unchanged, and no resize is
/// asked for.
pub proof fn lemma_degenerate_resize_is_noop(s: Option<SurfaceSize>, w: u32, h: u32)
    requires
        w == 0 || h == 0,
    ensures
        step_state(s, Event::Resized(w, h)) == s,
        step_action(s, Event::Resized(w, h)) == Action::Nothing,
{
}

/// State monotonicity, one step: once the controller is ready, no event
/// makes it unready.
pub proof fn lemma_ready_is_stable(s: Option<SurfaceSize>, event: Event)
    requires
        s is Some,
    ensures
        step_state(s, event) is Some,
{
}

/// State monotonicity, whole streams: once the controller is ready, it is
/// still ready after any sequence of events.
pub proof fn lemma_ready_is_stable_over_run(s: Option<SurfaceSize>, events: Seq<Event>)
    requires
        s is Some,
    ensures
        run_state(s, events) is Some,
    decreases events.len(),
{
    if events.len() > 0 {
        lemma_ready_is_stable(s, events[0]);
        lemma_ready_is_stable_over_run(step_state(s, events[0]), events.drop_first());
    }
}

/// Before initialization the controller is inert: no event changes the
/// state, and a resize or redraw calls for no surface operation.
pub proof fn lemma_uninitialized_is_inert(event: Event)
    ensures
        step_state(None, event) is None,
        (event matches Event::Resized(_, _) || event is RedrawRequested) ==> step_action(
            None,
            event,
        ) == Action::Nothing,
{
}

/// A close request always calls for an exit, in every state, and changes
/// nothing.
pub proof fn lemma_close_always_exits(s: Option<SurfaceSize>)
    ensures
        step_action(s, Event::CloseRequested) == Action::Exit,
        step_state(s, Event::CloseRequested) == s,
{
}

/// Resize before redraw: when the controller is ready, an accepted resize
/// followed by a redraw request yields exactly the resize action — with the
/// very size that arrived — and then the redraw, in that order.
pub proof fn lemma_resize_precedes_redraw(s: Option<SurfaceSize>, w: u32, h: u32)
    requires
        s is Some,
        w > 0,
        h > 0,
    ensures
        ({
            let actions = run_actions(s, seq![Event::Resized(w, h), Event::RedrawRequested]);
            &&& actions.len() == 2
            &&& actions[0] == Action::Resize(w, h)
            &&& actions[1] == Action::Redraw
        }),
{
    let e0 = Event::Resized(w, h);
    let e1 = Event::RedrawRequested;
    let events = seq![e0, e1];
    let tail = events.drop_first();
    let mid = step_state(s, e0);
    assert(events[0] == e0);
    assert(tail.len() == 1);
    assert(tail[0] == e1);
    assert(tail.drop_first().len() == 0);
    assert(mid is Some);
    assert(run_actions(mid, tail.drop_first()) == Seq::<Action>::empty());
    assert(run_actions(mid, tail) == seq![step_action(mid, e1)] + run_actions(
        step_state(mid, e1),
        tail.drop_first(),
    ));
    assert(run_actions(s, events) == seq![step_action(s, e0)] + run_actions(mid, tail));
    assert(run_actions(s, events) =~= seq![Action::Resize(w, h), Action::Redraw]);
}

} // verus!
