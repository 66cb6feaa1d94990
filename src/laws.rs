use vstd::prelude::*;

use crate::state::{SophieState, COUNT_WINDOW_SECS};

verus! {

/// One operation that can befall the agent.
pub enum Event {
    /// A tick at the given Unix time.
    Tick(u64),
    /// An interaction recorded at the given Unix time.
    Interaction(u64),
    /// A meal.
    Feed,
    /// A pleasant interaction.
    Positive,
    /// A conversation.
    Conversation,
}

/// The state after one event.
pub open spec fn step(s: SophieState, e: Event) -> SophieState {
    match e {
        Event::Tick(now) => s.ticked_at(now),
        Event::Interaction(now) => s.interacted_at(now),
        Event::Feed => SophieState { physiological: s.physiological.fed(), ..s },
        Event::Positive => SophieState { relationship: s.relationship.after_positive(), ..s },
        Event::Conversation => SophieState {
            relationship: s.relationship.after_conversation(),
            ..s
        },
    }
}

/// The state after the events, in order.
pub open spec fn run(s: SophieState, events: Seq<Event>) -> SophieState
    decreases events.len(),
{
    if events.len() == 0 {
        s
    } else {
        run(step(s, events[0]), events.drop_first())
    }
}

proof fn step_keeps_bounds(s: SophieState, e: Event)
    requires
        s.wf(),
    ensures
        step(s, e).wf(),
        step(s, e).relationship.understanding >= s.relationship.understanding,
{
}

/// Whatever events befall a well-formed agent, every drive and affinity
/// stays between 0 and 100.0 points.
pub proof fn bounds_invariant(s: SophieState, events: Seq<Event>)
    requires
        s.wf(),
    ensures
        run(s, events).wf(),
    decreases events.len(),
{
    if events.len() > 0 {
        step_keeps_bounds(s, events[0]);
        bounds_invariant(step(s, events[0]), events.drop_first());
    }
}

/// Whatever events befall a well-formed agent, its understanding of the
/// owner never falls.
pub proof fn understanding_never_falls(s: SophieState, events: Seq<Event>)
    requires
        s.wf(),
    ensures
        run(s, events).relationship.understanding >= s.relationship.understanding,
    decreases events.len(),
{
    if events.len() > 0 {
        step_keeps_bounds(s, events[0]);
        understanding_never_falls(step(s, events[0]), events.drop_first());
    }
}

/// Sleep and waking are edges, not levels: a tick puts a waking agent to
/// sleep exactly when its sleepiness ends above 80.0, wakes a sleeper exactly
/// when it ends below 5.0, and so never does both.
pub proof fn sleep_edges(s: SophieState, now: u64)
    requires
        s.wf(),
    ensures
        !s.is_sleeping ==> (s.ticked_at(now).is_sleeping
            <==> s.ticked_at(now).physiological.sleepiness > 800),
        s.is_sleeping ==> (!s.ticked_at(now).is_sleeping
            <==> s.ticked_at(now).physiological.sleepiness < 50),
{
}

/// An interaction never clears the short-window counter; only a tick more
/// than ten minutes into the window does.
pub proof fn only_ticks_clear_the_counter(s: SophieState, now: u64)
    ensures
        s.interacted_at(now).recent_interaction_count >= s.recent_interaction_count,
        s.ticked_at(now).recent_interaction_count != s.recent_interaction_count ==> (
        s.ticked_at(now).recent_interaction_count == 0 && now > s.interaction_count_reset_ts
            + COUNT_WINDOW_SECS),
{
}

} // verus!
