//! Session-wide laws, proved over the transition relation of `model`: what
//! whole runs of the event loop preserve or count.

use vstd::prelude::*;
use crate::model::{ChatModel, EventLabel, count_of, step, submit_step, trace_ok};

verus! {

/// Law: a run of non-submit, non-quit events (ordinary keys and status
/// refreshes) never changes the message log or the counters, and keeps at
/// least one line in the input widget.
pub proof fn lemma_edit_run_preserves_log(states: Seq<ChatModel>, evs: Seq<EventLabel>)
    requires
        trace_ok(states, evs),
        forall|i: int|
            0 <= i < evs.len() ==> evs[i] == EventLabel::Edit || evs[i] == EventLabel::Refresh,
    ensures
        states.last().messages == states[0].messages,
        states.last().sent == states[0].sent,
        states.last().received == states[0].received,
        states[0].input_lines.len() >= 1 ==> states.last().input_lines.len() >= 1,
    decreases evs.len(),
{
    if evs.len() > 0 {
        let prev_states = states.drop_last();
        let prev_evs = evs.drop_last();
        assert(forall|i: int|
            0 <= i < prev_evs.len() ==> #[trigger] step(
                prev_states[i],
                prev_evs[i],
                prev_states[i + 1],
            ));
        lemma_edit_run_preserves_log(prev_states, prev_evs);
        assert(step(states[evs.len() - 1], evs.last(), states.last()));
    }
}

/// Law: submitting resets the input widget to exactly one empty line,
/// whatever it held before.
pub proof fn lemma_submit_resets_input(pre: ChatModel, post: ChatModel)
    requires
        submit_step(pre, post),
    ensures
        post.input_lines.len() == 1,
        post.input_lines[0].len() == 0,
{
}

/// Law: over any run, the sent counter grows by exactly the number of submit
/// events handled, and the received counter by exactly the number of timer
/// firings handled.
pub proof fn lemma_counters_count_events(states: Seq<ChatModel>, evs: Seq<EventLabel>)
    requires
        trace_ok(states, evs),
    ensures
        states.last().sent == states[0].sent + count_of(evs, EventLabel::Submit),
        states.last().received == states[0].received + count_of(evs, EventLabel::Timer),
    decreases evs.len(),
{
    if evs.len() > 0 {
        let prev_states = states.drop_last();
        let prev_evs = evs.drop_last();
        assert(forall|i: int|
            0 <= i < prev_evs.len() ==> #[trigger] step(
                prev_states[i],
                prev_evs[i],
                prev_states[i + 1],
            ));
        lemma_counters_count_events(prev_states, prev_evs);
        assert(step(states[evs.len() - 1], evs.last(), states.last()));
    }
}

/// Law: no step ever decreases either counter.
pub proof fn lemma_step_counters_monotonic(pre: ChatModel, ev: EventLabel, post: ChatModel)
    requires
        step(pre, ev, post),
    ensures
        post.sent >= pre.sent,
        post.received >= pre.received,
{
}

/// Law: over any run, both counters are monotonically non-decreasing: at any
/// later point of the run they are at least what they were earlier.
pub proof fn lemma_counters_monotonic(states: Seq<ChatModel>, evs: Seq<EventLabel>)
    requires
        trace_ok(states, evs),
    ensures
        forall|i: int, j: int|
            0 <= i <= j < states.len() ==> states[i].sent <= states[j].sent && states[i].received
                <= states[j].received,
{
    assert forall|i: int, j: int| 0 <= i <= j < states.len() implies states[i].sent
        <= states[j].sent && states[i].received <= states[j].received by {
        lemma_counters_monotonic_from(states, evs, i, j);
    }
}

proof fn lemma_counters_monotonic_from(
    states: Seq<ChatModel>,
    evs: Seq<EventLabel>,
    i: int,
    j: int,
)
    requires
        trace_ok(states, evs),
        0 <= i <= j < states.len(),
    ensures
        states[i].sent <= states[j].sent,
        states[i].received <= states[j].received,
    decreases j - i,
{
    if i < j {
        let k = j - 1;
        assert(step(states[k], evs[k], states[k + 1]));
        lemma_step_counters_monotonic(states[k], evs[k], states[j]);
        lemma_counters_monotonic_from(states, evs, i, j - 1);
    }
}

} // verus!
