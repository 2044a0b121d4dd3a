//! The mathematical model of a chat session: the observable state, and the
//! transition relation that one loop iteration satisfies, by kind of event.

use vstd::prelude::*;
use crate::text::join_seq;

verus! {

/// The observable state of a session: the status line, the message log in
/// display order, the input widget's buffer lines, and the two counters.
pub struct ChatModel {
    pub status: Seq<char>,
    pub messages: Seq<Seq<char>>,
    pub input_lines: Seq<Seq<char>>,
    pub sent: nat,
    pub received: nat,
}

/// The kind of event one loop iteration handled.
#[derive(PartialEq, Eq, Structural)]
pub enum EventLabel {
    /// An ordinary key, forwarded to the input widget.
    Edit,
    /// The submit key: the buffer becomes a logged message.
    Submit,
    /// The background timer fired: a synthetic incoming message.
    Timer,
    /// The status line was recomputed from the counters.
    Refresh,
}

/// An ordinary key only edits the buffer: the log, the counters and the
/// status line are untouched, and the buffer keeps at least one line.
pub open spec fn edit_step(pre: ChatModel, post: ChatModel) -> bool {
    &&& post.status == pre.status
    &&& post.messages == pre.messages
    &&& post.sent == pre.sent
    &&& post.received == pre.received
    &&& post.input_lines.len() >= 1
}

/// Submitting appends the joined buffer lines to the log, counts one sent
/// message, and resets the buffer to a single empty line.
pub open spec fn submit_step(pre: ChatModel, post: ChatModel) -> bool {
    &&& post.status == pre.status
    &&& post.messages == pre.messages.push(join_seq(pre.input_lines))
    &&& post.input_lines == seq![Seq::<char>::empty()]
    &&& post.sent == pre.sent + 1
    &&& post.received == pre.received
}

/// A timer firing appends the placeholder incoming message to the log and
/// counts one received message; the buffer is untouched.
pub open spec fn timer_step(pre: ChatModel, post: ChatModel) -> bool {
    &&& post.status == pre.status
    &&& post.messages == pre.messages.push("hello!"@)
    &&& post.input_lines == pre.input_lines
    &&& post.sent == pre.sent
    &&& post.received == pre.received + 1
}

/// Recomputing the status line changes nothing but the status text.
pub open spec fn refresh_step(pre: ChatModel, post: ChatModel) -> bool {
    &&& post.messages == pre.messages
    &&& post.input_lines == pre.input_lines
    &&& post.sent == pre.sent
    &&& post.received == pre.received
}

/// The transition relation of one loop iteration, by the event it handled.
pub open spec fn step(pre: ChatModel, ev: EventLabel, post: ChatModel) -> bool {
    match ev {
        EventLabel::Edit => edit_step(pre, post),
        EventLabel::Submit => submit_step(pre, post),
        EventLabel::Timer => timer_step(pre, post),
        EventLabel::Refresh => refresh_step(pre, post),
    }
}

/// A run of a session: `states` is one longer than `evs`, and each adjacent
/// pair of states is related by the step its event allows.
pub open spec fn trace_ok(states: Seq<ChatModel>, evs: Seq<EventLabel>) -> bool {
    &&& states.len() == evs.len() + 1
    &&& forall|i: int| 0 <= i < evs.len() ==> #[trigger] step(states[i], evs[i], states[i + 1])
}

/// How many events of a given kind a run handled.
pub open spec fn count_of(evs: Seq<EventLabel>, ev: EventLabel) -> nat
    decreases evs.len(),
{
    if evs.len() == 0 {
        0
    } else {
        count_of(evs.drop_last(), ev) + if evs.last() == ev {
            1nat
        } else {
            0nat
        }
    }
}

} // verus!
