//! The chat session's state and its transitions: editing keys, the submit
//! key, the quit key and the timer, plus the status-line refresh.

use vstd::prelude::*;
use crate::model::{ChatModel, edit_step, refresh_step, submit_step, timer_step};
use crate::text::{join_lines, seq_views, status_seq, status_text};
use crate::widget::{InputBox, buffer_lines, inputbox_input, reset_inputbox};
use tui_textarea::{Input, Key};

verus! {

/// What the event loop should do after handling a key.
#[derive(Clone, Copy, PartialEq, Eq, Structural, Debug)]
pub enum LoopControl {
    /// Keep running: wait for the next event.
    Continue,
    /// The quit key was pressed: leave the loop.
    Quit,
}

/// The quit key: Escape, whatever the modifiers.
pub open spec fn is_quit_key(input: Input) -> bool {
    input.key is Esc
}

/// The submit key: Enter, whatever the modifiers.
pub open spec fn is_submit_key(input: Input) -> bool {
    input.key is Enter
}

/// The mutable state of a session: status text, message log in display
/// order, input widget, and the sent / received counters.
pub struct ChatState {
    pub status: String,
    pub messages: Vec<String>,
    pub inputbox: InputBox,
    pub sent: u64,
    pub received: u64,
}

impl ChatState {
    /// The observable state this value stands for.
    pub open spec fn model(&self) -> ChatModel {
        ChatModel {
            status: self.status@,
            messages: seq_views(self.messages@),
            input_lines: buffer_lines(self.inputbox),
            sent: self.sent as nat,
            received: self.received as nat,
        }
    }

    /// A fresh session: empty status, empty log, a fresh input widget, and
    /// both counters at zero.
    pub fn new() -> (s: ChatState)
        ensures
            s.model().status == Seq::<char>::empty(),
            s.model().messages == Seq::<Seq<char>>::empty(),
            s.model().input_lines == seq![Seq::<char>::empty()],
            s.model().sent == 0,
            s.model().received == 0,
    {
        let s = ChatState {
            status: String::new(),
            messages: Vec::new(),
            inputbox: reset_inputbox(),
            sent: 0,
            received: 0,
        };
        proof {
            assert(seq_views(s.messages@) =~= Seq::<Seq<char>>::empty());
        }
        s
    }

    /// Recompute the status line from the counters; nothing else changes.
    pub fn update_status(&mut self)
        ensures
            final(self).status@ == status_seq(old(self).sent as nat, old(self).received as nat),
            refresh_step(old(self).model(), final(self).model()),
    {
        self.status = status_text(self.sent, self.received);
    }

    /// Forward an ordinary key to the input widget.
    pub fn edit(&mut self, input: Input)
        ensures
            edit_step(old(self).model(), final(self).model()),
    {
        inputbox_input(&mut self.inputbox, input);
    }

    /// Submit the input widget's content: join its lines into one message,
    /// append it to the log, count it as sent, and reset the widget.
    pub fn submit(&mut self)
        requires
            old(self).sent < u64::MAX,
        ensures
            submit_step(old(self).model(), final(self).model()),
    {
        let lines = self.inputbox.current_lines();
        let newmsg = join_lines(&lines);
        let ghost pre = self.model();
        self.messages.push(newmsg);
        self.inputbox = reset_inputbox();
        self.sent = self.sent + 1;
        proof {
            assert(seq_views(self.messages@) =~= pre.messages.push(
                crate::text::join_seq(pre.input_lines),
            ));
        }
    }

    /// Handle one key event: Escape quits, Enter submits, and every other
    /// key goes to the input widget.
    pub fn on_key(&mut self, input: Input) -> (r: LoopControl)
        requires
            old(self).sent < u64::MAX,
        ensures
            is_quit_key(input) ==> r == LoopControl::Quit && *final(self) == *old(self),
            !is_quit_key(input) && is_submit_key(input) ==> r == LoopControl::Continue
                && submit_step(old(self).model(), final(self).model()),
            !is_quit_key(input) && !is_submit_key(input) ==> r == LoopControl::Continue
                && edit_step(old(self).model(), final(self).model()),
    {
        match input.key {
            Key::Esc => LoopControl::Quit,
            Key::Enter => {
                self.submit();
                LoopControl::Continue
            },
            _ => {
                self.edit(input);
                LoopControl::Continue
            },
        }
    }

    /// Handle one firing of the background timer: log the placeholder
    /// incoming message and count it as received.
    pub fn on_timer(&mut self)
        requires
            old(self).received < u64::MAX,
        ensures
            timer_step(old(self).model(), final(self).model()),
    {
        let ghost pre = self.model();
        self.messages.push("hello!".to_owned());
        self.received = self.received + 1;
        proof {
            assert(seq_views(self.messages@) =~= pre.messages.push("hello!"@));
        }
    }
}

} // verus!
