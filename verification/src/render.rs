//! The frame plan: everything one redraw needs, computed purely from the
//! session state and the terminal's current size. Drawing the plan onto the
//! terminal is left to unverified code.

use vstd::prelude::*;
use crate::layout::{
    MIN_TOTAL_HEIGHT, Region, compute_layout, input_region, log_region, status_region,
};
use crate::state::ChatState;
use crate::text::{join_lines, join_seq};

verus! {

/// The diagnostic text shown when the terminal is too short for the three
/// panes.
pub open spec fn layout_error_seq() -> Seq<char> {
    "Couldn't create all 3 UI sections"@
}

/// One frame's plan: either the three panes with their texts, or a
/// full-screen diagnostic panel when the terminal is too small.
pub enum FramePlan {
    /// The normal frame: the three pane regions, the status text, and the
    /// log's messages joined in display order, newest at the bottom.
    Panes {
        status: Region,
        log: Region,
        input: Region,
        status_text: String,
        log_text: String,
    },
    /// The degenerate frame: one panel reporting the shortfall.
    Diagnostic { message: String },
}

impl ChatState {
    /// Plan one frame from the current state and the terminal size, without
    /// changing the state.
    pub fn render(&self, size: Region) -> (p: FramePlan)
        requires
            size.y + size.height <= u16::MAX,
        ensures
            size.height >= MIN_TOTAL_HEIGHT ==> (p matches FramePlan::Panes {
                status,
                log,
                input,
                status_text,
                log_text,
            } && status == status_region(size) && log == log_region(size) && input
                == input_region(size) && status_text@ == self.status@ && log_text@ == join_seq(
                self.model().messages,
            )),
            size.height < MIN_TOTAL_HEIGHT ==> (p matches FramePlan::Diagnostic { message }
                && message@ == layout_error_seq()),
    {
        match compute_layout(size) {
            Some((status, log, input)) => FramePlan::Panes {
                status,
                log,
                input,
                status_text: self.status.clone(),
                log_text: join_lines(&self.messages),
            },
            None => FramePlan::Diagnostic {
                message: "Couldn't create all 3 UI sections".to_owned(),
            },
        }
    }
}

} // verus!
