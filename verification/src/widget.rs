//! The multi-line input widget, an outside collaborator. The buffer's
//! contents are modelled as a sequence of lines; the editing itself is the
//! widget crate's business and stays behind trusted wrappers.

use vstd::prelude::*;
use crate::text::seq_views;
use tui_textarea::{Input, Key, TextArea};

verus! {

#[verifier::external_type_specification]
pub struct ExKey(Key);

#[verifier::external_type_specification]
pub struct ExInput(Input);

/// The input widget: a `tui_textarea::TextArea` held opaquely, since Verus
/// refuses that type's declaration. The `widget` field is reachable from
/// unverified drawing code, which renders it into the input pane.
#[verifier::external_body]
pub struct InputBox {
    pub widget: TextArea<'static>,
}

/// The lines of text an input widget's buffer holds, in order.
pub uninterp spec fn buffer_lines(b: InputBox) -> Seq<Seq<char>>;

/// Relies on tui_textarea::TextArea::default: a fresh widget holds exactly
/// one empty line.
#[verifier::external_body]
fn inputbox_default() -> (b: InputBox)
    ensures
        buffer_lines(b) == seq![Seq::<char>::empty()],
{
    InputBox { widget: TextArea::default() }
}

/// Relies on tui_textarea::TextArea::set_tab_length: it only changes the tab
/// configuration, never the buffer.
#[verifier::external_body]
fn inputbox_set_tab_length(b: &mut InputBox, len: u8)
    ensures
        buffer_lines(*final(b)) == buffer_lines(*old(b)),
{
    b.widget.set_tab_length(len)
}

/// Relies on tui_textarea::TextArea::set_max_histories: it only resizes the
/// undo history, never the buffer.
#[verifier::external_body]
fn inputbox_set_max_histories(b: &mut InputBox, max: usize)
    ensures
        buffer_lines(*final(b)) == buffer_lines(*old(b)),
{
    b.widget.set_max_histories(max)
}

/// Relies on tui_textarea::TextArea::remove_line_number: it only switches the
/// line-number gutter off, never touching the buffer.
#[verifier::external_body]
fn inputbox_remove_line_number(b: &mut InputBox)
    ensures
        buffer_lines(*final(b)) == buffer_lines(*old(b)),
{
    b.widget.remove_line_number()
}

/// Relies on tui_textarea::TextArea::set_cursor_line_style: it only changes
/// how the cursor's line is styled, never the buffer.
#[verifier::external_body]
fn inputbox_plain_cursor_line(b: &mut InputBox)
    ensures
        buffer_lines(*final(b)) == buffer_lines(*old(b)),
{
    b.widget.set_cursor_line_style(tui::style::Style::default())
}

/// Relies on tui_textarea::TextArea::input: whatever editing a key causes,
/// the buffer keeps at least one line.
#[verifier::external_body]
pub(crate) fn inputbox_input(b: &mut InputBox, input: Input) -> (modified: bool)
    ensures
        buffer_lines(*final(b)).len() >= 1,
{
    b.widget.input(input)
}

/// Relies on tui_textarea::TextArea::lines: it hands out the buffer's lines
/// in order.
#[verifier::external_body]
fn inputbox_lines_vec(b: &InputBox) -> (r: Vec<String>)
    ensures
        seq_views(r@) == buffer_lines(*b),
{
    b.widget.lines().to_vec()
}

impl InputBox {
    /// The buffer's content as an ordered sequence of text lines.
    pub fn current_lines(&self) -> (r: Vec<String>)
        ensures
            seq_views(r@) == buffer_lines(*self),
    {
        inputbox_lines_vec(self)
    }
}

/// A fresh input widget: an empty single-line buffer, tab expansion off, no
/// undo history, no line-number gutter, and no special cursor-line style.
pub fn reset_inputbox() -> (b: InputBox)
    ensures
        buffer_lines(b) == seq![Seq::<char>::empty()],
{
    let mut inputbox = inputbox_default();
    inputbox_set_tab_length(&mut inputbox, 0);
    inputbox_set_max_histories(&mut inputbox, 0);
    inputbox_remove_line_number(&mut inputbox);
    inputbox_plain_cursor_line(&mut inputbox);
    inputbox
}

} // verus!
