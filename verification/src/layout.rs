//! The three-pane vertical layout: a fixed-height status pane, a message-log
//! pane that takes the rest of the height down to a floor, and a one-cell
//! input pane. A terminal shorter than the combined minimums gets a
//! diagnostic panel instead.

use vstd::prelude::*;

verus! {

/// Height of the status pane: one text line plus a border above and below.
pub const STATUS_HEIGHT: u16 = 3;

/// Minimum height of the message-log pane: ten lines plus borders.
pub const LOG_MIN_HEIGHT: u16 = 12;

/// Height of the input pane: exactly one line, no border.
pub const INPUT_HEIGHT: u16 = 1;

/// The least terminal height on which all three panes fit.
pub const MIN_TOTAL_HEIGHT: u16 = STATUS_HEIGHT + LOG_MIN_HEIGHT + INPUT_HEIGHT;

/// A rectangular area of the terminal's character grid.
#[derive(Clone, Copy, PartialEq, Eq, Structural, Debug)]
pub struct Region {
    pub x: u16,
    pub y: u16,
    pub width: u16,
    pub height: u16,
}

/// The status pane: the top rows of the available area.
pub open spec fn status_region(size: Region) -> Region {
    Region { x: size.x, y: size.y, width: size.width, height: STATUS_HEIGHT }
}

/// The log pane: everything between the status pane and the input line.
pub open spec fn log_region(size: Region) -> Region {
    Region {
        x: size.x,
        y: (size.y + STATUS_HEIGHT) as u16,
        width: size.width,
        height: (size.height - STATUS_HEIGHT - INPUT_HEIGHT) as u16,
    }
}

/// The input pane: the last row of the available area.
pub open spec fn input_region(size: Region) -> Region {
    Region {
        x: size.x,
        y: (size.y + size.height - INPUT_HEIGHT) as u16,
        width: size.width,
        height: INPUT_HEIGHT,
    }
}

/// Two regions of the same columns that share no row.
pub open spec fn rows_disjoint(a: Region, b: Region) -> bool {
    a.y + a.height <= b.y || b.y + b.height <= a.y
}

/// Split the available area into the three panes, top to bottom; `None` when
/// the area is too short to hold all three.
pub fn compute_layout(size: Region) -> (r: Option<(Region, Region, Region)>)
    requires
        size.y + size.height <= u16::MAX,
    ensures
        r is Some <==> size.height >= MIN_TOTAL_HEIGHT,
        r matches Some(panes) ==> panes.0 == status_region(size) && panes.1 == log_region(size)
            && panes.2 == input_region(size),
{
    if size.height < MIN_TOTAL_HEIGHT {
        None
    } else {
        let status = Region { x: size.x, y: size.y, width: size.width, height: STATUS_HEIGHT };
        let log = Region {
            x: size.x,
            y: size.y + STATUS_HEIGHT,
            width: size.width,
            height: size.height - STATUS_HEIGHT - INPUT_HEIGHT,
        };
        let input = Region {
            x: size.x,
            y: size.y + size.height - INPUT_HEIGHT,
            width: size.width,
            height: INPUT_HEIGHT,
        };
        Some((status, log, input))
    }
}

/// Law: on a tall-enough area the three panes are stacked in order, share no
/// row, and their heights sum exactly to the available height.
pub proof fn lemma_layout_partition(size: Region)
    requires
        size.height >= MIN_TOTAL_HEIGHT,
        size.y + size.height <= u16::MAX,
    ensures
        status_region(size).height + log_region(size).height + input_region(size).height
            == size.height,
        status_region(size).y == size.y,
        log_region(size).y == size.y + status_region(size).height,
        input_region(size).y == log_region(size).y + log_region(size).height,
        rows_disjoint(status_region(size), log_region(size)),
        rows_disjoint(status_region(size), input_region(size)),
        rows_disjoint(log_region(size), input_region(size)),
{
}

} // verus!
