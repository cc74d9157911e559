//! One row of the display.

use vstd::prelude::*;
use crate::clock::Timestamp;
use crate::ident::BarId;
use crate::permille::FULL;

verus! {

/// The number of frames of the spinner's animation.
pub const SPINNER_LEN: u8 = 16;

/// What a row shows: a bar filled to some per mille, or a spinner at some
/// frame of its animation.
#[derive(Debug, Clone, Copy, PartialEq, Eq, Structural)]
pub enum BarEntryKind {
    Progress(u16),
    Spinner(u8),
}

/// An indicator as the worker tracks it.
#[derive(Debug, Clone, PartialEq, Eq)]
pub struct BarEntry {
    pub id: BarId,
    pub name: String,
    /// When the indicator was created.
    pub time: Timestamp,
    pub kind: BarEntryKind,
}

/// A row as contracts speak of it: the identifier as a number and the name
/// as its characters.
pub struct Row {
    pub id: u32,
    pub name: Seq<char>,
    pub time: Timestamp,
    pub kind: BarEntryKind,
}

impl BarEntryKind {
    /// A bar is filled to at most 1000 per mille, and a spinner stands at
    /// one of its sixteen frames.
    pub open spec fn in_range(self) -> bool {
        match self {
            BarEntryKind::Progress(permille) => permille <= FULL,
            BarEntryKind::Spinner(frame) => frame < SPINNER_LEN,
        }
    }

    /// The state that a row is left in when it stays on screen after its
    /// indicator was torn down: a full bar, or the spinner's first frame.
    pub open spec fn completed(self) -> BarEntryKind {
        match self {
            BarEntryKind::Progress(_) => BarEntryKind::Progress(FULL),
            BarEntryKind::Spinner(_) => BarEntryKind::Spinner(0),
        }
    }

    /// The state one frame later: a spinner moves on by one frame and
    /// starts over after the last, a bar stays as it is.
    pub open spec fn animated(self) -> BarEntryKind {
        match self {
            BarEntryKind::Progress(permille) => BarEntryKind::Progress(permille),
            BarEntryKind::Spinner(frame) => BarEntryKind::Spinner(
                ((frame + 1) % (SPINNER_LEN as int)) as u8,
            ),
        }
    }

    /// The state after a progress report. A bar takes the reported value,
    /// capped at 1000 and, unless `decrement` is set, held at or above the
    /// value shown before. A spinner ignores reports.
    pub open spec fn reported(self, permille: u16, decrement: bool) -> BarEntryKind {
        match self {
            BarEntryKind::Progress(shown) => {
                let floor: u16 = if decrement {
                    0
                } else {
                    shown
                };
                BarEntryKind::Progress(
                    if permille < floor {
                        floor
                    } else if permille > FULL {
                        FULL
                    } else {
                        permille
                    },
                )
            },
            BarEntryKind::Spinner(frame) => BarEntryKind::Spinner(frame),
        }
    }

    /// The state in which a new indicator starts.
    pub open spec fn initial(progress: bool) -> BarEntryKind {
        if progress {
            BarEntryKind::Progress(0)
        } else {
            BarEntryKind::Spinner(0)
        }
    }
}

impl View for BarEntry {
    type V = Row;

    open spec fn view(&self) -> Row {
        Row { id: self.id@, name: self.name@, time: self.time, kind: self.kind }
    }
}

impl Row {
    /// The same row in another state.
    pub open spec fn with_kind(self, kind: BarEntryKind) -> Row {
        Row { id: self.id, name: self.name, time: self.time, kind }
    }
}

} // verus!
