//! The frames of a window.

use vstd::prelude::*;
use crate::text::{ascii_lower, debug_text, is_word, joined, lowered, owned, quoted};

verus! {

/// The unit in which a frame is counted.
#[derive(Clone, Copy, Debug, PartialEq, Eq, Structural)]
pub enum FrameType {
    Range,
    Rows,
}

/// An end of a frame.
#[derive(Clone, Copy, Debug, PartialEq, Eq, Structural)]
pub enum Frame {
    UnboundedPreceding,
    Preceding(u32),
    CurrentRow,
    Following(u32),
    UnboundedFollowing,
}

/// The frame of a window: its unit, its start, and its end where one is
/// given.
#[derive(Clone, Copy, Debug, PartialEq, Eq, Structural)]
pub struct FrameClause {
    pub unit: FrameType,
    pub start: Frame,
    pub end: Option<Frame>,
}

/// An end of a frame, as the host holds it.
#[derive(Clone, Copy, Debug, PartialEq, Eq, Structural)]
pub struct PyWindowFrame(pub Frame);

impl PyWindowFrame {
    /// The end before all rows.
    pub fn unbounded_preceding() -> (r: Self)
        ensures
            r.0 == Frame::UnboundedPreceding,
    {
        PyWindowFrame(Frame::UnboundedPreceding)
    }

    /// The end at the current row.
    pub fn current_row() -> (r: Self)
        ensures
            r.0 == Frame::CurrentRow,
    {
        PyWindowFrame(Frame::CurrentRow)
    }

    /// The end after all rows.
    pub fn unbounded_following() -> (r: Self)
        ensures
            r.0 == Frame::UnboundedFollowing,
    {
        PyWindowFrame(Frame::UnboundedFollowing)
    }

    /// The end `val` rows after the current row.
    pub fn following(val: u32) -> (r: Self)
        ensures
            r.0 == Frame::Following(val),
    {
        PyWindowFrame(Frame::Following(val))
    }

    /// The end `val` rows before the current row.
    pub fn preceding(val: u32) -> (r: Self)
        ensures
            r.0 == Frame::Preceding(val),
    {
        PyWindowFrame(Frame::Preceding(val))
    }
}

/// The unit that a word stands for, letter case apart.
pub open spec fn frame_type_of(word: Seq<char>) -> Option<FrameType> {
    let lower = ascii_lower(word);
    if lower == "rows"@ {
        Some(FrameType::Rows)
    } else if lower == "range"@ {
        Some(FrameType::Range)
    } else {
        None
    }
}

/// The message for a word that stands for no unit. It shows the word in
/// lower case.
pub open spec fn invalid_frame_type(word: Seq<char>) -> Seq<char> {
    "invalid frame type, expected 'rows' or 'range'; got "@ + debug_text(ascii_lower(word))
}

/// The end of a frame that a frame of the host holds, where there is one.
pub open spec fn end_of(end: Option<PyWindowFrame>) -> Option<Frame> {
    match end {
        Some(e) => Some(e.0),
        None => None,
    }
}

/// The frame of a window with the unit that a word stands for: `rows` or
/// `range`.
pub fn frame(kind: String, start: PyWindowFrame, end: Option<PyWindowFrame>) -> (r: Result<
    FrameClause,
    String,
>)
    ensures
        match r {
            Ok(clause) => frame_type_of(kind@) == Some(clause.unit) && clause.start == start.0
                && clause.end == end_of(end),
            Err(message) => frame_type_of(kind@) is None && message@ == invalid_frame_type(kind@),
        },
{
    let lower = lowered(kind.as_str());
    let unit = if is_word(&lower, "rows") {
        FrameType::Rows
    } else if is_word(&lower, "range") {
        FrameType::Range
    } else {
        let message = owned("invalid frame type, expected 'rows' or 'range'; got ");
        return Err(joined(message, quoted(lower.as_str()).as_str()));
    };
    let end = match end {
        Some(e) => Some(e.0),
        None => None,
    };
    Ok(FrameClause { unit, start: start.0, end })
}

} // verus!
