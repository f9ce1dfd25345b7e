use vstd::prelude::*;

use crate::lanes::Actions;

verus! {

/// A chart: song metadata and its note events in chart order.
pub struct Level {
    pub title: String,
    pub artist: String,
    pub creator: String,
    /// Audio file played once the lead-in has elapsed.
    pub filename: String,
    pub data: Vec<Note>,
}

/// One note event of a chart.
#[derive(PartialEq, Eq, Structural, Clone, Copy, Debug)]
pub enum Note {
    /// A tap in a lane at an absolute chart time in milliseconds.
    S(Actions, u32),
    /// A long note held from a start time to an end time, in milliseconds.
    L(Actions, u32, u32),
}

} // verus!
