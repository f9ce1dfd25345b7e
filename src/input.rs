use vstd::prelude::*;

use crate::lanes::{lane_index, lane_offset, lane_skin, Actions, Skin, KEY_POS};

verus! {

/// Scale of a key indicator while its lane is held, in percent.
pub const PRESSED_SCALE: u32 = 90;

/// Scale of a key indicator at rest, in percent.
pub const RELEASED_SCALE: u32 = 100;

/// The indicator drawn on the hit line for one lane.
#[derive(PartialEq, Eq, Structural, Clone, Copy, Debug)]
pub struct KeyIndicator {
    pub lane: Actions,
    pub skin: Skin,
    /// Position, in thousandths of a pixel.
    pub x: i128,
    pub y: i128,
    /// Drawn size, in percent.
    pub scale_percent: u32,
}

pub open spec fn key_of(lane: Actions) -> KeyIndicator {
    KeyIndicator {
        lane,
        skin: lane_skin(lane),
        x: lane_offset(lane) as i128,
        y: KEY_POS,
        scale_percent: RELEASED_SCALE,
    }
}

/// The indicator after one input sample: compressed while its lane is held,
/// at rest otherwise.
pub open spec fn judged(k: KeyIndicator, held: Seq<bool>) -> KeyIndicator {
    KeyIndicator {
        scale_percent: if held[lane_index(k.lane)] {
            PRESSED_SCALE
        } else {
            RELEASED_SCALE
        },
        ..k
    }
}

pub open spec fn lane_at(i: int) -> Actions {
    if i == 0 {
        Actions::Key1
    } else if i == 1 {
        Actions::Key2
    } else if i == 2 {
        Actions::Key3
    } else {
        Actions::Key4
    }
}

impl KeyIndicator {
    /// The indicator of `action`'s lane, at rest on the hit line.
    pub fn new(action: Actions) -> (r: KeyIndicator)
        ensures
            r == key_of(action),
    {
        KeyIndicator {
            lane: action,
            skin: action.skin(),
            x: action.get_pos(),
            y: KEY_POS,
            scale_percent: RELEASED_SCALE,
        }
    }
}

/// The four indicators, left to right.
pub fn key_row() -> (r: Vec<KeyIndicator>)
    ensures
        r@.len() == 4,
        forall|i: int| 0 <= i < 4 ==> r@[i] == key_of(lane_at(i)),
{
    let r = vec![
        KeyIndicator::new(Actions::Key1),
        KeyIndicator::new(Actions::Key2),
        KeyIndicator::new(Actions::Key3),
        KeyIndicator::new(Actions::Key4),
    ];
    r
}

/// Samples the held state of each lane (`held[i]` for the lane at index
/// `i`) and sets each indicator's scale from it.
pub fn check_input(keys: &mut Vec<KeyIndicator>, held: [bool; 4])
    ensures
        final(keys)@.len() == old(keys)@.len(),
        forall|i: int|
            0 <= i < old(keys)@.len() ==> final(keys)@[i] == judged(old(keys)@[i], held@),
{
    let n = keys.len();
    for i in 0..n
        invariant
            n == old(keys)@.len(),
            keys@.len() == n,
            forall|j: int| 0 <= j < i ==> keys@[j] == judged(old(keys)@[j], held@),
            forall|j: int| i <= j < n ==> keys@[j] == old(keys)@[j],
    {
        let k = keys[i];
        let scale = if held[k.lane.index()] {
            PRESSED_SCALE
        } else {
            RELEASED_SCALE
        };
        keys.set(i, KeyIndicator { scale_percent: scale, ..k });
    }
}

} // verus!
