use vstd::prelude::*;

use crate::lanes::{lane_offset, Actions, KEY_HEIGHT, KEY_POS};

verus! {

/// Where a note's centre stands when it is due: half a note above the hit
/// line, so that the note's lower edge touches the line.
pub open spec fn hit_line_y() -> int {
    KEY_POS + KEY_HEIGHT / 2
}

/// Height of a note that is due in `remaining_ms` milliseconds, in
/// thousandths of a pixel, scrolling at `scroll_speed` pixels per second:
/// `remaining_ms / 1000` seconds times `scroll_speed` pixels is
/// `remaining_ms * scroll_speed` thousandths of a pixel.
pub open spec fn position_y(remaining_ms: int, scroll_speed: int) -> int {
    remaining_ms * scroll_speed + hit_line_y()
}

/// Vertical position of a note due in `remaining_ms` milliseconds.
pub fn time_to_pos(remaining_ms: u64, scroll_speed: u32) -> (r: i128)
    ensures
        r == position_y(remaining_ms as int, scroll_speed as int),
{
    let t = remaining_ms as i128;
    let s = scroll_speed as i128;
    assert(0 <= t * s <= 0xffff_ffff_ffff_ffff * 0xffff_ffffint) by (nonlinear_arith)
        requires
            0 <= t <= 0xffff_ffff_ffff_ffff,
            0 <= s <= 0xffff_ffff,
    ;
    t * s + (KEY_POS + KEY_HEIGHT / 2)
}

/// Screen position `(x, y)` of a note in `lane` due in `remaining_ms`.
pub fn position(remaining_ms: u64, scroll_speed: u32, lane: Actions) -> (r: (i128, i128))
    ensures
        r.0 == lane_offset(lane),
        r.1 == position_y(remaining_ms as int, scroll_speed as int),
{
    (lane.get_pos(), time_to_pos(remaining_ms, scroll_speed))
}

/// A note scrolls down towards the hit line as its time runs out, and its
/// centre sits exactly half a note above the line when it is due.
pub proof fn lemma_position_monotonic(a: nat, b: nat, scroll_speed: nat)
    requires
        a < b,
        scroll_speed > 0,
    ensures
        position_y(a as int, scroll_speed as int) < position_y(b as int, scroll_speed as int),
        position_y(0, scroll_speed as int) == hit_line_y(),
{
    assert(a * scroll_speed < b * scroll_speed) by (nonlinear_arith)
        requires
            a < b,
            scroll_speed > 0,
    ;
}

} // verus!
