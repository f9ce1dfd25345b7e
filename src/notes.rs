use vstd::prelude::*;

use crate::lanes::{lane_offset, Actions};
use crate::level_loader::level::{Level, Note};
use crate::scroll::{position_y, time_to_pos};

verus! {

/// A note on its way down to the hit line.
#[derive(PartialEq, Eq, Structural, Clone, Copy, Debug)]
pub struct NoteInstance {
    /// Index of the chart event this note was spawned from.
    pub id: usize,
    pub lane: Actions,
    /// Milliseconds until the note reaches the hit line.
    pub remaining_ms: u64,
}

/// Where a live note is drawn this tick, in thousandths of a pixel.
#[derive(PartialEq, Eq, Structural, Clone, Copy, Debug)]
pub struct NotePosition {
    pub id: usize,
    pub lane: Actions,
    pub x: i128,
    pub y: i128,
}

/// The notes that a chart puts on screen: one for each tap whose remaining
/// time (chart time plus lead-in) is positive, identified by its index in
/// the chart, in chart order. Long notes are not played.
pub open spec fn spawned(data: Seq<Note>, lead_in_ms: u32) -> Seq<NoteInstance>
    decreases data.len(),
{
    if data.len() == 0 {
        Seq::empty()
    } else {
        let rest = spawned(data.drop_last(), lead_in_ms);
        match data.last() {
            Note::S(lane, time_ms) => {
                if time_ms as int + lead_in_ms as int > 0 {
                    rest.push(
                        NoteInstance {
                            id: (data.len() - 1) as usize,
                            lane,
                            remaining_ms: (time_ms as int + lead_in_ms as int) as u64,
                        },
                    )
                } else {
                    rest
                }
            },
            Note::L(_, _, _) => rest,
        }
    }
}

/// The notes after `elapsed_ms` more milliseconds: each loses that much of
/// its remaining time, and those that reach the hit line are gone.
pub open spec fn advanced(s: Seq<NoteInstance>, elapsed_ms: nat) -> Seq<NoteInstance>
    decreases s.len(),
{
    if s.len() == 0 {
        Seq::empty()
    } else {
        let rest = advanced(s.drop_last(), elapsed_ms);
        let n = s.last();
        if n.remaining_ms > elapsed_ms {
            rest.push(
                NoteInstance {
                    id: n.id,
                    lane: n.lane,
                    remaining_ms: (n.remaining_ms - elapsed_ms) as u64,
                },
            )
        } else {
            rest
        }
    }
}

/// The notes after a run of ticks with the given elapsed times, in order.
pub open spec fn advanced_all(s: Seq<NoteInstance>, steps: Seq<nat>) -> Seq<NoteInstance>
    decreases steps.len(),
{
    if steps.len() == 0 {
        s
    } else {
        advanced(advanced_all(s, steps.drop_last()), steps.last())
    }
}

pub open spec fn total(steps: Seq<nat>) -> nat
    decreases steps.len(),
{
    if steps.len() == 0 {
        0
    } else {
        total(steps.drop_last()) + steps.last()
    }
}

/// Every live note is still above the hit line, and ids strictly increase.
pub open spec fn notes_wf(s: Seq<NoteInstance>) -> bool {
    &&& forall|i: int| 0 <= i < s.len() ==> s[i].remaining_ms > 0
    &&& forall|i: int, j: int| 0 <= i < j < s.len() ==> s[i].id < s[j].id
}

pub open spec fn position_of(n: NoteInstance, scroll_speed: u32) -> NotePosition {
    NotePosition {
        id: n.id,
        lane: n.lane,
        x: lane_offset(n.lane) as i128,
        y: position_y(n.remaining_ms as int, scroll_speed as int) as i128,
    }
}

pub open spec fn positions_of(s: Seq<NoteInstance>, scroll_speed: u32) -> Seq<NotePosition> {
    Seq::new(s.len(), |i: int| position_of(s[i], scroll_speed))
}

proof fn lemma_spawned_wf(data: Seq<Note>, lead_in_ms: u32)
    requires
        data.len() <= usize::MAX,
    ensures
        notes_wf(spawned(data, lead_in_ms)),
        forall|k: int|
            0 <= k < spawned(data, lead_in_ms).len() ==> spawned(data, lead_in_ms)[k].id
                < data.len(),
    decreases data.len(),
{
    if data.len() > 0 {
        let p = data.drop_last();
        lemma_spawned_wf(p, lead_in_ms);
        let rest = spawned(p, lead_in_ms);
        let r = spawned(data, lead_in_ms);
        if r.len() > rest.len() {
            assert(r == rest.push(r.last()));
            assert(r.last().id == data.len() - 1);
            assert forall|k: int| 0 <= k < rest.len() implies r[k] == rest[k] && r[k].id
                < data.len() - 1 by {}
        } else {
            assert(r == rest);
        }
    }
}

/// Each note that survives `elapsed_ms` comes from a note of `s` with the
/// same id and lane, whose remaining time has dropped by exactly that much.
pub proof fn lemma_advanced_members(s: Seq<NoteInstance>, elapsed_ms: nat)
    ensures
        forall|k: int|
            #![trigger advanced(s, elapsed_ms)[k]]
            0 <= k < advanced(s, elapsed_ms).len() ==> exists|j: int|
                0 <= j < s.len() && s[j].id == advanced(s, elapsed_ms)[k].id && s[j].lane
                    == advanced(s, elapsed_ms)[k].lane && s[j].remaining_ms > elapsed_ms
                    && advanced(s, elapsed_ms)[k].remaining_ms == s[j].remaining_ms
                    - elapsed_ms,
        advanced(s, elapsed_ms).len() <= s.len(),
    decreases s.len(),
{
    if s.len() > 0 {
        let p = s.drop_last();
        lemma_advanced_members(p, elapsed_ms);
        let r = advanced(s, elapsed_ms);
        let rp = advanced(p, elapsed_ms);
        assert forall|k: int| #![trigger r[k]] 0 <= k < r.len() implies exists|j: int|
            0 <= j < s.len() && s[j].id == r[k].id && s[j].lane == r[k].lane && s[j].remaining_ms
                > elapsed_ms && r[k].remaining_ms == s[j].remaining_ms - elapsed_ms by {
            if k < rp.len() {
                assert(r[k] == rp[k]);
                let j = choose|j: int|
                    0 <= j < p.len() && p[j].id == rp[k].id && p[j].lane == rp[k].lane
                        && p[j].remaining_ms > elapsed_ms && rp[k].remaining_ms == p[j].remaining_ms
                        - elapsed_ms;
                assert(s[j] == p[j]);
            } else {
                assert(s[s.len() - 1] == s.last());
            }
        }
    }
}

/// Advancing keeps the live notes well formed.
pub proof fn lemma_advanced_wf(s: Seq<NoteInstance>, elapsed_ms: nat)
    requires
        notes_wf(s),
    ensures
        notes_wf(advanced(s, elapsed_ms)),
    decreases s.len(),
{
    if s.len() > 0 {
        let p = s.drop_last();
        lemma_advanced_wf(p, elapsed_ms);
        lemma_advanced_members(p, elapsed_ms);
        let rp = advanced(p, elapsed_ms);
        assert forall|k: int| 0 <= k < rp.len() implies rp[k].id < s.last().id by {
            let j = choose|j: int|
                0 <= j < p.len() && p[j].id == rp[k].id && p[j].lane == rp[k].lane
                    && p[j].remaining_ms > elapsed_ms && rp[k].remaining_ms == p[j].remaining_ms
                    - elapsed_ms;
            assert(s[j] == p[j]);
        }
    }
}

proof fn lemma_advanced_zero(s: Seq<NoteInstance>)
    requires
        notes_wf(s),
    ensures
        advanced(s, 0) == s,
    decreases s.len(),
{
    if s.len() > 0 {
        lemma_advanced_zero(s.drop_last());
        assert(s.drop_last().push(s.last()) =~= s);
    }
}

/// Advancing by `a` and then by `b` is advancing by `a + b`.
pub proof fn lemma_advanced_compose(s: Seq<NoteInstance>, a: nat, b: nat)
    ensures
        advanced(advanced(s, a), b) == advanced(s, a + b),
    decreases s.len(),
{
    if s.len() > 0 {
        let p = s.drop_last();
        let n = s.last();
        lemma_advanced_compose(p, a, b);
        let ap = advanced(p, a);
        if n.remaining_ms > a {
            let m = NoteInstance { id: n.id, lane: n.lane, remaining_ms: (n.remaining_ms - a) as u64 };
            assert(ap.push(m).drop_last() =~= ap);
            assert(ap.push(m).last() == m);
        }
    }
}

/// However a stretch of `total(steps)` milliseconds is cut into ticks, the
/// notes that survive it are the same, and each survivor has exactly
/// `total(steps)` less remaining time than the note it was spawned as.
pub proof fn lemma_advance_total(s: Seq<NoteInstance>, steps: Seq<nat>)
    requires
        notes_wf(s),
    ensures
        advanced_all(s, steps) == advanced(s, total(steps)),
        forall|k: int|
            #![trigger advanced_all(s, steps)[k]]
            0 <= k < advanced_all(s, steps).len() ==> exists|j: int|
                0 <= j < s.len() && s[j].id == advanced_all(s, steps)[k].id && s[j].lane
                    == advanced_all(s, steps)[k].lane && advanced_all(s, steps)[k].remaining_ms
                    == s[j].remaining_ms - total(steps),
    decreases steps.len(),
{
    if steps.len() == 0 {
        lemma_advanced_zero(s);
    } else {
        lemma_advance_total(s, steps.drop_last());
        lemma_advanced_compose(s, total(steps.drop_last()), steps.last());
    }
    lemma_advanced_members(s, total(steps));
}

/// A note whose remaining time runs out in a tick, reaching exactly zero
/// or passing it, is gone at the end of that same tick; every note left is
/// still above the hit line.
pub proof fn lemma_due_notes_removed(s: Seq<NoteInstance>, elapsed_ms: nat)
    requires
        notes_wf(s),
    ensures
        forall|j: int, k: int|
            0 <= j < s.len() && s[j].remaining_ms <= elapsed_ms && 0 <= k < advanced(
                s,
                elapsed_ms,
            ).len() ==> #[trigger] advanced(s, elapsed_ms)[k].id != #[trigger] s[j].id,
        forall|k: int|
            0 <= k < advanced(s, elapsed_ms).len() ==> #[trigger] advanced(
                s,
                elapsed_ms,
            )[k].remaining_ms > 0,
{
    lemma_advanced_members(s, elapsed_ms);
    lemma_advanced_wf(s, elapsed_ms);
    let r = advanced(s, elapsed_ms);
    assert forall|j: int, k: int|
        0 <= j < s.len() && s[j].remaining_ms <= elapsed_ms && 0 <= k < r.len() implies #[trigger] r[k].id
        != #[trigger] s[j].id by {
        let i = choose|i: int|
            0 <= i < s.len() && s[i].id == r[k].id && s[i].lane == r[k].lane && s[i].remaining_ms
                > elapsed_ms && r[k].remaining_ms == s[i].remaining_ms - elapsed_ms;
        assert(i != j);
        if i < j {
            assert(s[i].id < s[j].id);
        } else {
            assert(s[j].id < s[i].id);
        }
    }
}

/// Positions are a function of the live notes alone: asking twice without
/// advancing in between gives the same answer.
pub proof fn lemma_positions_stable(f: NoteField, g: NoteField, scroll_speed: u32)
    requires
        f@ == g@,
    ensures
        positions_of(f@, scroll_speed) == positions_of(g@, scroll_speed),
{
}

/// The live notes of one play session.
pub struct NoteField {
    notes: Vec<NoteInstance>,
    chart_spawned: bool,
}

impl View for NoteField {
    type V = Seq<NoteInstance>;

    closed spec fn view(&self) -> Seq<NoteInstance> {
        self.notes@
    }
}

impl NoteField {
    /// Whether the chart's notes have been put on screen.
    pub closed spec fn is_spawned(&self) -> bool {
        self.chart_spawned
    }

    pub open spec fn wf(&self) -> bool {
        notes_wf(self@)
    }

    pub fn new() -> (r: NoteField)
        ensures
            r@.len() == 0,
            !r.is_spawned(),
            r.wf(),
    {
        NoteField { notes: Vec::new(), chart_spawned: false }
    }

    pub fn len(&self) -> (r: usize)
        ensures
            r == self@.len(),
    {
        self.notes.len()
    }

    pub fn has_spawned(&self) -> (r: bool)
        ensures
            r == self.is_spawned(),
    {
        self.chart_spawned
    }

    /// The live notes, in chart order.
    pub fn instances(&self) -> (r: Vec<NoteInstance>)
        ensures
            r@ == self@,
    {
        self.notes.clone()
    }

    /// Puts one note on screen for each tap of the chart, `lead_in_ms` above
    /// its chart time. Only the first call of a session does anything.
    pub fn spawn_all(&mut self, level: &Level, lead_in_ms: u32)
        requires
            old(self).wf(),
        ensures
            final(self).wf(),
            final(self).is_spawned(),
            !old(self).is_spawned() ==> final(self)@ == spawned(level.data@, lead_in_ms),
            old(self).is_spawned() ==> final(self)@ == old(self)@,
    {
        if self.chart_spawned {
            return ;
        }
        let mut out: Vec<NoteInstance> = Vec::new();
        let n = level.data.len();
        for i in 0..n
            invariant
                n == level.data@.len(),
                out@ == spawned(level.data@.take(i as int), lead_in_ms),
        {
            proof {
                assert(level.data@.take(i + 1).drop_last() =~= level.data@.take(i as int));
                assert(level.data@.take(i + 1).last() == level.data@[i as int]);
            }
            match level.data[i] {
                Note::S(lane, time_ms) => {
                    let remaining: u64 = time_ms as u64 + lead_in_ms as u64;
                    if remaining > 0 {
                        out.push(NoteInstance { id: i, lane, remaining_ms: remaining });
                    }
                },
                Note::L(_, _, _) => {},
            }
        }
        proof {
            assert(level.data@.take(n as int) =~= level.data@);
            lemma_spawned_wf(level.data@, lead_in_ms);
        }
        self.notes = out;
        self.chart_spawned = true;
    }

    /// Moves every note `elapsed_ms` closer to the hit line and removes the
    /// notes that reach it.
    pub fn advance(&mut self, elapsed_ms: u32)
        requires
            old(self).wf(),
        ensures
            final(self).wf(),
            final(self)@ == advanced(old(self)@, elapsed_ms as nat),
            final(self).is_spawned() == old(self).is_spawned(),
    {
        let mut out: Vec<NoteInstance> = Vec::new();
        let n = self.notes.len();
        for i in 0..n
            invariant
                n == self.notes@.len(),
                out@ == advanced(self.notes@.take(i as int), elapsed_ms as nat),
        {
            proof {
                assert(self.notes@.take(i + 1).drop_last() =~= self.notes@.take(i as int));
                assert(self.notes@.take(i + 1).last() == self.notes@[i as int]);
            }
            let note = self.notes[i];
            if note.remaining_ms > elapsed_ms as u64 {
                out.push(
                    NoteInstance {
                        id: note.id,
                        lane: note.lane,
                        remaining_ms: note.remaining_ms - elapsed_ms as u64,
                    },
                );
            }
        }
        proof {
            assert(self.notes@.take(n as int) =~= self.notes@);
            lemma_advanced_wf(self.notes@, elapsed_ms as nat);
        }
        self.notes = out;
    }

    /// Where each live note is drawn, computed afresh from the field.
    pub fn positions(&self, scroll_speed: u32) -> (r: Vec<NotePosition>)
        ensures
            r@ == positions_of(self@, scroll_speed),
    {
        let mut out: Vec<NotePosition> = Vec::new();
        let n = self.notes.len();
        for i in 0..n
            invariant
                n == self.notes@.len(),
                out@ == positions_of(self.notes@.take(i as int), scroll_speed),
        {
            let note = self.notes[i];
            let p = NotePosition {
                id: note.id,
                lane: note.lane,
                x: note.lane.get_pos(),
                y: time_to_pos(note.remaining_ms, scroll_speed),
            };
            out.push(p);
            proof {
                assert(out@ =~= positions_of(self.notes@.take(i + 1), scroll_speed));
            }
        }
        proof {
            assert(self.notes@.take(n as int) =~= self.notes@);
        }
        out
    }
}

} // verus!
