use vstd::prelude::*;

use crate::level_loader::level::Level;
use crate::notes::{advanced, notes_wf, spawned, NoteField, NoteInstance};

verus! {

/// Time between a chart being loaded and its audio starting, in milliseconds.
pub const START_DELAY_MS: u32 = 2000;

/// Scroll speed of the notes, in pixels per second.
pub const SCROLL_SPEED: u32 = 800;

/// Where a play session stands.
#[derive(PartialEq, Eq, Structural, Clone, Copy, Debug)]
pub enum SessionState {
    /// No chart yet: each tick asks the loader again.
    AwaitingChart,
    /// The chart's notes are on screen; the countdown has not begun.
    NotesSpawned,
    /// Milliseconds left before the audio starts.
    AudioCountdown(u32),
    /// The audio has been started; nothing changes state any more.
    Playing,
}

/// The state after one tick of `elapsed_ms`. A chart that arrives puts its
/// notes on screen, passing through `NotesSpawned` within the tick, and goes
/// straight on to the countdown, so that the notes and the countdown run on
/// the same clock from the next tick on.
pub open spec fn next_state(
    s: SessionState,
    elapsed_ms: u32,
    chart_ready: bool,
    lead_in_ms: u32,
) -> SessionState {
    match s {
        SessionState::AwaitingChart => {
            if chart_ready {
                SessionState::AudioCountdown(lead_in_ms)
            } else {
                SessionState::AwaitingChart
            }
        },
        SessionState::NotesSpawned => SessionState::AudioCountdown(lead_in_ms),
        SessionState::AudioCountdown(left) => {
            if left <= elapsed_ms {
                SessionState::Playing
            } else {
                SessionState::AudioCountdown((left - elapsed_ms) as u32)
            }
        },
        SessionState::Playing => SessionState::Playing,
    }
}

/// Whether a tick of `elapsed_ms` from state `s` starts the audio.
pub open spec fn starts_audio(s: SessionState, elapsed_ms: u32) -> bool {
    s matches SessionState::AudioCountdown(left) && left <= elapsed_ms
}

/// The audio starts at most once: the tick that starts it leaves the session
/// playing, and no tick from there starts it again.
pub proof fn lemma_audio_starts_once(
    s: SessionState,
    elapsed_ms: u32,
    chart_ready: bool,
    lead_in_ms: u32,
    later_ms: u32,
)
    requires
        starts_audio(s, elapsed_ms),
    ensures
        next_state(s, elapsed_ms, chart_ready, lead_in_ms) == SessionState::Playing,
        !starts_audio(next_state(s, elapsed_ms, chart_ready, lead_in_ms), later_ms),
        next_state(SessionState::Playing, later_ms, chart_ready, lead_in_ms)
            == SessionState::Playing,
{
}

/// What a play session is: its state, its live notes, whether the chart
/// was spawned, the audio file of the chart, and the lead-in.
pub ghost struct SessionView {
    pub state: SessionState,
    pub notes: Seq<NoteInstance>,
    pub spawned: bool,
    pub song: Option<Seq<char>>,
    pub lead_in_ms: u32,
}

/// One play session: the loader, countdown and playback state machine
/// together with the notes it drives.
pub struct PlaySession {
    state: SessionState,
    notes: NoteField,
    songname: Option<String>,
    lead_in_ms: u32,
}

impl View for PlaySession {
    type V = SessionView;

    closed spec fn view(&self) -> SessionView {
        SessionView {
            state: self.state,
            notes: self.notes@,
            spawned: self.notes.is_spawned(),
            song: match self.songname {
                Some(s) => Some(s@),
                None => None,
            },
            lead_in_ms: self.lead_in_ms,
        }
    }
}

impl PlaySession {
    /// The notes are spawned exactly when a chart has arrived, and its
    /// audio file is known from then on.
    pub open spec fn wf(&self) -> bool {
        &&& notes_wf(self@.notes)
        &&& (self@.state == SessionState::AwaitingChart) == (self@.song is None)
        &&& (self@.state == SessionState::AwaitingChart) == !self@.spawned
        &&& self@.state == SessionState::AwaitingChart ==> self@.notes.len() == 0
    }

    /// A session waiting for its chart, with notes spawned `lead_in_ms`
    /// ahead of their chart time and audio started after as long.
    pub fn new(lead_in_ms: u32) -> (r: PlaySession)
        ensures
            r.wf(),
            r@.state == SessionState::AwaitingChart,
            r@.notes.len() == 0,
            r@.lead_in_ms == lead_in_ms,
    {
        PlaySession {
            state: SessionState::AwaitingChart,
            notes: NoteField::new(),
            songname: None,
            lead_in_ms,
        }
    }

    pub fn state(&self) -> (r: SessionState)
        ensures
            r == self@.state,
    {
        self.state
    }

    pub fn notes(&self) -> (r: &NoteField)
        ensures
            r@ == self@.notes,
            r.wf() == notes_wf(self@.notes),
    {
        &self.notes
    }

    /// The audio file of the chart, once one has arrived.
    pub fn songname(&self) -> (r: Option<String>)
        ensures
            r is Some == self@.song is Some,
            r is Some ==> r.unwrap()@ == self@.song.unwrap(),
    {
        match &self.songname {
            Some(s) => Some(s.clone()),
            None => None,
        }
    }

    /// One tick of `elapsed_ms`: the live notes advance, then the state
    /// machine steps. `loaded` is what the loader has this tick; it is read
    /// only while the session waits for its chart. Returns the audio file to
    /// start, on the one tick at which the countdown runs out.
    pub fn tick(&mut self, elapsed_ms: u32, loaded: Option<&Level>) -> (r: Option<String>)
        requires
            old(self).wf(),
        ensures
            final(self).wf(),
            final(self)@.lead_in_ms == old(self)@.lead_in_ms,
            final(self)@.state == next_state(
                old(self)@.state,
                elapsed_ms,
                loaded is Some,
                old(self)@.lead_in_ms,
            ),
            old(self)@.state == SessionState::AwaitingChart && loaded is Some
                ==> final(self)@.notes == spawned(loaded.unwrap().data@, old(self)@.lead_in_ms)
                && final(self)@.song == Some(loaded.unwrap().filename@),
            !(old(self)@.state == SessionState::AwaitingChart && loaded is Some)
                ==> final(self)@.notes == advanced(old(self)@.notes, elapsed_ms as nat)
                && final(self)@.song == old(self)@.song,
            r is Some == starts_audio(old(self)@.state, elapsed_ms),
            r is Some ==> r.unwrap()@ == old(self)@.song.unwrap(),
    {
        self.notes.advance(elapsed_ms);
        match self.state {
            SessionState::AwaitingChart => {
                match loaded {
                    Some(level) => {
                        self.notes.spawn_all(level, self.lead_in_ms);
                        self.songname = Some(level.filename.clone());
                        self.state = SessionState::AudioCountdown(self.lead_in_ms);
                    },
                    None => {},
                }
                None
            },
            SessionState::NotesSpawned => {
                self.state = SessionState::AudioCountdown(self.lead_in_ms);
                None
            },
            SessionState::AudioCountdown(left) => {
                if left <= elapsed_ms {
                    self.state = SessionState::Playing;
                    match &self.songname {
                        Some(s) => Some(s.clone()),
                        None => None,
                    }
                } else {
                    self.state = SessionState::AudioCountdown(left - elapsed_ms);
                    None
                }
            },
            SessionState::Playing => None,
        }
    }
}

} // verus!
