use vstd::prelude::*;

use level::{Level, Note};

pub mod level;

verus! {

/// Why a chart could not be loaded. Each of these ends the session.
#[non_exhaustive]
#[derive(Debug)]
pub enum LevelLoaderError {
    /// The chart file could not be read; the message says why.
    Io(String),
    /// The chart file is not a well-formed chart; the message says why.
    YamlError(String),
    /// The chart holds a long note, which this player does not support;
    /// the index is that of the first one.
    UnsupportedNoteKind(usize),
}

/// Whether the event at `i` is a long note.
pub open spec fn is_long(data: Seq<Note>, i: int) -> bool {
    data[i] is L
}

/// Accepts parsed charts for play.
pub struct LevelLoader;

impl LevelLoader {
    /// A parsed chart is accepted as it is when it holds taps only; the first
    /// long note otherwise rejects it.
    pub fn check(level: Level) -> (r: Result<Level, LevelLoaderError>)
        ensures
            r is Ok <==> forall|i: int| 0 <= i < level.data@.len() ==> !is_long(level.data@, i),
            r is Ok ==> r->Ok_0 == level,
            r is Err ==> exists|i: int|
                0 <= i < level.data@.len() && is_long(level.data@, i) && (forall|j: int|
                    0 <= j < i ==> !is_long(level.data@, j)) && r->Err_0
                    == LevelLoaderError::UnsupportedNoteKind(i as usize),
    {
        let n = level.data.len();
        for i in 0..n
            invariant
                n == level.data@.len(),
                forall|j: int| 0 <= j < i ==> !is_long(level.data@, j),
        {
            match level.data[i] {
                Note::L(_, _, _) => {
                    assert(is_long(level.data@, i as int));
                    return Err(LevelLoaderError::UnsupportedNoteKind(i));
                },
                Note::S(_, _) => {},
            }
        }
        Ok(level)
    }
}

} // verus!
