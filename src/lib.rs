use vstd::prelude::*;

pub mod input;
pub mod lanes;
pub mod level_loader;
pub mod notes;
pub mod scroll;
pub mod session;

pub use lanes::Actions;
pub use level_loader::level::{Level, Note};
pub use level_loader::{LevelLoader, LevelLoaderError};

verus! {

} // verus!
