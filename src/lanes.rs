use vstd::prelude::*;

verus! {

/// Width of one lane (and of one note sprite), in thousandths of a pixel.
pub const KEY_WIDTH: i128 = 64000;

/// Height of a note sprite, in thousandths of a pixel.
pub const KEY_HEIGHT: i128 = 102000;

/// Vertical position of the hit line, in thousandths of a pixel.
pub const KEY_POS: i128 = -300000;

/// The four lanes a note can travel in, left to right.
#[derive(PartialEq, Eq, Structural, Clone, Copy, Debug, Hash)]
pub enum Actions {
    Key1,
    Key2,
    Key3,
    Key4,
}

/// The visual family of a lane's sprites: the outer lanes share one,
/// the inner lanes the other.
#[derive(PartialEq, Eq, Structural, Clone, Copy, Debug, Hash)]
pub enum Skin {
    A,
    B,
}

/// Position of a lane from the left, 0 to 3.
pub open spec fn lane_index(a: Actions) -> int {
    match a {
        Actions::Key1 => 0,
        Actions::Key2 => 1,
        Actions::Key3 => 2,
        Actions::Key4 => 3,
    }
}

/// Lanes sit one key width apart, symmetric around the centre line.
pub open spec fn lane_offset(a: Actions) -> int {
    (2 * lane_index(a) - 3) * KEY_WIDTH / 2
}

pub open spec fn lane_skin(a: Actions) -> Skin {
    if a == Actions::Key1 || a == Actions::Key4 {
        Skin::A
    } else {
        Skin::B
    }
}

impl Actions {
    /// Horizontal centre of the lane, in thousandths of a pixel.
    pub fn get_pos(&self) -> (r: i128)
        ensures
            r == lane_offset(*self),
    {
        match self {
            Actions::Key1 => -3 * KEY_WIDTH / 2,
            Actions::Key2 => -KEY_WIDTH / 2,
            Actions::Key3 => KEY_WIDTH / 2,
            Actions::Key4 => 3 * KEY_WIDTH / 2,
        }
    }

    pub fn index(&self) -> (r: usize)
        ensures
            r == lane_index(*self),
    {
        match self {
            Actions::Key1 => 0,
            Actions::Key2 => 1,
            Actions::Key3 => 2,
            Actions::Key4 => 3,
        }
    }

    pub fn skin(&self) -> (r: Skin)
        ensures
            r == lane_skin(*self),
    {
        match self {
            Actions::Key1 | Actions::Key4 => Skin::A,
            Actions::Key2 | Actions::Key3 => Skin::B,
        }
    }
}

impl Skin {
    /// Image file of a note drawn in this skin.
    pub fn note_texture(&self) -> (r: &'static str)
        ensures
            *self == Skin::A ==> r@ == "Note_A.png"@,
            *self == Skin::B ==> r@ == "Note_B.png"@,
    {
        match self {
            Skin::A => "Note_A.png",
            Skin::B => "Note_B.png",
        }
    }

    /// Image file of a key indicator drawn in this skin.
    pub fn key_texture(&self) -> (r: &'static str)
        ensures
            *self == Skin::A ==> r@ == "Key_A.png"@,
            *self == Skin::B ==> r@ == "Key_B.png"@,
    {
        match self {
            Skin::A => "Key_A.png",
            Skin::B => "Key_B.png",
        }
    }
}

} // verus!
