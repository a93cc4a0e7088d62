//! The ASCII-art banner shown on the main menu, as data.
//!
//! Drawing belongs to the application layer; this module owns the art and
//! the width and height constants the layout is computed from, and
//! guarantees that the two halves of the banner really have the declared
//! dimensions.
use vstd::prelude::*;

verus! {

/// The "RatSnake" banner: the word "Rat", the word "Snake", and a little
/// snake chasing a fruit below them.
#[derive(Clone, Copy, Debug, PartialEq, Eq, Structural)]
pub struct Logo;

impl Logo {
    /// The width of each line of the "Rat" half of the banner.
    pub const RAT_WIDTH: u16 = 15;

    /// The width of each line of the "Snake" half of the banner.
    pub const SNAKE_WIDTH: u16 = 28;

    /// How many text lines each half of the banner has.
    pub const TEXT_HEIGHT: u16 = 5;

    /// The height of the full banner: the text, a blank line, and the
    /// snake diagram.
    pub const HEIGHT: u16 = 7;

    /// The width of the full banner: the two halves side by side.
    pub const WIDTH: u16 = 43;

    /// The lines of the "Rat" half of the banner.
    pub fn rat_lines() -> (v: Vec<&'static str>)
        ensures
            v@.len() == Self::TEXT_HEIGHT,
            forall|i: int| 0 <= i < v@.len() ==> (#[trigger] v@[i])@.len() == Self::RAT_WIDTH,
    {
        let mut v: Vec<&'static str> = Vec::new();
        v.push(" ____       _  ");
        v.push(r"|  _ \ __ _| |_");
        v.push("| |_) / _` | __");
        v.push("|  _ < (_| | |_");
        v.push(r"|_| \_\__,_|\__");
        proof {
            reveal_strlit(" ____       _  ");
            reveal_strlit(r"|  _ \ __ _| |_");
            reveal_strlit("| |_) / _` | __");
            reveal_strlit("|  _ < (_| | |_");
            reveal_strlit(r"|_| \_\__,_|\__");
            assert forall|i: int| 0 <= i < v@.len() implies (#[trigger] v@[i])@.len()
                == Self::RAT_WIDTH by {
                if i == 0 {
                    assert(v@[0]@.len() == 15);
                } else if i == 1 {
                    assert(v@[1]@.len() == 15);
                } else if i == 2 {
                    assert(v@[2]@.len() == 15);
                } else if i == 3 {
                    assert(v@[3]@.len() == 15);
                } else {
                    assert(v@[4]@.len() == 15);
                }
            }
        }
        v
    }

    /// The lines of the "Snake" half of the banner.
    pub fn snake_lines() -> (v: Vec<&'static str>)
        ensures
            v@.len() == Self::TEXT_HEIGHT,
            forall|i: int| 0 <= i < v@.len() ==> (#[trigger] v@[i])@.len() == Self::SNAKE_WIDTH,
    {
        let mut v: Vec<&'static str> = Vec::new();
        v.push(" ____              _        ");
        v.push("/ ___| _ __   __ _| | _____ ");
        v.push(r"\___ \| '_ \ / _` | |/ / _ \");
        v.push(" ___) | | | | (_| |   <  __/");
        v.push(r"|____/|_| |_|\__,_|_|\_\___|");
        proof {
            reveal_strlit(" ____              _        ");
            reveal_strlit("/ ___| _ __   __ _| | _____ ");
            reveal_strlit(r"\___ \| '_ \ / _` | |/ / _ \");
            reveal_strlit(" ___) | | | | (_| |   <  __/");
            reveal_strlit(r"|____/|_| |_|\__,_|_|\_\___|");
            assert forall|i: int| 0 <= i < v@.len() implies (#[trigger] v@[i])@.len()
                == Self::SNAKE_WIDTH by {
                if i == 0 {
                    assert(v@[0]@.len() == 28);
                } else if i == 1 {
                    assert(v@[1]@.len() == 28);
                } else if i == 2 {
                    assert(v@[2]@.len() == 28);
                } else if i == 3 {
                    assert(v@[3]@.len() == 28);
                } else {
                    assert(v@[4]@.len() == 28);
                }
            }
        }
        v
    }
}

} // verus!
