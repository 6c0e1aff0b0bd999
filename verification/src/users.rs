//! A user's figures and settings.

use crate::error::Error;
use crate::interaction::Weapon;
use vstd::prelude::*;
use vstd::utf8::encode_utf8;

verus! {

/// How many digits a telephone extension has.
pub const DECT_DIGITS: usize = 4;

/// Whether `bytes` spell a telephone extension: four decimal digits.
pub open spec fn is_dect(bytes: Seq<u8>) -> bool {
    &&& bytes.len() == DECT_DIGITS
    &&& forall|i: int| 0 <= i < bytes.len() ==> 0x30 <= #[trigger] bytes[i] <= 0x39
}

/// Whether `text` spells a telephone extension: in UTF-8 it is four bytes
/// long, and each of them is a decimal digit.
pub open spec fn spells_dect(text: Seq<char>) -> bool {
    is_dect(encode_utf8(text))
}

/// Whether `text` is a telephone extension: four decimal digits.
pub fn valid_dect(text: &str) -> (valid: bool)
    ensures
        valid == spells_dect(text@),
{
    let bytes = text.as_bytes();
    if bytes.len() != DECT_DIGITS {
        return false;
    }
    let mut i: usize = 0;
    while i < DECT_DIGITS
        invariant
            i <= DECT_DIGITS,
            bytes@ == encode_utf8(text@),
            bytes@.len() == DECT_DIGITS,
            forall|k: int| 0 <= k < i ==> 0x30 <= #[trigger] bytes@[k] <= 0x39,
        decreases DECT_DIGITS - i,
    {
        if bytes[i] < 0x30 || bytes[i] > 0x39 {
            assert(!(0x30 <= bytes@[i as int] <= 0x39));
            return false;
        }
        i += 1;
    }
    true
}

/// The telephone extension to store for what a user submitted: none where
/// they submitted nothing or an empty text, the text where it is four
/// decimal digits. Anything else is turned down.
pub fn checked_dect(submitted: Option<String>) -> (dect: Result<Option<String>, Error>)
    ensures
        match submitted {
            None => dect == Ok::<Option<String>, Error>(None),
            Some(text) => if text@.len() == 0 {
                dect == Ok::<Option<String>, Error>(None)
            } else if spells_dect(text@) {
                dect == Ok::<Option<String>, Error>(Some(text))
            } else {
                dect == Err::<Option<String>, Error>(Error::InvalidSettings)
            },
        },
{
    match submitted {
        None => Ok(None),
        Some(text) => {
            if text.as_str().is_empty() {
                Ok(None)
            } else if valid_dect(text.as_str()) {
                Ok(Some(text))
            } else {
                Err(Error::InvalidSettings)
            }
        },
    }
}

/// The figures kept for a user.
#[derive(Debug, Clone, Copy, PartialEq, Eq, Structural)]
pub struct Stats {
    pub id: i32,
    pub num_schnicks: i32,
    pub num_won: i32,
    pub longest_winning_streak: i32,
    pub current_winning_streak: i32,
    pub longest_losing_streak: i32,
    pub current_losing_streak: i32,
    pub num_children: i32,
    pub num_rock: i32,
    pub num_paper: i32,
    pub num_scissors: i32,
}

/// The place of a weapon in the usual order of listing them: rock, paper,
/// scissors.
pub open spec fn listing_rank(weapon: Weapon) -> int {
    match weapon {
        Weapon::Rock => 0,
        Weapon::Paper => 1,
        Weapon::Scissors => 2,
    }
}

impl Stats {
    /// How often the user played `weapon`.
    pub open spec fn played(self, weapon: Weapon) -> i32 {
        match weapon {
            Weapon::Rock => self.num_rock,
            Weapon::Paper => self.num_paper,
            Weapon::Scissors => self.num_scissors,
        }
    }

    /// Whether the user played no weapon more often than `weapon`.
    pub open spec fn is_favorite(self, weapon: Weapon) -> bool {
        &&& self.num_rock <= self.played(weapon)
        &&& self.num_paper <= self.played(weapon)
        &&& self.num_scissors <= self.played(weapon)
    }

    /// Whether paper and scissors, and they alone, are the user's favorites.
    pub open spec fn favors_paper_and_scissors(self) -> bool {
        self.num_rock < self.num_paper && self.num_paper == self.num_scissors
    }

    /// The weapons the user played most often: one, or several that tie.
    ///
    /// They are listed in the order rock, paper, scissors, with one
    /// exception: where paper and scissors alone tie, scissors come first.
    pub fn favorites(&self) -> (list: Vec<Weapon>)
        ensures
            list@.contains(Weapon::Rock) <==> self.is_favorite(Weapon::Rock),
            list@.contains(Weapon::Paper) <==> self.is_favorite(Weapon::Paper),
            list@.contains(Weapon::Scissors) <==> self.is_favorite(Weapon::Scissors),
            list@.no_duplicates(),
            self.favors_paper_and_scissors() ==> list@ == seq![Weapon::Scissors, Weapon::Paper],
            !self.favors_paper_and_scissors() ==> forall|i: int, j: int|
                0 <= i < j < list@.len() ==> listing_rank(#[trigger] list@[i]) < listing_rank(
                    #[trigger] list@[j],
                ),
    {
        let list = if self.num_rock < self.num_paper {
            if self.num_paper < self.num_scissors {
                vec![Weapon::Scissors]
            } else if self.num_paper == self.num_scissors {
                vec![Weapon::Scissors, Weapon::Paper]
            } else {
                vec![Weapon::Paper]
            }
        } else if self.num_rock == self.num_paper {
            if self.num_paper < self.num_scissors {
                vec![Weapon::Scissors]
            } else if self.num_paper == self.num_scissors {
                vec![Weapon::Rock, Weapon::Paper, Weapon::Scissors]
            } else {
                vec![Weapon::Rock, Weapon::Paper]
            }
        } else {
            if self.num_rock < self.num_scissors {
                vec![Weapon::Scissors]
            } else if self.num_rock == self.num_scissors {
                vec![Weapon::Rock, Weapon::Scissors]
            } else {
                vec![Weapon::Rock]
            }
        };
        proof {
            assert forall|weapon: Weapon| self.is_favorite(weapon) implies list@.contains(weapon) by {
                if list@[0] == weapon {
                } else if list@.len() > 1 && list@[1] == weapon {
                } else {
                    assert(list@.len() > 2 && list@[2] == weapon);
                }
            }
        }
        list
    }
}

} // verus!
