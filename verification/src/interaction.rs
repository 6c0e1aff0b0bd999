//! What the players of a round say about it, and when two such reports
//! agree.
//!
//! Nobody tells the server which weapons met. Each player reports only their
//! own side: whether they won, and with what they played. Two reports settle
//! a round when they tell the same story.

use vstd::prelude::*;

verus! {

/// One of the three weapons.
#[derive(Debug, Clone, Copy, PartialEq, Eq, Structural)]
pub enum Weapon {
    Rock,
    Scissors,
    Paper,
}

impl Weapon {
    /// The cycle: rock beats scissors, scissors beat paper, paper beats rock.
    pub open spec fn beats(self, other: Weapon) -> bool {
        ||| self == Weapon::Rock && other == Weapon::Scissors
        ||| self == Weapon::Scissors && other == Weapon::Paper
        ||| self == Weapon::Paper && other == Weapon::Rock
    }

    /// The number a weapon is stored as.
    pub open spec fn spec_code(self) -> i32 {
        match self {
            Weapon::Rock => 0,
            Weapon::Scissors => 1,
            Weapon::Paper => 2,
        }
    }

    /// The weapon this one wins against.
    pub fn prey(self) -> (other: Weapon)
        ensures
            self.beats(other),
    {
        match self {
            Weapon::Rock => Weapon::Scissors,
            Weapon::Scissors => Weapon::Paper,
            Weapon::Paper => Weapon::Rock,
        }
    }

    /// The weapon this one loses to.
    pub fn bane(self) -> (other: Weapon)
        ensures
            other.beats(self),
    {
        match self {
            Weapon::Rock => Weapon::Paper,
            Weapon::Scissors => Weapon::Rock,
            Weapon::Paper => Weapon::Scissors,
        }
    }

    /// The number a weapon is stored as: 0 for rock, 1 for scissors, 2 for
    /// paper.
    #[verifier::when_used_as_spec(spec_code)]
    pub fn code(self) -> (code: i32)
        ensures
            code == self.spec_code(),
    {
        match self {
            Weapon::Rock => 0,
            Weapon::Scissors => 1,
            Weapon::Paper => 2,
        }
    }
}

/// A player's own account of the round: "I won (or lost), and I played this".
#[derive(Debug, Clone, Copy, PartialEq, Eq, Structural)]
pub struct Interaction {
    pub won: bool,
    pub weapon: Weapon,
}

impl Interaction {
    /// Two reports agree when exactly one of them claims the win and the
    /// winner's weapon beats the loser's.
    pub open spec fn spec_compatible(&self, other: &Interaction) -> bool {
        if self.won {
            !other.won && self.weapon.beats(other.weapon)
        } else {
            other.won && other.weapon.beats(self.weapon)
        }
    }

    /// The one report of the other player that agrees with this one.
    pub fn complementary(&self) -> (other: Interaction)
        ensures
            other.won == !self.won,
            self.won ==> self.weapon.beats(other.weapon),
            !self.won ==> other.weapon.beats(self.weapon),
            self.spec_compatible(&other),
    {
        Interaction {
            won: !self.won,
            weapon: if self.won {
                self.weapon.prey()
            } else {
                self.weapon.bane()
            },
        }
    }

    /// Whether the two reports agree.
    #[verifier::when_used_as_spec(spec_compatible)]
    pub fn compatible(&self, other: &Interaction) -> (agree: bool)
        ensures
            agree == self.spec_compatible(other),
    {
        self.complementary() == *other
    }
}

/// How a submission ended the wait, as told to whoever is waiting.
#[derive(Debug, Clone, Copy, PartialEq, Eq, Structural)]
pub enum Outcome {
    /// The reports agreed; the result is recorded and the match is over.
    Concluded,
    /// The reports contradicted each other; the round starts afresh.
    Retry,
    /// A player walked away; the match is over and nothing is recorded.
    Aborted,
}

impl Outcome {
    /// The page that a player who waited for the outcome goes to.
    pub open spec fn destination_of(self) -> Seq<char> {
        match self {
            Outcome::Retry => "schnick"@,
            Outcome::Concluded | Outcome::Aborted => "home"@,
        }
    }

    /// The page that a player who waited for the outcome goes to: back to
    /// the round if it is to be retried, home if the match is over.
    pub fn destination(&self) -> (page: &'static str)
        ensures
            page@ == self.destination_of(),
    {
        match self {
            Outcome::Retry => "schnick",
            Outcome::Concluded | Outcome::Aborted => "home",
        }
    }
}

/// The record of a finished match, as it is persisted.
#[derive(Debug, Clone, Copy, PartialEq, Eq, Structural)]
pub struct SavedSchnick {
    pub winner: i32,
    pub loser: i32,
    /// The winner's weapon, by its code.
    pub weapon: i32,
}

impl SavedSchnick {
    /// Whether this is a record of `a` against `b`, whoever won.
    pub open spec fn between(&self, a: i32, b: i32) -> bool {
        (self.winner == a && self.loser == b) || (self.loser == a && self.winner == b)
    }
}

/// The record that two reports settle on, if they agree: the winner is
/// whoever claimed the win, and the weapon is the winner's.
pub open spec fn settled(
    first_id: i32,
    first: Interaction,
    second_id: i32,
    second: Interaction,
) -> Option<SavedSchnick> {
    if !first.spec_compatible(&second) {
        None
    } else if first.won {
        Some(SavedSchnick { winner: first_id, loser: second_id, weapon: first.weapon.spec_code() })
    } else {
        Some(SavedSchnick { winner: second_id, loser: first_id, weapon: second.weapon.spec_code() })
    }
}

/// The compatibility rule is the rock-paper-scissors cycle and nothing else:
/// a claimed win with rock agrees only with a conceded loss with scissors,
/// a win with paper only with a loss with rock, a win with scissors only
/// with a loss with paper; and it does not matter which report came first.
pub proof fn compatibility_is_the_cycle(a: Interaction, b: Interaction)
    ensures
        a.spec_compatible(&b) == b.spec_compatible(&a),
        a == (Interaction { won: true, weapon: Weapon::Rock }) ==> (a.spec_compatible(&b) <==> b
            == Interaction { won: false, weapon: Weapon::Scissors }),
        a == (Interaction { won: true, weapon: Weapon::Paper }) ==> (a.spec_compatible(&b) <==> b
            == Interaction { won: false, weapon: Weapon::Rock }),
        a == (Interaction { won: true, weapon: Weapon::Scissors }) ==> (a.spec_compatible(&b) <==> b
            == Interaction { won: false, weapon: Weapon::Paper }),
        a.won && b.won ==> !a.spec_compatible(&b),
        !a.won && !b.won ==> !a.spec_compatible(&b),
{
}

/// To every report exactly one report of the other player agrees.
pub proof fn compatible_report_is_unique(a: Interaction, b: Interaction, c: Interaction)
    requires
        a.spec_compatible(&b),
        a.spec_compatible(&c),
    ensures
        b == c,
{
}

} // verus!
