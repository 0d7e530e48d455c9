//! Rock-paper-scissors weapons and how they score against each other.

use vstd::prelude::*;
use crate::text::same_text;

verus! {

/// What a participant plays.
#[derive(Debug, Clone, Copy, PartialEq, Eq, Structural)]
pub enum Weapon {
    Rock,
    Paper,
    Scissors,
}

/// How an exchange ended for the participant on the left.
#[derive(Debug, Clone, Copy, PartialEq, Eq, Structural)]
pub enum Score {
    Win,
    Loss,
    Draw,
}

/// The answer to a button that names no weapon.
#[derive(Debug, Clone, Copy, PartialEq, Eq, Structural)]
pub struct InvalidWeapon;

impl InvalidWeapon {
    /// The complaint in words.
    pub fn message(&self) -> (text: &'static str)
        ensures
            text@ == "Invalid weapon choice"@,
    {
        "Invalid weapon choice"
    }
}

impl Weapon {
    /// The name of the weapon.
    pub open spec fn name(self) -> Seq<char> {
        match self {
            Weapon::Rock => "rock"@,
            Weapon::Paper => "paper"@,
            Weapon::Scissors => "scissors"@,
        }
    }

    /// The identifier of the button that picks the weapon.
    pub open spec fn button_id(self) -> Seq<char> {
        match self {
            Weapon::Rock => "rps-rock"@,
            Weapon::Paper => "rps-paper"@,
            Weapon::Scissors => "rps-scissors"@,
        }
    }

    /// The weapon that the button `id` picks, if it picks one.
    pub open spec fn of_button(id: Seq<char>) -> Option<Weapon> {
        if id == Weapon::Rock.button_id() {
            Some(Weapon::Rock)
        } else if id == Weapon::Paper.button_id() {
            Some(Weapon::Paper)
        } else if id == Weapon::Scissors.button_id() {
            Some(Weapon::Scissors)
        } else {
            None
        }
    }

    /// The weapon that `self` defeats.
    pub open spec fn beats(self) -> Weapon {
        match self {
            Weapon::Rock => Weapon::Scissors,
            Weapon::Paper => Weapon::Rock,
            Weapon::Scissors => Weapon::Paper,
        }
    }

    /// The score of `self` played against `other`.
    pub open spec fn score_against(self, other: Weapon) -> Score {
        if self == other {
            Score::Draw
        } else if self.beats() == other {
            Score::Win
        } else {
            Score::Loss
        }
    }

    /// Scores `self` against `other`, from the point of view of `self`.
    pub fn compare(self, other: Weapon) -> (score: Score)
        ensures
            score == self.score_against(other),
    {
        match (self, other) {
            (Weapon::Rock, Weapon::Paper)
            | (Weapon::Paper, Weapon::Scissors)
            | (Weapon::Scissors, Weapon::Rock) => Score::Loss,
            (Weapon::Paper, Weapon::Rock)
            | (Weapon::Scissors, Weapon::Paper)
            | (Weapon::Rock, Weapon::Scissors) => Score::Win,
            _ => Score::Draw,
        }
    }

    /// The name of the weapon.
    pub fn to_str(self) -> (name: &'static str)
        ensures
            name@ == self.name(),
    {
        match self {
            Weapon::Rock => "rock",
            Weapon::Paper => "paper",
            Weapon::Scissors => "scissors",
        }
    }

    /// The identifier of the button that picks the weapon.
    pub fn button(self) -> (id: &'static str)
        ensures
            id@ == self.button_id(),
    {
        match self {
            Weapon::Rock => "rps-rock",
            Weapon::Paper => "rps-paper",
            Weapon::Scissors => "rps-scissors",
        }
    }

    /// Reads the weapon off the identifier of a button.
    pub fn from_str(s: &str) -> (choice: Result<Weapon, InvalidWeapon>)
        ensures
            match choice {
                Ok(weapon) => Weapon::of_button(s@) == Some(weapon),
                Err(_) => Weapon::of_button(s@) is None,
            },
    {
        if same_text(s, "rps-rock") {
            Ok(Weapon::Rock)
        } else if same_text(s, "rps-paper") {
            Ok(Weapon::Paper)
        } else if same_text(s, "rps-scissors") {
            Ok(Weapon::Scissors)
        } else {
            Err(InvalidWeapon)
        }
    }
}

/// Each weapon beats one of the others and loses to the third, so that an
/// exchange is won by one side exactly when it is lost by the other, and
/// drawn exactly when both play the same.
pub proof fn lemma_scores_mirror(a: Weapon, b: Weapon)
    ensures
        a.score_against(b) is Win <==> b.score_against(a) is Loss,
        a.score_against(b) is Draw <==> a == b,
        a.score_against(b) is Draw <==> b.score_against(a) is Draw,
{
}

/// The buttons of different weapons differ, so a button picks the weapon
/// that it was made for.
pub proof fn lemma_button_picks_its_weapon(w: Weapon)
    ensures
        Weapon::of_button(w.button_id()) == Some(w),
{
    reveal_strlit("rps-rock");
    reveal_strlit("rps-paper");
    reveal_strlit("rps-scissors");
    assert("rps-rock"@.len() == 8);
    assert("rps-paper"@.len() == 9);
    assert("rps-scissors"@.len() == 12);
}

} // verus!
