use vstd::prelude::*;

verus! {

/// A player, as shown next to the guesses they made.
#[derive(Debug, PartialEq, Eq)]
pub struct User {
    pub id: String,
    pub profile_photo: String,
    pub username: String,
}

/// A chat channel that hosts a daily game, posted at `hour:minute` UTC
/// while it is active.
#[derive(Debug, PartialEq, Eq)]
pub struct Channel {
    pub id: String,
    pub team_id: String,
    pub hour: i32,
    pub minute: i32,
    pub active: bool,
}

/// A secret word whose similarity table the oracle consults.
#[derive(Debug, PartialEq, Eq)]
pub struct Word2Vec {
    pub word: String,
}

/// The order in which guesses are listed.
#[derive(Debug, Clone, Copy, PartialEq, Eq, Structural)]
pub enum GuessContextOrder {
    /// Closest first, credited to the user who first guessed the word.
    Rank,
    /// Most recently submitted first, credited to the latest submitter.
    GuessUpdated,
}

} // verus!
