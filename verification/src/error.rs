//! The failures that the rules can answer a request with.

use crate::board::{Coords, Herd};
use vstd::prelude::*;

verus! {

/// The cells between which a herd stretches, both included.
#[derive(Clone, Copy, Debug, PartialEq, Eq, Structural)]
pub struct Span {
    /// Cell of the first sheep.
    pub start: Coords,
    /// Cell of the last sheep.
    pub end: Coords,
}

/// Why a pasture is turned down.
#[derive(Clone, Copy, Debug, PartialEq, Eq, Structural)]
pub enum ValidationError {
    /// A herd has no sheep, or does not fit inside the pasture.
    InvalidHerd { herd: Herd },
    /// The pasture holds `actual` herds of `length` sheep where it has to
    /// hold `expected`.
    WrongHerdCount { length: u8, expected: usize, actual: usize },
    /// The herds at the indices `first` and `second` stand on a common cell.
    OverlappingHerds { first: usize, first_span: Span, second: usize, second_span: Span },
}

/// Why a request is turned down. A failed request changes nothing.
#[derive(Debug, PartialEq, Eq)]
pub enum GameError {
    /// A game of that name is stored already.
    GameAlreadyExists { name: String },
    /// No game of that name is stored.
    GameNotFound { name: String },
    /// The game does not have its two players yet.
    GameNotReady,
    /// The game has its two players already.
    GameFull,
    /// The player who sits in the game already goes by that name.
    UsernameTaken { username: String },
    /// The pasture that a player brought along breaks the placement rules.
    InvalidPasture(ValidationError),
    /// The request is not for this player to make at this point.
    NotYourTurn,
    /// A shot is waiting to be confirmed, so no other can be fired.
    ShotAlreadyPending,
    /// No shot is waiting to be confirmed.
    NoShotPending,
    /// The credentials are those of neither player.
    AuthMismatch,
}

/// What a refusal holds, as mathematical values.
#[verifier::ext_equal]
pub enum GameErrorView {
    GameAlreadyExists { name: Seq<char> },
    GameNotFound { name: Seq<char> },
    GameNotReady,
    GameFull,
    UsernameTaken { username: Seq<char> },
    InvalidPasture(ValidationError),
    NotYourTurn,
    ShotAlreadyPending,
    NoShotPending,
    AuthMismatch,
}

impl View for GameError {
    type V = GameErrorView;

    open spec fn view(&self) -> GameErrorView {
        match *self {
            GameError::GameAlreadyExists { name } => GameErrorView::GameAlreadyExists {
                name: name@,
            },
            GameError::GameNotFound { name } => GameErrorView::GameNotFound { name: name@ },
            GameError::GameNotReady => GameErrorView::GameNotReady,
            GameError::GameFull => GameErrorView::GameFull,
            GameError::UsernameTaken { username } => GameErrorView::UsernameTaken {
                username: username@,
            },
            GameError::InvalidPasture(reason) => GameErrorView::InvalidPasture(reason),
            GameError::NotYourTurn => GameErrorView::NotYourTurn,
            GameError::ShotAlreadyPending => GameErrorView::ShotAlreadyPending,
            GameError::NoShotPending => GameErrorView::NoShotPending,
            GameError::AuthMismatch => GameErrorView::AuthMismatch,
        }
    }
}

} // verus!
