//! What the players send, and what they are answered.

use crate::board::Coords;
use crate::pasture::{Pasture, PastureView};
use vstd::prelude::*;

verus! {

/// Setting the rules up takes no parameters.
#[derive(Clone, Copy, Debug, PartialEq, Eq, Structural)]
pub struct InitMsg {}

/// The requests that change a game.
#[derive(Debug, PartialEq)]
pub enum HandleMsg {
    /// Start a game.
    NewGame { name: String },
    /// Join a game, with a pasture, under a name and a shared secret.
    Join { pasture: Pasture, credentials: Credentials },
    /// Shoot at the other player's pasture.
    Shoot { coords: Coords, credentials: Credentials },
    /// Confirm the shot that the other player made.
    Confirm { coords: Coords, credentials: Credentials },
}

/// What a request that changes a game holds, as mathematical values.
#[verifier::ext_equal]
pub enum HandleMsgView {
    NewGame { name: Seq<char> },
    Join { pasture: PastureView, credentials: CredentialsView },
    Shoot { coords: Coords, credentials: CredentialsView },
    Confirm { coords: Coords, credentials: CredentialsView },
}

impl View for HandleMsg {
    type V = HandleMsgView;

    open spec fn view(&self) -> HandleMsgView {
        match *self {
            HandleMsg::NewGame { name } => HandleMsgView::NewGame { name: name@ },
            HandleMsg::Join { pasture, credentials } => HandleMsgView::Join {
                pasture: pasture@,
                credentials: credentials@,
            },
            HandleMsg::Shoot { coords, credentials } => HandleMsgView::Shoot {
                coords,
                credentials: credentials@,
            },
            HandleMsg::Confirm { coords, credentials } => HandleMsgView::Confirm {
                coords,
                credentials: credentials@,
            },
        }
    }
}

impl Clone for HandleMsg {
    fn clone(&self) -> (copy: HandleMsg)
        ensures
            copy@ == self@,
    {
        match self {
            HandleMsg::NewGame { name } => HandleMsg::NewGame { name: name.clone() },
            HandleMsg::Join { pasture, credentials } => HandleMsg::Join {
                pasture: pasture.clone(),
                credentials: credentials.clone(),
            },
            HandleMsg::Shoot { coords, credentials } => HandleMsg::Shoot {
                coords: *coords,
                credentials: credentials.clone(),
            },
            HandleMsg::Confirm { coords, credentials } => HandleMsg::Confirm {
                coords: *coords,
                credentials: credentials.clone(),
            },
        }
    }
}

/// The requests that ask about a game.
#[derive(Debug, PartialEq)]
pub enum QueryMsg {
    /// The pasture of the player who asks.
    MyPasture { credentials: Credentials },
    /// The shots that the player who asks has made so far, and which of
    /// them have hit a sheep.
    MyShots { credentials: Credentials },
    /// The shot that waits to be confirmed.
    LastShot { credentials: Credentials },
}

/// What a request that asks about a game holds, as mathematical values.
#[verifier::ext_equal]
pub enum QueryMsgView {
    MyPasture { credentials: CredentialsView },
    MyShots { credentials: CredentialsView },
    LastShot { credentials: CredentialsView },
}

impl QueryMsgView {
    /// The credentials of the player who asks.
    pub open spec fn credentials(self) -> CredentialsView {
        match self {
            QueryMsgView::MyPasture { credentials } => credentials,
            QueryMsgView::MyShots { credentials } => credentials,
            QueryMsgView::LastShot { credentials } => credentials,
        }
    }
}

impl View for QueryMsg {
    type V = QueryMsgView;

    open spec fn view(&self) -> QueryMsgView {
        match *self {
            QueryMsg::MyPasture { credentials } => QueryMsgView::MyPasture {
                credentials: credentials@,
            },
            QueryMsg::MyShots { credentials } => QueryMsgView::MyShots {
                credentials: credentials@,
            },
            QueryMsg::LastShot { credentials } => QueryMsgView::LastShot {
                credentials: credentials@,
            },
        }
    }
}

impl Clone for QueryMsg {
    fn clone(&self) -> (copy: QueryMsg)
        ensures
            copy@ == self@,
    {
        match self {
            QueryMsg::MyPasture { credentials } => QueryMsg::MyPasture {
                credentials: credentials.clone(),
            },
            QueryMsg::MyShots { credentials } => QueryMsg::MyShots {
                credentials: credentials.clone(),
            },
            QueryMsg::LastShot { credentials } => QueryMsg::LastShot {
                credentials: credentials.clone(),
            },
        }
    }
}

/// What a request that asks about a game is answered with.
#[derive(Debug, PartialEq)]
pub enum QueryAnswer {
    /// The answer to `QueryMsg::MyPasture`.
    MyPasture(Pasture),
    /// The answer to `QueryMsg::MyShots`.
    MyShots(Shots),
    /// The answer to `QueryMsg::LastShot`.
    LastShot(Option<Coords>),
}

/// What an answer holds, as mathematical values.
#[verifier::ext_equal]
pub enum QueryAnswerView {
    MyPasture(PastureView),
    MyShots(ShotsView),
    LastShot(Option<Coords>),
}

impl View for QueryAnswer {
    type V = QueryAnswerView;

    open spec fn view(&self) -> QueryAnswerView {
        match *self {
            QueryAnswer::MyPasture(pasture) => QueryAnswerView::MyPasture(pasture@),
            QueryAnswer::MyShots(shots) => QueryAnswerView::MyShots(shots@),
            QueryAnswer::LastShot(pending) => QueryAnswerView::LastShot(pending),
        }
    }
}

impl Clone for QueryAnswer {
    fn clone(&self) -> (copy: QueryAnswer)
        ensures
            copy@ == self@,
    {
        match self {
            QueryAnswer::MyPasture(pasture) => QueryAnswer::MyPasture(pasture.clone()),
            QueryAnswer::MyShots(shots) => QueryAnswer::MyShots(shots.clone()),
            QueryAnswer::LastShot(pending) => QueryAnswer::LastShot(*pending),
        }
    }
}

/// The identity that a request claims: a game, and a player's name and
/// shared secret.
#[derive(Debug, PartialEq)]
pub struct Credentials {
    pub game: String,
    pub username: String,
    pub password: String,
}

/// What a set of credentials holds, as sequences of characters.
#[verifier::ext_equal]
pub struct CredentialsView {
    pub game: Seq<char>,
    pub username: Seq<char>,
    pub password: Seq<char>,
}

impl View for Credentials {
    type V = CredentialsView;

    open spec fn view(&self) -> CredentialsView {
        CredentialsView { game: self.game@, username: self.username@, password: self.password@ }
    }
}

impl Clone for Credentials {
    fn clone(&self) -> (copy: Credentials)
        ensures
            copy@ == self@,
    {
        Credentials {
            game: self.game.clone(),
            username: self.username.clone(),
            password: self.password.clone(),
        }
    }
}

/// A player's shots, told apart by what they did.
#[derive(Debug, PartialEq)]
pub struct Shots {
    /// The shots that hit a sheep, oldest first.
    pub hits: Vec<Coords>,
    /// The shots that hit none, oldest first.
    pub misses: Vec<Coords>,
}

/// The two lists of a `Shots` value, as mathematical sequences.
#[verifier::ext_equal]
pub struct ShotsView {
    pub hits: Seq<Coords>,
    pub misses: Seq<Coords>,
}

impl View for Shots {
    type V = ShotsView;

    open spec fn view(&self) -> ShotsView {
        ShotsView { hits: self.hits@, misses: self.misses@ }
    }
}

impl Clone for Shots {
    fn clone(&self) -> (copy: Shots)
        ensures
            copy@ == self@,
    {
        Shots { hits: self.hits.clone(), misses: self.misses.clone() }
    }
}

} // verus!
