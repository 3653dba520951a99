//! The requests to a game, each as a step from what is stored under the
//! game's name to what has to be stored next, or to an answer.
//!
//! The caller looks the game up, hands over what the store holds, and
//! stores the game that a successful request returns. A request that fails
//! has changed nothing, so there is nothing to store.

use crate::board::Coords;
use crate::error::GameError;
use crate::msg::{
    Credentials, CredentialsView, HandleMsg, HandleMsgView, InitMsg, QueryAnswer, QueryAnswerView,
    QueryMsg, QueryMsgView, Shots,
};
use crate::pasture::{lemma_verdict_is_unique, lemma_verdict_of_accepted, Pasture, PastureView};
use crate::state::{FullGame, Game, GameState, GameStateView, GameView, Player, PlayerView};
use vstd::prelude::*;

verus! {

/// What the store holds under a name, as a mathematical value.
pub open spec fn stored_view(stored: Option<GameState>) -> Option<GameStateView> {
    match stored {
        Some(state) => Some(state@),
        None => None,
    }
}

/// The player that `credentials` and `pasture` ask to admit.
pub open spec fn applicant(credentials: CredentialsView, pasture: PastureView) -> PlayerView {
    PlayerView { username: credentials.username, password: credentials.password, pasture }
}

/// Whether `outcome` answers the request to start a game called `name`: the
/// game is new and empty, unless the store holds one of that name already.
pub open spec fn new_game_outcome(
    stored: Option<GameStateView>,
    name: Seq<char>,
    outcome: Result<Game, GameError>,
) -> bool {
    match outcome {
        Ok(game) => stored is None && game@ == (GameView { name, state: GameStateView::empty() }),
        Err(GameError::GameAlreadyExists { name: taken }) => stored is Some && taken@ == name,
        Err(_) => false,
    }
}

/// Whether `outcome` answers the request to join the game that
/// `credentials` name, with `pasture`. The game has to be there; the rest
/// is decided by `GameView::admission`.
pub open spec fn join_outcome(
    stored: Option<GameStateView>,
    credentials: CredentialsView,
    pasture: PastureView,
    outcome: Result<Game, GameError>,
) -> bool {
    match outcome {
        Ok(game) => stored matches Some(state) && (GameView {
            name: credentials.game,
            state,
        }).admission(applicant(credentials, pasture), game@, Ok(())),
        Err(GameError::GameNotFound { name }) => stored is None && name@ == credentials.game,
        Err(refusal) => stored matches Some(state) && (GameView {
            name: credentials.game,
            state,
        }).admission(
            applicant(credentials, pasture),
            GameView { name: credentials.game, state },
            Err(refusal),
        ),
    }
}

/// Whether `outcome` answers the request to shoot at `coords`. The game has
/// to be there and to have both players; it has to be the turn of the
/// player who asks; and no shot may be pending. The shot is then pending.
pub open spec fn shoot_outcome(
    stored: Option<GameStateView>,
    credentials: CredentialsView,
    coords: Coords,
    outcome: Result<Game, GameError>,
) -> bool {
    match outcome {
        Ok(game) => {
            &&& stored matches Some(state)
            &&& state.is_full()
            &&& state.current().matches(credentials)
            &&& state.next_shot is None
            &&& game@ == (GameView { name: credentials.game, state: state.shot_fired(coords) })
        },
        Err(GameError::GameNotFound { name }) => stored is None && name@ == credentials.game,
        Err(GameError::GameNotReady) => stored matches Some(state) && !state.is_full(),
        Err(GameError::NotYourTurn) => {
            &&& stored matches Some(state)
            &&& state.is_full()
            &&& !state.current().matches(credentials)
        },
        Err(GameError::ShotAlreadyPending) => {
            &&& stored matches Some(state)
            &&& state.is_full()
            &&& state.current().matches(credentials)
            &&& state.next_shot is Some
        },
        Err(_) => false,
    }
}

/// Whether `outcome` answers the request to confirm a shot as one at
/// `coords`. The game has to be there and to have both players; the player
/// who asks has to be the one who was shot at, which is the one whose turn
/// it is not; and a shot has to be pending. The shot then goes on the
/// shooter's record, and the turn passes.
pub open spec fn confirm_outcome(
    stored: Option<GameStateView>,
    credentials: CredentialsView,
    coords: Coords,
    outcome: Result<Game, GameError>,
) -> bool {
    match outcome {
        Ok(game) => {
            &&& stored matches Some(state)
            &&& state.is_full()
            &&& state.waiting().matches(credentials)
            &&& state.next_shot is Some
            &&& game@ == (GameView {
                name: credentials.game,
                state: state.shot_recorded(coords).turn_passed(),
            })
        },
        Err(GameError::GameNotFound { name }) => stored is None && name@ == credentials.game,
        Err(GameError::GameNotReady) => stored matches Some(state) && !state.is_full(),
        Err(GameError::NotYourTurn) => {
            &&& stored matches Some(state)
            &&& state.is_full()
            &&& !state.waiting().matches(credentials)
        },
        Err(GameError::NoShotPending) => {
            &&& stored matches Some(state)
            &&& state.is_full()
            &&& state.waiting().matches(credentials)
            &&& state.next_shot is None
        },
        Err(_) => false,
    }
}

/// Whether `outcome` answers `msg`, given what the store holds under the
/// name of the game that `msg` is about.
pub open spec fn handle_outcome(
    stored: Option<GameStateView>,
    msg: HandleMsgView,
    outcome: Result<Game, GameError>,
) -> bool {
    match msg {
        HandleMsgView::NewGame { name } => new_game_outcome(stored, name, outcome),
        HandleMsgView::Join { pasture, credentials } => join_outcome(
            stored,
            credentials,
            pasture,
            outcome,
        ),
        HandleMsgView::Shoot { coords, credentials } => shoot_outcome(
            stored,
            credentials,
            coords,
            outcome,
        ),
        HandleMsgView::Confirm { coords, credentials } => confirm_outcome(
            stored,
            credentials,
            coords,
            outcome,
        ),
    }
}

/// Whether `answer` is what the player that `credentials` describe gets to
/// know under the request `wanted`, given what the store holds. The game
/// has to be there and to have both players, and the credentials have to be
/// those of one of them. That player is shown the own pasture, the own
/// shots and what they did, or the shot that waits to be confirmed.
pub open spec fn query_outcome(
    stored: Option<GameStateView>,
    wanted: QueryMsgView,
    answer: Result<QueryAnswer, GameError>,
) -> bool {
    let credentials = wanted.credentials();
    match answer {
        Ok(shown) => {
            &&& stored matches Some(state)
            &&& state.is_full()
            &&& state.is_player(credentials)
            &&& match (wanted, shown@) {
                (QueryMsgView::MyPasture { .. }, QueryAnswerView::MyPasture(pasture)) => pasture
                    == state.pasture_for(credentials),
                (QueryMsgView::MyShots { .. }, QueryAnswerView::MyShots(shots)) => shots
                    == state.shots_for(credentials),
                (QueryMsgView::LastShot { .. }, QueryAnswerView::LastShot(pending)) => pending
                    == state.next_shot,
                _ => false,
            }
        },
        Err(GameError::GameNotFound { name }) => stored is None && name@ == credentials.game,
        Err(GameError::GameNotReady) => stored matches Some(state) && !state.is_full(),
        Err(GameError::AuthMismatch) => {
            &&& stored matches Some(state)
            &&& state.is_full()
            &&& !state.is_player(credentials)
        },
        Err(_) => false,
    }
}

/// Whether two outcomes of a request that changes a game are the same: the
/// same game, or the same refusal.
pub open spec fn same_outcome(one: Result<Game, GameError>, other: Result<Game, GameError>) -> bool {
    match (one, other) {
        (Ok(game), Ok(again)) => game@ == again@,
        (Err(refusal), Err(again)) => refusal@ == again@,
        _ => false,
    }
}

/// Whether two answers to a request that asks about a game are the same.
pub open spec fn same_answer(
    one: Result<QueryAnswer, GameError>,
    other: Result<QueryAnswer, GameError>,
) -> bool {
    match (one, other) {
        (Ok(shown), Ok(again)) => shown@ == again@,
        (Err(refusal), Err(again)) => refusal@ == again@,
        _ => false,
    }
}

/// Sets the rules up, which takes nothing and cannot fail.
pub fn init(_msg: InitMsg) -> (ready: Result<(), GameError>)
    ensures
        ready is Ok,
{
    Ok(())
}

/// Starts a game called `name`, unless the store holds one already.
pub fn try_new_game(stored: Option<GameState>, name: String) -> (outcome: Result<Game, GameError>)
    ensures
        new_game_outcome(stored_view(stored), name@, outcome),
        outcome matches Ok(game) ==> game@.state.wf(),
{
    match Game::may_load(stored, name.clone()) {
        Some(_) => Err(GameError::GameAlreadyExists { name }),
        None => Ok(Game::new(name)),
    }
}

/// Admits the player that `credentials` describe to the game that they
/// name, with `pasture`.
pub fn try_join(stored: Option<GameState>, credentials: Credentials, pasture: Pasture) -> (outcome:
    Result<Game, GameError>)
    ensures
        join_outcome(stored_view(stored), credentials@, pasture@, outcome),
        outcome matches Ok(game) ==> game@.state.wf(),
{
    let Credentials { game, username, password } = credentials;
    let mut game = match Game::load(stored, game) {
        Ok(game) => game,
        Err(missing) => {
            return Err(missing);
        },
    };
    let player = Player::new(username, password, pasture);
    match game.add_player(player) {
        Ok(()) => Ok(game),
        Err(refusal) => Err(refusal),
    }
}

/// The game called `name` as one that can be played, from what the store
/// holds under that name. The game has to be there and to have both players.
fn full_game(stored: Option<GameState>, name: String) -> (loaded: Result<FullGame, GameError>)
    ensures
        match loaded {
            Ok(game) => {
                &&& stored matches Some(state)
                &&& state@.playable()
                &&& game@ == (GameView { name: name@, state: state@ })
            },
            Err(GameError::GameNotFound { name: missing }) => stored is None && missing@ == name@,
            Err(GameError::GameNotReady) => stored matches Some(state) && !state@.is_full(),
            Err(_) => false,
        },
{
    match Game::load(stored, name) {
        Ok(game) => game.full(),
        Err(missing) => Err(missing),
    }
}

/// Fires a shot at `coords` for the player that `credentials` describe.
pub fn try_shoot(stored: Option<GameState>, credentials: Credentials, coords: Coords) -> (outcome:
    Result<Game, GameError>)
    ensures
        shoot_outcome(stored_view(stored), credentials@, coords, outcome),
        outcome matches Ok(game) ==> game@.state.wf(),
{
    let mut game = match full_game(stored, credentials.game.clone()) {
        Ok(game) => game,
        Err(refusal) => {
            return Err(refusal);
        },
    };
    if !game.player().matches_credentials(&credentials) {
        return Err(GameError::NotYourTurn);
    }
    match game.shoot(coords) {
        Ok(()) => Ok(game.into_game()),
        Err(pending) => Err(pending),
    }
}

/// Confirms the pending shot as one at `coords`, for the player that
/// `credentials` describe, and passes the turn.
pub fn try_confirm(stored: Option<GameState>, credentials: Credentials, coords: Coords) -> (outcome:
    Result<Game, GameError>)
    ensures
        confirm_outcome(stored_view(stored), credentials@, coords, outcome),
        outcome matches Ok(game) ==> game@.state.wf(),
{
    let mut game = match full_game(stored, credentials.game.clone()) {
        Ok(game) => game,
        Err(refusal) => {
            return Err(refusal);
        },
    };
    if !game.opponent().matches_credentials(&credentials) {
        return Err(GameError::NotYourTurn);
    }
    match game.confirm_shot(coords) {
        Ok(()) => {},
        Err(nothing) => {
            return Err(nothing);
        },
    }
    game.end_turn();
    Ok(game.into_game())
}

/// Carries out a request that changes a game. `stored` is what the store
/// holds under the name of the game that `msg` is about; the game that comes
/// back is the one to store.
pub fn handle(stored: Option<GameState>, msg: HandleMsg) -> (outcome: Result<Game, GameError>)
    ensures
        handle_outcome(stored_view(stored), msg@, outcome),
        outcome matches Ok(game) ==> game@.state.wf(),
{
    match msg {
        HandleMsg::NewGame { name } => try_new_game(stored, name),
        HandleMsg::Join { pasture, credentials } => try_join(stored, credentials, pasture),
        HandleMsg::Shoot { coords, credentials } => try_shoot(stored, credentials, coords),
        HandleMsg::Confirm { coords, credentials } => try_confirm(stored, credentials, coords),
    }
}

/// The pasture of the player that `credentials` describe.
pub fn try_get_my_pasture(stored: Option<GameState>, credentials: Credentials) -> (answer: Result<
    Pasture,
    GameError,
>)
    ensures
        query_outcome(
            stored_view(stored),
            QueryMsgView::MyPasture { credentials: credentials@ },
            match answer {
                Ok(pasture) => Ok(QueryAnswer::MyPasture(pasture)),
                Err(refusal) => Err(refusal),
            },
        ),
{
    let game = match full_game(stored, credentials.game.clone()) {
        Ok(game) => game,
        Err(refusal) => {
            return Err(refusal);
        },
    };
    let is_current = game.player().matches_credentials(&credentials);
    if !is_current && !game.opponent().matches_credentials(&credentials) {
        return Err(GameError::AuthMismatch);
    }
    let (current, waiting) = game.into_players();
    let (_, _, pasture) = if is_current {
        current.into_parts()
    } else {
        waiting.into_parts()
    };
    Ok(pasture)
}

/// The shots that the player that `credentials` describe has made, told
/// apart by whether they hit a sheep of the other player.
pub fn try_get_my_shots(stored: Option<GameState>, credentials: Credentials) -> (answer: Result<
    Shots,
    GameError,
>)
    ensures
        query_outcome(
            stored_view(stored),
            QueryMsgView::MyShots { credentials: credentials@ },
            match answer {
                Ok(shots) => Ok(QueryAnswer::MyShots(shots)),
                Err(refusal) => Err(refusal),
            },
        ),
{
    let game = match full_game(stored, credentials.game.clone()) {
        Ok(game) => game,
        Err(refusal) => {
            return Err(refusal);
        },
    };
    if game.player().matches_credentials(&credentials) {
        Ok(game.get_player_shots())
    } else if game.opponent().matches_credentials(&credentials) {
        Ok(game.get_opponent_shots())
    } else {
        Err(GameError::AuthMismatch)
    }
}

/// The shot that waits to be confirmed, for either player of the game.
pub fn try_get_last_shot(stored: Option<GameState>, credentials: Credentials) -> (answer: Result<
    Option<Coords>,
    GameError,
>)
    ensures
        query_outcome(
            stored_view(stored),
            QueryMsgView::LastShot { credentials: credentials@ },
            match answer {
                Ok(pending) => Ok(QueryAnswer::LastShot(pending)),
                Err(refusal) => Err(refusal),
            },
        ),
{
    let game = match full_game(stored, credentials.game.clone()) {
        Ok(game) => game,
        Err(refusal) => {
            return Err(refusal);
        },
    };
    if game.player().matches_credentials(&credentials) || game.opponent().matches_credentials(
        &credentials,
    ) {
        Ok(game.next_shot())
    } else {
        Err(GameError::AuthMismatch)
    }
}

/// Answers a request that asks about a game. `stored` is what the store
/// holds under the name of the game that `msg` is about.
pub fn query(stored: Option<GameState>, msg: QueryMsg) -> (answer: Result<QueryAnswer, GameError>)
    ensures
        query_outcome(stored_view(stored), msg@, answer),
{
    match msg {
        QueryMsg::MyPasture { credentials } => match try_get_my_pasture(stored, credentials) {
            Ok(pasture) => Ok(QueryAnswer::MyPasture(pasture)),
            Err(refusal) => Err(refusal),
        },
        QueryMsg::MyShots { credentials } => match try_get_my_shots(stored, credentials) {
            Ok(shots) => Ok(QueryAnswer::MyShots(shots)),
            Err(refusal) => Err(refusal),
        },
        QueryMsg::LastShot { credentials } => match try_get_last_shot(stored, credentials) {
            Ok(pending) => Ok(QueryAnswer::LastShot(pending)),
            Err(refusal) => Err(refusal),
        },
    }
}

/// A request that changes a game has one outcome and no other: what is
/// stored and what is asked decide between success and each of the
/// refusals, and decide what the game is afterwards.
pub proof fn lemma_handle_outcome_is_unique(
    stored: Option<GameStateView>,
    msg: HandleMsgView,
    one: Result<Game, GameError>,
    other: Result<Game, GameError>,
)
    requires
        handle_outcome(stored, msg, one),
        handle_outcome(stored, msg, other),
    ensures
        same_outcome(one, other),
{
    if let HandleMsgView::Join { pasture, .. } = msg {
        if let Err(GameError::InvalidPasture(reason)) = one {
            lemma_verdict_of_accepted(pasture, Err(reason));
            if let Err(GameError::InvalidPasture(again)) = other {
                lemma_verdict_is_unique(pasture, Err(reason), Err(again));
            }
        }
        if let Err(GameError::InvalidPasture(reason)) = other {
            lemma_verdict_of_accepted(pasture, Err(reason));
        }
    }
}

/// A request that asks about a game has one answer and no other.
pub proof fn lemma_query_outcome_is_unique(
    stored: Option<GameStateView>,
    wanted: QueryMsgView,
    one: Result<QueryAnswer, GameError>,
    other: Result<QueryAnswer, GameError>,
)
    requires
        query_outcome(stored, wanted, one),
        query_outcome(stored, wanted, other),
    ensures
        same_answer(one, other),
{
}

/// Requests keep a game sound: a new game is sound, and a game that was
/// sound before a request is sound after it. So every player of a game
/// that only requests have touched has a pasture that obeys the placement
/// rules, however long ago it was checked, and the two players can be told
/// apart by their names.
pub proof fn lemma_requests_keep_games_sound(
    stored: Option<GameStateView>,
    msg: HandleMsgView,
    outcome: Result<Game, GameError>,
)
    requires
        stored matches Some(state) ==> state.sound(),
        handle_outcome(stored, msg, outcome),
        outcome is Ok,
    ensures
        outcome->Ok_0@.state.sound(),
{
    let after = outcome->Ok_0@.state;
    if let Some(before) = stored {
        assert forall|i: int| 0 <= i < after.players.len() implies (
        #[trigger] after.players[i]).pasture.accepted() by {
            if i < before.players.len() {
                lemma_requests_keep_the_players(before, msg, outcome, i);
                assert(before.players[i].pasture.accepted());
            }
        }
    }
}

/// No request takes a player out of a game, changes the name or the secret
/// of a player, or moves a herd; and no shot that is on a player's record
/// gets lost.
pub proof fn lemma_requests_keep_the_players(
    stored: GameStateView,
    msg: HandleMsgView,
    outcome: Result<Game, GameError>,
    i: int,
)
    requires
        stored.wf(),
        handle_outcome(Some(stored), msg, outcome),
        outcome is Ok,
        0 <= i < stored.players.len(),
    ensures
        i < outcome->Ok_0@.state.players.len(),
        outcome->Ok_0@.state.players[i].username == stored.players[i].username,
        outcome->Ok_0@.state.players[i].password == stored.players[i].password,
        outcome->Ok_0@.state.players[i].pasture.herds == stored.players[i].pasture.herds,
        stored.players[i].pasture.shots.is_prefix_of(
            outcome->Ok_0@.state.players[i].pasture.shots,
        ),
{
}

/// A game that has just got its second player waits for the first shot of
/// the player who joined first.
pub proof fn lemma_first_to_join_shoots_first(
    stored: GameStateView,
    credentials: CredentialsView,
    pasture: PastureView,
    outcome: Result<Game, GameError>,
)
    requires
        stored.wf(),
        stored.players.len() == 1,
        join_outcome(Some(stored), credentials, pasture, outcome),
        outcome is Ok,
    ensures
        outcome->Ok_0@.state.is_full(),
        outcome->Ok_0@.state.turn == 0,
        outcome->Ok_0@.state.next_shot is None,
        outcome->Ok_0@.state.current() == stored.players[0],
        outcome->Ok_0@.state.waiting() == applicant(credentials, pasture),
        outcome->Ok_0@.state.current().username != outcome->Ok_0@.state.waiting().username,
        pasture.accepted(),
{
}

/// A round of the game passes the turn: where a shot was fired and then
/// confirmed, no shot was pending before the shot, the shot was pending
/// after it, and after the confirmation no shot is pending and the turn is
/// that of the other player. The shot was fired by the player whose turn it
/// was and confirmed by the other one.
pub proof fn lemma_turn_alternates(
    before: GameStateView,
    shooter: CredentialsView,
    shot: Coords,
    fired: Result<Game, GameError>,
    target: CredentialsView,
    confirmed_at: Coords,
    confirmed: Result<Game, GameError>,
)
    requires
        before.wf(),
        shoot_outcome(Some(before), shooter, shot, fired),
        fired matches Ok(pending) && confirm_outcome(
            Some(pending@.state),
            target,
            confirmed_at,
            confirmed,
        ),
        confirmed is Ok,
    ensures
        before.next_shot is None,
        before.current().matches(shooter),
        before.waiting().matches(target),
        fired->Ok_0@.state.next_shot == Some(shot),
        confirmed->Ok_0@.state.next_shot is None,
        confirmed->Ok_0@.state.turn == before.waiting_turn(),
        confirmed->Ok_0@.state.turn != before.turn,
        confirmed->Ok_0@.state.waiting() == before.current().with_shot(confirmed_at),
        confirmed->Ok_0@.state.current() == before.waiting(),
{
}

/// Who has shot has to wait: in a sound game, the player whose shot was
/// confirmed is told that it is not their turn when they try to shoot
/// again.
pub proof fn lemma_shooter_has_to_wait(
    before: GameStateView,
    shooter: CredentialsView,
    shot: Coords,
    fired: Result<Game, GameError>,
    target: CredentialsView,
    confirmed_at: Coords,
    confirmed: Result<Game, GameError>,
    next: Coords,
    again: Result<Game, GameError>,
)
    requires
        before.sound(),
        shoot_outcome(Some(before), shooter, shot, fired),
        fired matches Ok(pending) && confirm_outcome(
            Some(pending@.state),
            target,
            confirmed_at,
            confirmed,
        ),
        confirmed matches Ok(passed) && shoot_outcome(Some(passed@.state), shooter, next, again),
    ensures
        again matches Err(GameError::NotYourTurn),
{
}

/// While a shot is pending nobody can shoot: the player whose turn it is
/// is told that a shot is pending, and anybody else that it is not their
/// turn.
pub proof fn lemma_no_shot_while_one_is_pending(
    state: GameStateView,
    credentials: CredentialsView,
    coords: Coords,
    outcome: Result<Game, GameError>,
)
    requires
        state.is_full(),
        state.next_shot is Some,
        shoot_outcome(Some(state), credentials, coords, outcome),
    ensures
        state.current().matches(credentials) ==> outcome matches Err(
            GameError::ShotAlreadyPending,
        ),
        !state.current().matches(credentials) ==> outcome matches Err(GameError::NotYourTurn),
{
}

/// While no shot is pending nobody can confirm one: the player whose turn
/// it is not is told that no shot is pending, and anybody else that it is
/// not for them to confirm.
pub proof fn lemma_no_confirmation_without_a_shot(
    state: GameStateView,
    credentials: CredentialsView,
    coords: Coords,
    outcome: Result<Game, GameError>,
)
    requires
        state.is_full(),
        state.next_shot is None,
        confirm_outcome(Some(state), credentials, coords, outcome),
    ensures
        state.waiting().matches(credentials) ==> outcome matches Err(GameError::NoShotPending),
        !state.waiting().matches(credentials) ==> outcome matches Err(GameError::NotYourTurn),
{
}

} // verus!
