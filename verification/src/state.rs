//! Players, games, and the turn engine that runs a game once both players
//! have joined.

pub use crate::board::{Coords, Herd, Orientation};
use crate::error::GameError;
use crate::msg::{Credentials, CredentialsView, Shots, ShotsView};
pub use crate::pasture::Pasture;
use crate::pasture::PastureView;
use vstd::prelude::*;
use vstd::utf8::encode_utf8_decode_utf8;

verus! {

/// What is known of a player: the name and the shared secret that prove who
/// is asking, and the player's pasture.
#[verifier::ext_equal]
pub struct PlayerView {
    pub username: Seq<char>,
    pub password: Seq<char>,
    pub pasture: PastureView,
}

impl PlayerView {
    /// Whether `credentials` are those of this player: name and secret are
    /// the same, character by character.
    pub open spec fn matches(self, credentials: CredentialsView) -> bool {
        self.username == credentials.username && self.password == credentials.password
    }

    /// This player, with one more shot on record.
    pub open spec fn with_shot(self, coords: Coords) -> PlayerView {
        PlayerView {
            pasture: PastureView { shots: self.pasture.shots.push(coords), ..self.pasture },
            ..self
        }
    }
}

/// A participant of a game.
#[derive(Debug, PartialEq)]
pub struct Player {
    username: String,
    password: String,
    pasture: Pasture,
}

impl View for Player {
    type V = PlayerView;

    closed spec fn view(&self) -> PlayerView {
        PlayerView { username: self.username@, password: self.password@, pasture: self.pasture@ }
    }
}

/// Tells whether two texts are the same. Texts of one length are compared
/// to their end, whether or not a difference has shown up: how long the
/// comparison takes does not tell where the texts differ.
fn same_text(left: &str, right: &str) -> (same: bool)
    ensures
        same == (left@ == right@),
{
    let a = left.as_bytes();
    let b = right.as_bytes();
    proof {
        encode_utf8_decode_utf8(left@);
        encode_utf8_decode_utf8(right@);
    }
    if a.len() != b.len() {
        return false;
    }
    let mut difference: u8 = 0;
    let mut i: usize = 0;
    while i < a.len()
        invariant
            a.len() == b.len(),
            i <= a.len(),
            difference == 0 <==> forall|k: int| 0 <= k < i ==> a@[k] == b@[k],
        decreases a.len() - i,
    {
        let x: u8 = a[i];
        let y: u8 = b[i];
        assert((difference | (x ^ y)) == 0 <==> (difference == 0 && x == y)) by (bit_vector);
        difference = difference | (x ^ y);
        i += 1;
    }
    assert(difference == 0 <==> a@ =~= b@);
    difference == 0
}

impl Clone for Player {
    fn clone(&self) -> (copy: Player)
        ensures
            copy@ == self@,
    {
        Player {
            username: self.username.clone(),
            password: self.password.clone(),
            pasture: self.pasture.clone(),
        }
    }
}

impl Default for Player {
    /// A player without a name, a secret or herds.
    fn default() -> (player: Player)
        ensures
            player@ == (PlayerView {
                username: Seq::empty(),
                password: Seq::empty(),
                pasture: PastureView { herds: Seq::empty(), shots: Seq::empty() },
            }),
    {
        Player { username: String::new(), password: String::new(), pasture: Pasture::default() }
    }
}

impl Player {
    /// The player of the given name and secret, with the given pasture.
    pub fn new(username: String, password: String, pasture: Pasture) -> (player: Player)
        ensures
            player@ == (PlayerView {
                username: username@,
                password: password@,
                pasture: pasture@,
            }),
    {
        Player { username, password, pasture }
    }

    /// The name that the player goes by.
    pub fn username(&self) -> (name: &str)
        ensures
            name@ == self@.username,
    {
        self.username.as_str()
    }

    /// Tells whether `credentials` are those of this player.
    pub fn matches_credentials(&self, credentials: &Credentials) -> (matches: bool)
        ensures
            matches == self@.matches(credentials@),
    {
        let name = same_text(self.username.as_str(), credentials.username.as_str());
        let secret = same_text(self.password.as_str(), credentials.password.as_str());
        name && secret
    }

    /// The player's pasture, for the one who holds the player's credentials.
    pub fn pasture(&self, credentials: &Credentials) -> (pasture: Option<&Pasture>)
        ensures
            match pasture {
                Some(p) => self@.matches(credentials@) && p@ == self@.pasture,
                None => !self@.matches(credentials@),
            },
    {
        if !self.matches_credentials(credentials) {
            None
        } else {
            Some(&self.pasture)
        }
    }

    /// Takes the player apart into name, secret and pasture.
    pub fn into_parts(self) -> (parts: (String, String, Pasture))
        ensures
            parts.0@ == self@.username,
            parts.1@ == self@.password,
            parts.2@ == self@.pasture,
    {
        (self.username, self.password, self.pasture)
    }
}

/// The views of the given players, in the same order.
pub open spec fn views_of(players: Seq<Player>) -> Seq<PlayerView> {
    players.map_values(|player: Player| player@)
}

/// The progress of a game: who has joined, whose turn it is, and which shot
/// waits to be confirmed.
#[verifier::ext_equal]
pub struct GameStateView {
    /// The players, in the order in which they joined.
    pub players: Seq<PlayerView>,
    /// The index of the player whose turn it is.
    pub turn: u8,
    /// The shot that was fired and is not confirmed yet.
    pub next_shot: Option<Coords>,
}

impl GameStateView {
    /// The state of a game that nobody has joined.
    pub open spec fn empty() -> GameStateView {
        GameStateView { players: Seq::empty(), turn: 0, next_shot: None }
    }

    /// What holds of the state of every game: it has at most two players,
    /// the turn is that of the first or of the second, and until both have
    /// joined the turn is the first player's and no shot is pending.
    pub open spec fn wf(self) -> bool {
        &&& self.players.len() <= 2
        &&& self.turn < 2
        &&& self.players.len() < 2 ==> self.turn == 0 && self.next_shot is None
    }

    /// What holds of the state of every game that only requests have
    /// touched, beyond `wf`: every player has a pasture that obeys the
    /// placement rules, and the two players go by different names.
    pub open spec fn sound(self) -> bool {
        &&& self.wf()
        &&& forall|i: int|
            0 <= i < self.players.len() ==> (#[trigger] self.players[i]).pasture.accepted()
        &&& self.players.len() == 2 ==> self.players[0].username != self.players[1].username
    }

    /// Both players have joined.
    pub open spec fn is_full(self) -> bool {
        self.players.len() == 2
    }

    /// The state is that of a game that can be played.
    pub open spec fn playable(self) -> bool {
        self.wf() && self.is_full()
    }

    /// The sole player of the game goes by `username`.
    pub open spec fn name_taken(self, username: Seq<char>) -> bool {
        self.players.len() == 1 && self.players[0].username == username
    }

    /// The index of the player whose turn it is not.
    pub open spec fn waiting_turn(self) -> u8 {
        ((self.turn + 1) % 2) as u8
    }

    /// The player whose turn it is.
    pub open spec fn current(self) -> PlayerView {
        self.players[self.turn as int]
    }

    /// The player whose turn it is not.
    pub open spec fn waiting(self) -> PlayerView {
        self.players[self.waiting_turn() as int]
    }

    /// This state, with `player` in the place of the one at `index`.
    pub open spec fn with_player(self, index: u8, player: PlayerView) -> GameStateView {
        GameStateView { players: self.players.update(index as int, player), ..self }
    }

    /// The state after a shot at `coords` was fired: the shot is pending.
    pub open spec fn shot_fired(self, coords: Coords) -> GameStateView {
        GameStateView { next_shot: Some(coords), ..self }
    }

    /// The state after `coords` was confirmed: the player whose turn it is
    /// has one more shot on record, the latest.
    pub open spec fn shot_recorded(self, coords: Coords) -> GameStateView {
        self.with_player(self.turn, self.current().with_shot(coords))
    }

    /// The state after the turn has ended: no shot is pending, and the turn
    /// is the other player's.
    pub open spec fn turn_passed(self) -> GameStateView {
        GameStateView { turn: self.waiting_turn(), next_shot: None, ..self }
    }

    /// The shots that the player whose turn it is has fired, told apart by
    /// what they did to the other player's pasture.
    pub open spec fn player_shots(self) -> ShotsView {
        self.waiting().pasture.classify(self.current().pasture.shots)
    }

    /// The shots that the player whose turn it is not has fired, told apart
    /// by what they did to the other player's pasture.
    pub open spec fn opponent_shots(self) -> ShotsView {
        self.current().pasture.classify(self.waiting().pasture.shots)
    }

    /// Whether `credentials` are those of one of the two players.
    pub open spec fn is_player(self, credentials: CredentialsView) -> bool {
        self.current().matches(credentials) || self.waiting().matches(credentials)
    }

    /// The pasture of the player that `viewer` describes.
    pub open spec fn pasture_for(self, viewer: CredentialsView) -> PastureView {
        if self.current().matches(viewer) {
            self.current().pasture
        } else {
            self.waiting().pasture
        }
    }

    /// The shots that the player that `viewer` describes has fired, told
    /// apart by what they did to the other player's pasture.
    pub open spec fn shots_for(self, viewer: CredentialsView) -> ShotsView {
        if self.current().matches(viewer) {
            self.player_shots()
        } else {
            self.opponent_shots()
        }
    }
}

/// The mutable part of a game, which is what gets stored.
#[derive(Debug, PartialEq)]
pub struct GameState {
    /// The two players in the game.
    players: Vec<Player>,
    /// The index of the next player to shoot: 0 or 1.
    turn: u8,
    /// The shot that waits to be confirmed, if there is one.
    next_shot: Option<Coords>,
}

impl View for GameState {
    type V = GameStateView;

    closed spec fn view(&self) -> GameStateView {
        GameStateView {
            players: views_of(self.players@),
            turn: self.turn,
            next_shot: self.next_shot,
        }
    }
}

impl Clone for GameState {
    fn clone(&self) -> (copy: GameState)
        ensures
            copy@ == self@,
    {
        proof {
            use_type_invariant(self);
        }
        GameState { players: self.players.clone(), turn: self.turn, next_shot: self.next_shot }
    }
}

impl Default for GameState {
    fn default() -> (state: GameState)
        ensures
            state@ == GameStateView::empty(),
    {
        GameState { players: Vec::new(), turn: 0, next_shot: None }
    }
}

impl GameState {
    /// Every state is one that a game can be in.
    #[verifier::type_invariant]
    spec fn well_formed(&self) -> bool {
        self@.wf()
    }

    /// Whether `built` is what the given parts make: the state that holds
    /// them, where a game can be in that state, and nothing else.
    pub open spec fn built_from(
        players: Seq<PlayerView>,
        turn: u8,
        next_shot: Option<Coords>,
        built: Option<GameState>,
    ) -> bool {
        let parts = GameStateView { players, turn, next_shot };
        match built {
            Some(state) => parts.wf() && state@ == parts,
            None => !parts.wf(),
        }
    }

    /// Whether `parts` are the players, the turn and the pending shot of
    /// this state.
    pub open spec fn taken_apart(&self, parts: (Vec<Player>, u8, Option<Coords>)) -> bool {
        self@ == (GameStateView { players: views_of(parts.0@), turn: parts.1, next_shot: parts.2 })
    }

    /// Builds a state from its parts, as they come out of a store. Parts
    /// that no game can be in give nothing.
    pub fn from_parts(players: Vec<Player>, turn: u8, next_shot: Option<Coords>) -> (state: Option<
        GameState,
    >)
        ensures
            GameState::built_from(views_of(players@), turn, next_shot, state),
    {
        let joined: usize = players.len();
        if joined > 2 || turn >= 2 {
            return None;
        }
        if joined < 2 && (turn != 0 || next_shot.is_some()) {
            return None;
        }
        Some(GameState { players, turn, next_shot })
    }

    /// The players, in the order in which they joined.
    pub fn players(&self) -> (players: &Vec<Player>)
        ensures
            views_of(players@) == self@.players,
            self@.wf(),
    {
        proof {
            use_type_invariant(self);
        }
        &self.players
    }

    /// The index of the player whose turn it is.
    pub fn turn(&self) -> (turn: u8)
        ensures
            turn == self@.turn,
            self@.wf(),
    {
        proof {
            use_type_invariant(self);
        }
        self.turn
    }

    /// The shot that waits to be confirmed, if there is one.
    pub fn next_shot(&self) -> (pending: Option<Coords>)
        ensures
            pending == self@.next_shot,
            self@.wf(),
    {
        proof {
            use_type_invariant(self);
        }
        self.next_shot
    }

    /// Takes the state apart into players, turn and pending shot.
    pub fn into_parts(self) -> (parts: (Vec<Player>, u8, Option<Coords>))
        ensures
            self.taken_apart(parts),
            self@.wf(),
    {
        proof {
            use_type_invariant(&self);
        }
        (self.players, self.turn, self.next_shot)
    }
}

/// A game as it is known by name.
#[verifier::ext_equal]
pub struct GameView {
    pub name: Seq<char>,
    pub state: GameStateView,
}

impl GameView {
    /// The game, with `state` in the place of its own.
    pub open spec fn with_state(self, state: GameStateView) -> GameView {
        GameView { state, ..self }
    }

    /// Whether `added` is the answer to `player` asking to join this game,
    /// and `after` the game that results.
    ///
    /// A player is admitted to a game that is not full, under a name
    /// that the player already there does not go by, with a pasture that
    /// obeys the placement rules. The player then comes last. A player who
    /// is turned down leaves the game as it was.
    pub open spec fn admission(
        self,
        player: PlayerView,
        after: GameView,
        added: Result<(), GameError>,
    ) -> bool {
        match added {
            Ok(()) => {
                &&& !self.state.is_full()
                &&& !self.state.name_taken(player.username)
                &&& player.pasture.accepted()
                &&& after == self.with_state(
                    GameStateView { players: self.state.players.push(player), ..self.state },
                )
            },
            Err(GameError::GameFull) => after == self && self.state.is_full(),
            Err(GameError::UsernameTaken { username }) => {
                &&& after == self
                &&& self.state.name_taken(player.username)
                &&& username@ == player.username
            },
            Err(GameError::InvalidPasture(reason)) => {
                &&& after == self
                &&& !self.state.is_full()
                &&& !self.state.name_taken(player.username)
                &&& player.pasture.verdict(Err(reason))
            },
            Err(_) => false,
        }
    }
}

/// A named game.
#[derive(Debug)]
pub struct Game {
    name: String,
    state: GameState,
}

impl View for Game {
    type V = GameView;

    closed spec fn view(&self) -> GameView {
        GameView { name: self.name@, state: self.state@ }
    }
}

impl Clone for Game {
    fn clone(&self) -> (copy: Game)
        ensures
            copy@ == self@,
    {
        Game { name: self.name.clone(), state: self.state.clone() }
    }
}

impl Game {
    /// A game of the given name that nobody has joined.
    pub fn new(name: String) -> (game: Game)
        ensures
            game@ == (GameView { name: name@, state: GameStateView::empty() }),
    {
        Game { name, state: GameState::default() }
    }

    /// The game of the given name, from what the store holds under that
    /// name: the game with that state, or `GameNotFound` where the store
    /// holds nothing.
    pub fn load(stored: Option<GameState>, name: String) -> (loaded: Result<Game, GameError>)
        ensures
            match loaded {
                Ok(game) => stored matches Some(state) && game@ == (GameView {
                    name: name@,
                    state: state@,
                }),
                Err(GameError::GameNotFound { name: missing }) => stored is None && missing@
                    == name@,
                Err(_) => false,
            },
            stored matches Some(state) ==> state@.wf(),
    {
        match stored {
            Some(state) => {
                proof {
                    use_type_invariant(&state);
                }
                Ok(Game { name, state })
            },
            None => Err(GameError::GameNotFound { name }),
        }
    }

    /// The game of the given name, from what the store holds under that
    /// name, where it holds anything.
    pub fn may_load(stored: Option<GameState>, name: String) -> (loaded: Option<Game>)
        ensures
            match loaded {
                Some(game) => stored matches Some(state) && game@ == (GameView {
                    name: name@,
                    state: state@,
                }),
                None => stored is None,
            },
            stored matches Some(state) ==> state@.wf(),
    {
        match stored {
            Some(state) => {
                proof {
                    use_type_invariant(&state);
                }
                Some(Game { name, state })
            },
            None => None,
        }
    }

    /// The game as one that has its two players, where it has them.
    pub fn full(self) -> (full: Result<FullGame, GameError>)
        ensures
            self@.state.wf(),
            match full {
                Ok(game) => self@.state.playable() && game@ == self@,
                Err(GameError::GameNotReady) => !self@.state.is_full(),
                Err(_) => false,
            },
    {
        proof {
            use_type_invariant(&self.state);
        }
        if self.state.players.len() != 2 {
            return Err(GameError::GameNotReady);
        }
        Ok(FullGame { game: self })
    }

    /// Admits `player` to the game.
    pub fn add_player(&mut self, player: Player) -> (added: Result<(), GameError>)
        ensures
            old(self)@.state.wf(),
            final(self)@.state.wf(),
            old(self)@.admission(player@, final(self)@, added),
    {
        proof {
            use_type_invariant(&self.state);
        }
        if self.state.players.len() >= 2 {
            return Err(GameError::GameFull);
        }
        if self.state.players.len() == 1 {
            if self.state.players[0].username == player.username {
                return Err(GameError::UsernameTaken { username: player.username });
            }
        }
        match player.pasture.verify() {
            Ok(()) => {},
            Err(reason) => {
                return Err(GameError::InvalidPasture(reason));
            },
        }
        let mut players: Vec<Player> = Vec::new();
        core::mem::swap(&mut players, &mut self.state.players);
        players.push(player);
        self.state.players = players;
        assert(self@.state.players =~= old(self)@.state.players.push(player@));
        Ok(())
    }

    /// The name under which the game is stored.
    pub fn name(&self) -> (name: &str)
        ensures
            name@ == self@.name,
    {
        self.name.as_str()
    }

    /// The state of the game, which is what gets stored.
    pub fn state(&self) -> (state: &GameState)
        ensures
            state@ == self@.state,
            state@.wf(),
    {
        proof {
            use_type_invariant(&self.state);
        }
        &self.state
    }

    /// Gives up the name and keeps the state.
    pub fn into_state(self) -> (state: GameState)
        ensures
            state@ == self@.state,
            state@.wf(),
    {
        proof {
            use_type_invariant(&self.state);
        }
        self.state
    }
}

/// A game that has its two players, and so can be played.
#[derive(Debug)]
pub struct FullGame {
    game: Game,
}

impl View for FullGame {
    type V = GameView;

    closed spec fn view(&self) -> GameView {
        self.game@
    }
}

impl Clone for FullGame {
    fn clone(&self) -> (copy: FullGame)
        ensures
            copy@ == self@,
    {
        proof {
            use_type_invariant(self);
        }
        FullGame { game: self.game.clone() }
    }
}

impl FullGame {
    /// Every full game has its two players.
    #[verifier::type_invariant]
    spec fn has_both_players(&self) -> bool {
        self.game.state@.is_full()
    }

    /// The player whose turn it is.
    pub fn player(&self) -> (player: &Player)
        ensures
            self@.state.playable(),
            player@ == self@.state.current(),
    {
        proof {
            use_type_invariant(self);
            use_type_invariant(&self.game.state);
        }
        &self.game.state.players[self.game.state.turn as usize]
    }

    /// The player whose turn it is, for changing. What is done to the player
    /// is done to the game.
    pub fn player_mut(&mut self) -> (player: &mut Player)
        ensures
            player@ == old(self)@.state.current(),
            final(self)@ == old(self)@.with_state(
                old(self)@.state.with_player(old(self)@.state.turn, final(player)@),
            ),
            final(self)@.state.playable(),
    {
        proof {
            use_type_invariant(&*self);
            use_type_invariant(&self.game.state);
        }
        let turn: usize = self.game.state.turn as usize;
        &mut self.game.state.players[turn]
    }

    /// The player whose turn it is not.
    pub fn opponent(&self) -> (opponent: &Player)
        ensures
            self@.state.playable(),
            opponent@ == self@.state.waiting(),
    {
        proof {
            use_type_invariant(self);
            use_type_invariant(&self.game.state);
        }
        let turn: u8 = (self.game.state.turn + 1) % 2;
        &self.game.state.players[turn as usize]
    }

    /// The player whose turn it is not, for changing. What is done to the
    /// player is done to the game.
    pub fn opponent_mut(&mut self) -> (opponent: &mut Player)
        ensures
            opponent@ == old(self)@.state.waiting(),
            final(self)@ == old(self)@.with_state(
                old(self)@.state.with_player(old(self)@.state.waiting_turn(), final(opponent)@),
            ),
            final(self)@.state.playable(),
    {
        proof {
            use_type_invariant(&*self);
            use_type_invariant(&self.game.state);
        }
        let turn: u8 = (self.game.state.turn + 1) % 2;
        &mut self.game.state.players[turn as usize]
    }

    /// Fires a shot at `coords`, which then waits to be confirmed. No shot
    /// can be fired while another one waits.
    pub fn shoot(&mut self, coords: Coords) -> (fired: Result<(), GameError>)
        ensures
            final(self)@.state.playable(),
            match fired {
                Ok(()) => {
                    &&& old(self)@.state.next_shot is None
                    &&& final(self)@ == old(self)@.with_state(old(self)@.state.shot_fired(coords))
                },
                Err(GameError::ShotAlreadyPending) => {
                    &&& old(self)@.state.next_shot is Some
                    &&& final(self)@ == old(self)@
                },
                Err(_) => false,
            },
    {
        proof {
            use_type_invariant(&*self);
            use_type_invariant(&self.game.state);
        }
        if self.game.state.next_shot.is_some() {
            return Err(GameError::ShotAlreadyPending);
        }
        self.game.state.next_shot = Some(coords);
        Ok(())
    }

    /// The shot that waits to be confirmed, if there is one.
    pub fn next_shot(&self) -> (pending: Option<Coords>)
        ensures
            pending == self@.state.next_shot,
    {
        self.game.state.next_shot
    }

    /// Confirms the shot that was fired, as one at `coords`: it goes on the
    /// record of the player whose turn it is.
    ///
    /// Shots have to be confirmed by their target, so that nobody can run
    /// the game alone and try every cell.
    pub fn confirm_shot(&mut self, coords: Coords) -> (confirmed: Result<(), GameError>)
        ensures
            final(self)@.state.playable(),
            match confirmed {
                Ok(()) => {
                    &&& old(self)@.state.next_shot is Some
                    &&& final(self)@ == old(self)@.with_state(
                        old(self)@.state.shot_recorded(coords),
                    )
                },
                Err(GameError::NoShotPending) => {
                    &&& old(self)@.state.next_shot is None
                    &&& final(self)@ == old(self)@
                },
                Err(_) => false,
            },
    {
        proof {
            use_type_invariant(&*self);
            use_type_invariant(&self.game.state);
        }
        if self.game.state.next_shot.is_none() {
            return Err(GameError::NoShotPending);
        }
        let turn: usize = self.game.state.turn as usize;
        let mut shots: Vec<Coords> = Vec::new();
        core::mem::swap(&mut shots, &mut self.game.state.players[turn].pasture.shots);
        shots.push(coords);
        core::mem::swap(&mut shots, &mut self.game.state.players[turn].pasture.shots);
        Ok(())
    }

    /// The shots of the player whose turn it is, told apart by what they
    /// did to the opponent's pasture.
    pub fn get_player_shots(&self) -> (shots: Shots)
        ensures
            shots@ == self@.state.player_shots(),
    {
        self.opponent().pasture.classify(&self.player().pasture.shots)
    }

    /// The shots of the player whose turn it is not, told apart by what
    /// they did to the pasture of the player whose turn it is.
    pub fn get_opponent_shots(&self) -> (shots: Shots)
        ensures
            shots@ == self@.state.opponent_shots(),
    {
        self.player().pasture.classify(&self.opponent().pasture.shots)
    }

    /// Ends the running turn: the shot is settled, and the other player is
    /// next to shoot.
    pub fn end_turn(&mut self)
        ensures
            final(self)@.state.playable(),
            final(self)@ == old(self)@.with_state(old(self)@.state.turn_passed()),
    {
        proof {
            use_type_invariant(&*self);
            use_type_invariant(&self.game.state);
        }
        self.game.state.next_shot = None;
        self.game.state.turn = (self.game.state.turn + 1) % 2;
    }

    /// The game that is being played.
    pub fn game(&self) -> (game: &Game)
        ensures
            self@.state.playable(),
            game@ == self@,
    {
        proof {
            use_type_invariant(self);
            use_type_invariant(&self.game.state);
        }
        &self.game
    }

    /// The two players: the one whose turn it is, and the one whose turn it
    /// is not.
    pub fn into_players(self) -> (players: (Player, Player))
        ensures
            self@.state.playable(),
            players.0@ == self@.state.current(),
            players.1@ == self@.state.waiting(),
    {
        proof {
            use_type_invariant(&self);
            use_type_invariant(&self.game.state);
        }
        let (mut players, turn, _) = self.game.state.into_parts();
        let second = players.pop().unwrap();
        let first = players.pop().unwrap();
        if turn == 0 {
            (first, second)
        } else {
            (second, first)
        }
    }

    /// The game, for storing.
    pub fn into_game(self) -> (game: Game)
        ensures
            self@.state.playable(),
            game@ == self@,
    {
        proof {
            use_type_invariant(&self);
            use_type_invariant(&self.game.state);
        }
        self.game
    }
}

/// One round of a game, which is a shot, its confirmation and the end of
/// the turn, hands the turn to the other player and leaves no shot pending.
/// The players stay who they were, but for the shot that the shooter now
/// has on record.
pub proof fn lemma_round_passes_turn(before: GameStateView, shot: Coords, confirmed: Coords)
    requires
        before.wf(),
        before.is_full(),
    ensures
        ({
            let after = before.shot_fired(shot).shot_recorded(confirmed).turn_passed();
            &&& after.wf()
            &&& after.is_full()
            &&& after.turn == before.waiting_turn()
            &&& after.turn != before.turn
            &&& after.next_shot is None
            &&& after.current() == before.waiting()
            &&& after.waiting() == before.current().with_shot(confirmed)
        }),
{
}

/// After two rounds the turn is back where it was.
pub proof fn lemma_two_rounds_return_turn(before: GameStateView)
    requires
        before.wf(),
    ensures
        before.turn_passed().turn_passed().turn == before.turn,
{
}

/// Telling a player's shots apart changes nothing, so it gives the same
/// answer as often as it is done on one state.
pub proof fn lemma_shots_for_repeats(
    state: GameStateView,
    viewer: CredentialsView,
    once: ShotsView,
    again: ShotsView,
)
    requires
        once == state.shots_for(viewer),
        again == state.shots_for(viewer),
    ensures
        once == again,
{
}

/// A state that is taken apart and built again from its parts is the state
/// that it was.
pub proof fn lemma_rebuilt_state_is_the_same(
    state: GameState,
    parts: (Vec<Player>, u8, Option<Coords>),
    rebuilt: Option<GameState>,
)
    requires
        state@.wf(),
        state.taken_apart(parts),
        GameState::built_from(views_of(parts.0@), parts.1, parts.2, rebuilt),
    ensures
        rebuilt matches Some(again) && again@ == state@,
{
}

} // verus!
