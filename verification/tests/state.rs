use battlesheep::board::{Coords, Herd, Orientation};
use battlesheep::error::{GameError, ValidationError};
use battlesheep::msg::{Credentials, Shots};
use battlesheep::pasture::Pasture;
use battlesheep::state::{FullGame, Game, GameState, Player};

fn cell(x: u8, y: u8) -> Coords {
    Coords { x, y }
}

fn rows() -> Pasture {
    Pasture::new(
        vec![
            Herd::new(0, 0, 2, Orientation::Horizontal),
            Herd::new(0, 1, 3, Orientation::Horizontal),
            Herd::new(0, 2, 3, Orientation::Horizontal),
            Herd::new(0, 3, 4, Orientation::Horizontal),
            Herd::new(0, 4, 5, Orientation::Horizontal),
        ],
        Vec::new(),
    )
}

fn columns() -> Pasture {
    Pasture::new(
        vec![
            Herd::new(5, 5, 2, Orientation::Vertical),
            Herd::new(6, 5, 3, Orientation::Vertical),
            Herd::new(7, 5, 3, Orientation::Vertical),
            Herd::new(8, 5, 4, Orientation::Vertical),
            Herd::new(9, 5, 5, Orientation::Vertical),
        ],
        Vec::new(),
    )
}

fn credentials(username: &str, password: &str) -> Credentials {
    Credentials {
        game: String::from("g1"),
        username: String::from(username),
        password: String::from(password),
    }
}

fn alice() -> Player {
    Player::new(String::from("alice"), String::from("wool"), rows())
}

fn bob() -> Player {
    Player::new(String::from("bob"), String::from("shears"), columns())
}

fn game_of(players: Vec<Player>) -> Game {
    let mut game = Game::new(String::from("g1"));
    for player in players {
        assert_eq!(game.add_player(player), Ok(()));
    }
    game
}

fn full_game() -> FullGame {
    game_of(vec![alice(), bob()]).full().unwrap()
}

#[test]
fn new_player_keeps_what_it_is_given() {
    let player = alice();
    assert_eq!(player.username(), "alice");
    let (username, password, pasture) = player.into_parts();
    assert_eq!(username, "alice");
    assert_eq!(password, "wool");
    assert_eq!(pasture, rows());
}

#[test]
fn default_player_has_nothing() {
    let (username, password, pasture) = Player::default().into_parts();
    assert_eq!(username, "");
    assert_eq!(password, "");
    assert_eq!(pasture, Pasture::default());
}

#[test]
fn credentials_match_by_name_and_secret() {
    let player = alice();
    assert!(player.matches_credentials(&credentials("alice", "wool")));
    assert!(!player.matches_credentials(&credentials("alice", "wooL")));
    assert!(!player.matches_credentials(&credentials("alice", "woo")));
    assert!(!player.matches_credentials(&credentials("alice", "wooll")));
    assert!(!player.matches_credentials(&credentials("alice", "")));
    assert!(!player.matches_credentials(&credentials("alicf", "wool")));
    assert!(!player.matches_credentials(&credentials("Alice", "wool")));
    assert!(!player.matches_credentials(&credentials("", "wool")));
    assert!(!player.matches_credentials(&credentials("wool", "alice")));
    assert!(!player.matches_credentials(&credentials("bob", "shears")));
}

#[test]
fn credentials_match_whatever_game_they_name() {
    let mut elsewhere = credentials("alice", "wool");
    elsewhere.game = String::from("g2");
    assert!(alice().matches_credentials(&elsewhere));
}

#[test]
fn credentials_match_beyond_ascii() {
    let player = Player::new(String::from("zoë"), String::from("brebis 🐑"), rows());
    assert!(player.matches_credentials(&credentials("zoë", "brebis 🐑")));
    assert!(!player.matches_credentials(&credentials("zoe", "brebis 🐑")));
    assert!(!player.matches_credentials(&credentials("zoë", "brebis 🐏")));
    assert!(!player.matches_credentials(&credentials("zoë", "brebis ")));
}

#[test]
fn empty_credentials_match_the_player_without_name_and_secret() {
    assert!(Player::default().matches_credentials(&credentials("", "")));
    assert!(!Player::default().matches_credentials(&credentials("", "x")));
}

#[test]
fn pasture_is_shown_to_its_owner_only() {
    let player = alice();
    assert_eq!(player.pasture(&credentials("alice", "wool")), Some(&rows()));
    assert_eq!(player.pasture(&credentials("alice", "shears")), None);
    assert_eq!(player.pasture(&credentials("bob", "wool")), None);
}

#[test]
fn default_state_is_an_empty_game() {
    let state = GameState::default();
    assert!(state.players().is_empty());
    assert_eq!(state.turn(), 0);
    assert_eq!(state.next_shot(), None);
}

#[test]
fn state_is_built_from_parts_that_a_game_can_be_in() {
    assert_eq!(GameState::from_parts(Vec::new(), 0, None), Some(GameState::default()));
    let one = GameState::from_parts(vec![alice()], 0, None).unwrap();
    assert_eq!(one.players(), &vec![alice()]);
    for turn in 0..2u8 {
        for pending in [None, Some(cell(3, 3))] {
            let state = GameState::from_parts(vec![alice(), bob()], turn, pending).unwrap();
            assert_eq!(state.players(), &vec![alice(), bob()]);
            assert_eq!(state.turn(), turn);
            assert_eq!(state.next_shot(), pending);
        }
    }
}

#[test]
fn state_is_not_built_from_other_parts() {
    assert_eq!(GameState::from_parts(vec![alice(), bob(), alice()], 0, None), None);
    assert_eq!(GameState::from_parts(vec![alice(), bob()], 2, None), None);
    assert_eq!(GameState::from_parts(vec![alice(), bob()], 255, None), None);
    assert_eq!(GameState::from_parts(vec![alice()], 1, None), None);
    assert_eq!(GameState::from_parts(vec![alice()], 0, Some(cell(0, 0))), None);
    assert_eq!(GameState::from_parts(Vec::new(), 1, None), None);
    assert_eq!(GameState::from_parts(Vec::new(), 0, Some(cell(0, 0))), None);
}

#[test]
fn state_taken_apart_and_rebuilt_is_the_same() {
    let mut game = full_game();
    assert_eq!(game.shoot(cell(3, 3)), Ok(()));
    assert_eq!(game.confirm_shot(cell(3, 3)), Ok(()));
    game.end_turn();
    assert_eq!(game.shoot(cell(9, 9)), Ok(()));
    let states = vec![
        GameState::default(),
        game_of(vec![alice()]).into_state(),
        game_of(vec![alice(), bob()]).into_state(),
        game.into_game().into_state(),
    ];
    for state in states {
        let (players, turn, pending) = state.clone().into_parts();
        assert_eq!(GameState::from_parts(players, turn, pending), Some(state));
    }
}

#[test]
fn new_game_has_a_name_and_nobody_in_it() {
    let game = Game::new(String::from("g1"));
    assert_eq!(game.name(), "g1");
    assert_eq!(game.state(), &GameState::default());
    assert_eq!(game.into_state(), GameState::default());
}

#[test]
fn load_binds_the_stored_state_to_the_name() {
    let stored = game_of(vec![alice()]).into_state();
    let game = Game::load(Some(stored.clone()), String::from("g7")).unwrap();
    assert_eq!(game.name(), "g7");
    assert_eq!(game.state(), &stored);
}

#[test]
fn load_fails_where_nothing_is_stored() {
    let missing = Game::load(None, String::from("g7")).unwrap_err();
    assert_eq!(missing, GameError::GameNotFound { name: String::from("g7") });
}

#[test]
fn may_load_gives_the_game_where_one_is_stored() {
    assert!(Game::may_load(None, String::from("g7")).is_none());
    let stored = game_of(vec![alice(), bob()]).into_state();
    let game = Game::may_load(Some(stored.clone()), String::from("g7")).unwrap();
    assert_eq!(game.name(), "g7");
    assert_eq!(game.state(), &stored);
}

#[test]
fn players_join_in_order() {
    let mut game = Game::new(String::from("g1"));
    assert_eq!(game.add_player(alice()), Ok(()));
    assert_eq!(game.state().players(), &vec![alice()]);
    assert_eq!(game.add_player(bob()), Ok(()));
    assert_eq!(game.state().players(), &vec![alice(), bob()]);
    assert_eq!(game.state().turn(), 0);
    assert_eq!(game.state().next_shot(), None);
    assert_eq!(game.name(), "g1");
}

#[test]
fn third_player_finds_the_game_full() {
    let mut game = game_of(vec![alice(), bob()]);
    let before = game.state().clone();
    let carol = Player::new(String::from("carol"), String::from("crook"), rows());
    assert_eq!(game.add_player(carol), Err(GameError::GameFull));
    assert_eq!(game.state(), &before);
    assert_eq!(game.add_player(alice()), Err(GameError::GameFull));
    assert_eq!(game.add_player(Player::default()), Err(GameError::GameFull));
    assert_eq!(game.state(), &before);
}

#[test]
fn second_player_cannot_take_the_name_of_the_first() {
    let mut game = game_of(vec![alice()]);
    let before = game.state().clone();
    let twin = Player::new(String::from("alice"), String::from("other"), columns());
    assert_eq!(
        game.add_player(twin),
        Err(GameError::UsernameTaken { username: String::from("alice") })
    );
    assert_eq!(game.state(), &before);
}

#[test]
fn second_player_may_share_the_secret_of_the_first() {
    let mut game = game_of(vec![alice()]);
    let other = Player::new(String::from("bob"), String::from("wool"), columns());
    assert_eq!(game.add_player(other), Ok(()));
    assert_eq!(game.state().players().len(), 2);
}

#[test]
fn taken_name_is_reported_before_the_pasture() {
    let mut game = game_of(vec![alice()]);
    let twin = Player::new(String::from("alice"), String::from("other"), Pasture::default());
    assert_eq!(
        game.add_player(twin),
        Err(GameError::UsernameTaken { username: String::from("alice") })
    );
}

#[test]
fn player_with_an_illegal_pasture_is_turned_down() {
    let mut game = Game::new(String::from("g1"));
    let mut herds = rows().herds;
    herds.remove(2);
    let player = Player::new(String::from("alice"), String::from("wool"), Pasture::new(herds, Vec::new()));
    assert_eq!(
        game.add_player(player),
        Err(GameError::InvalidPasture(ValidationError::WrongHerdCount {
            length: 3,
            expected: 2,
            actual: 1
        }))
    );
    assert_eq!(game.state(), &GameState::default());
    let mut game = game_of(vec![alice()]);
    let outside = Herd::new(9, 9, 2, Orientation::Horizontal);
    let mut herds = columns().herds;
    herds[0] = outside;
    let player = Player::new(String::from("bob"), String::from("shears"), Pasture::new(herds, Vec::new()));
    assert_eq!(
        game.add_player(player),
        Err(GameError::InvalidPasture(ValidationError::InvalidHerd { herd: outside }))
    );
    assert_eq!(game.state().players(), &vec![alice()]);
}

#[test]
fn game_is_full_with_two_players_only() {
    assert_eq!(Game::new(String::from("g1")).full().unwrap_err(), GameError::GameNotReady);
    assert_eq!(game_of(vec![alice()]).full().unwrap_err(), GameError::GameNotReady);
    let full = game_of(vec![alice(), bob()]).full().unwrap();
    assert_eq!(full.game().name(), "g1");
    assert_eq!(full.game().state().players(), &vec![alice(), bob()]);
}

#[test]
fn first_player_has_the_first_turn() {
    let game = full_game();
    assert_eq!(game.player(), &alice());
    assert_eq!(game.opponent(), &bob());
    assert_eq!(game.next_shot(), None);
    assert_eq!(game.game().state().turn(), 0);
}

#[test]
fn shot_is_pending_until_it_is_confirmed() {
    let mut game = full_game();
    assert_eq!(game.shoot(cell(3, 3)), Ok(()));
    assert_eq!(game.next_shot(), Some(cell(3, 3)));
    assert_eq!(game.game().state().turn(), 0);
    assert_eq!(game.player(), &alice());
    assert_eq!(game.confirm_shot(cell(3, 3)), Ok(()));
    assert_eq!(game.next_shot(), Some(cell(3, 3)));
    game.end_turn();
    assert_eq!(game.next_shot(), None);
}

#[test]
fn no_shot_while_one_is_pending() {
    let mut game = full_game();
    assert_eq!(game.shoot(cell(3, 3)), Ok(()));
    let before = game.game().state().clone();
    assert_eq!(game.shoot(cell(4, 4)), Err(GameError::ShotAlreadyPending));
    assert_eq!(game.shoot(cell(3, 3)), Err(GameError::ShotAlreadyPending));
    assert_eq!(game.game().state(), &before);
    assert_eq!(game.next_shot(), Some(cell(3, 3)));
}

#[test]
fn no_confirmation_without_a_shot() {
    let mut game = full_game();
    let before = game.game().state().clone();
    assert_eq!(game.confirm_shot(cell(3, 3)), Err(GameError::NoShotPending));
    assert_eq!(game.game().state(), &before);
    assert_eq!(game.shoot(cell(3, 3)), Ok(()));
    assert_eq!(game.confirm_shot(cell(3, 3)), Ok(()));
    game.end_turn();
    assert_eq!(game.confirm_shot(cell(3, 3)), Err(GameError::NoShotPending));
}

#[test]
fn confirmed_shot_goes_on_the_record_of_the_shooter() {
    let mut game = full_game();
    assert_eq!(game.shoot(cell(3, 3)), Ok(()));
    assert_eq!(game.confirm_shot(cell(3, 3)), Ok(()));
    let shooter = Pasture::new(rows().herds, vec![cell(3, 3)]);
    assert_eq!(game.player().pasture(&credentials("alice", "wool")), Some(&shooter));
    assert_eq!(game.opponent(), &bob());
    game.end_turn();
    assert_eq!(game.opponent().pasture(&credentials("alice", "wool")), Some(&shooter));
    assert_eq!(game.player(), &bob());
}

#[test]
fn confirmed_coordinates_are_the_ones_recorded() {
    let mut game = full_game();
    assert_eq!(game.shoot(cell(3, 3)), Ok(()));
    assert_eq!(game.confirm_shot(cell(4, 4)), Ok(()));
    let shooter = Pasture::new(rows().herds, vec![cell(4, 4)]);
    assert_eq!(game.player().pasture(&credentials("alice", "wool")), Some(&shooter));
}

#[test]
fn end_of_turn_passes_the_turn() {
    let mut game = full_game();
    for round in 0..6u8 {
        assert_eq!(game.game().state().turn(), round % 2);
        assert_eq!(game.next_shot(), None);
        let shooter = if round % 2 == 0 { alice() } else { bob() };
        assert_eq!(game.player().username(), shooter.username());
        assert_eq!(game.shoot(cell(round, 0)), Ok(()));
        assert_eq!(game.game().state().turn(), round % 2);
        assert_eq!(game.confirm_shot(cell(round, 0)), Ok(()));
        game.end_turn();
        assert_eq!(game.game().state().turn(), (round + 1) % 2);
        assert_eq!(game.opponent().username(), shooter.username());
    }
}

#[test]
fn shots_are_told_apart_by_the_target_they_were_fired_at() {
    let mut game = full_game();
    let fired = [cell(5, 5), cell(0, 0), cell(9, 9), cell(4, 9), cell(5, 6), cell(5, 7), cell(5, 5)];
    for shot in fired {
        assert_eq!(game.shoot(shot), Ok(()));
        assert_eq!(game.confirm_shot(shot), Ok(()));
        game.end_turn();
        assert_eq!(game.shoot(cell(0, 9)), Ok(()));
        assert_eq!(game.confirm_shot(cell(0, 9)), Ok(()));
        game.end_turn();
    }
    assert_eq!(game.player(), &Player::new(String::from("alice"), String::from("wool"), Pasture::new(rows().herds, fired.to_vec())));
    let mine = Shots {
        hits: vec![cell(5, 5), cell(9, 9), cell(5, 6), cell(5, 5)],
        misses: vec![cell(0, 0), cell(4, 9), cell(5, 7)],
    };
    assert_eq!(game.get_player_shots(), mine);
    assert_eq!(game.get_opponent_shots(), Shots { hits: Vec::new(), misses: vec![cell(0, 9); 7] });
    assert_eq!(game.shoot(cell(1, 1)), Ok(()));
    assert_eq!(game.confirm_shot(cell(1, 1)), Ok(()));
    game.end_turn();
    assert_eq!(game.get_opponent_shots().hits, mine.hits);
    assert_eq!(game.get_opponent_shots().misses, vec![cell(0, 0), cell(4, 9), cell(5, 7), cell(1, 1)]);
    assert_eq!(game.get_player_shots().misses, vec![cell(0, 9); 7]);
}

#[test]
fn shots_at_the_other_pasture_hit_its_herds() {
    let mut game = full_game();
    assert_eq!(game.shoot(cell(0, 0)), Ok(()));
    assert_eq!(game.confirm_shot(cell(0, 0)), Ok(()));
    game.end_turn();
    assert_eq!(game.shoot(cell(0, 0)), Ok(()));
    assert_eq!(game.confirm_shot(cell(0, 0)), Ok(()));
    game.end_turn();
    assert_eq!(game.get_player_shots(), Shots { hits: Vec::new(), misses: vec![cell(0, 0)] });
    assert_eq!(game.get_opponent_shots(), Shots { hits: vec![cell(0, 0)], misses: Vec::new() });
}

#[test]
fn telling_shots_apart_again_gives_the_same() {
    let mut game = full_game();
    for shot in [cell(5, 5), cell(0, 0), cell(9, 9)] {
        assert_eq!(game.shoot(shot), Ok(()));
        assert_eq!(game.confirm_shot(shot), Ok(()));
        game.end_turn();
    }
    let before = game.game().state().clone();
    let once = game.get_player_shots();
    let again = game.get_player_shots();
    assert_eq!(once, again);
    let once = game.get_opponent_shots();
    let again = game.get_opponent_shots();
    assert_eq!(once, again);
    assert_eq!(game.game().state(), &before);
}

#[test]
fn hits_and_misses_make_up_the_shots() {
    let mut game = full_game();
    let mut fired = Vec::new();
    for x in 0..10u8 {
        for y in [0u8, 5, 9] {
            fired.push(cell(x, y));
            assert_eq!(game.shoot(cell(x, y)), Ok(()));
            assert_eq!(game.confirm_shot(cell(x, y)), Ok(()));
            game.end_turn();
            game.end_turn();
        }
    }
    let shots = game.get_player_shots();
    assert_eq!(shots.hits.len() + shots.misses.len(), fired.len());
    let target = columns();
    assert!(shots.hits.iter().all(|shot| target.is_hit(*shot)));
    assert!(shots.misses.iter().all(|shot| !target.is_hit(*shot)));
    let hits: Vec<Coords> = fired.iter().copied().filter(|shot| target.is_hit(*shot)).collect();
    let misses: Vec<Coords> = fired.iter().copied().filter(|shot| !target.is_hit(*shot)).collect();
    assert_eq!(shots, Shots { hits, misses });
    assert_eq!(shots.hits.len(), 6);
}

#[test]
fn player_can_be_changed_in_place() {
    let mut game = full_game();
    let carol = Player::new(String::from("carol"), String::from("crook"), columns());
    *game.player_mut() = carol.clone();
    assert_eq!(game.player(), &carol);
    assert_eq!(game.opponent(), &bob());
    *game.opponent_mut() = alice();
    assert_eq!(game.player(), &carol);
    assert_eq!(game.opponent(), &alice());
    game.end_turn();
    assert_eq!(game.player(), &alice());
    assert_eq!(game.player_mut().username(), "alice");
    assert_eq!(game.opponent_mut().username(), "carol");
}

#[test]
fn full_game_gives_its_game_back() {
    let mut game = full_game();
    assert_eq!(game.shoot(cell(3, 3)), Ok(()));
    let expected = game.game().state().clone();
    let game = game.into_game();
    assert_eq!(game.name(), "g1");
    assert_eq!(game.state().next_shot(), Some(cell(3, 3)));
    assert_eq!(game.into_state(), expected);
}

#[test]
fn copies_are_equal_to_what_they_were_made_from() {
    let pasture = Pasture::new(rows().herds, vec![cell(1, 2), cell(3, 4)]);
    assert_eq!(pasture.clone(), pasture);
    let player = Player::new(String::from("zoë"), String::from("brebis"), pasture);
    assert_eq!(player.clone(), player);
    let mut game = full_game();
    assert_eq!(game.shoot(cell(3, 3)), Ok(()));
    let copy = game.clone();
    assert_eq!(copy.game().name(), game.game().name());
    assert_eq!(copy.game().state(), game.game().state());
    assert_eq!(copy.next_shot(), Some(cell(3, 3)));
    let state = game.game().state().clone();
    assert_eq!(&state, game.game().state());
    let named = game.game().clone();
    assert_eq!(named.name(), "g1");
    assert_eq!(named.state(), &state);
    assert_eq!(GameState::default().clone(), GameState::default());
}

#[test]
fn copy_does_not_follow_the_game_it_was_made_from() {
    let mut game = full_game();
    let copy = game.clone();
    assert_eq!(game.shoot(cell(3, 3)), Ok(()));
    assert_eq!(copy.next_shot(), None);
    assert_eq!(game.next_shot(), Some(cell(3, 3)));
}

#[test]
fn board_types_are_at_hand_beside_the_game() {
    let herd = battlesheep::state::Herd::new(4, 6, 3, battlesheep::state::Orientation::Vertical);
    assert_eq!(herd, Herd::new(4, 6, 3, Orientation::Vertical));
    assert_eq!(herd.end(), battlesheep::state::Coords { x: 4, y: 8 });
    assert_eq!(battlesheep::state::Pasture::default(), Pasture::default());
}

#[test]
fn full_game_gives_its_players_up_by_turn() {
    let (current, waiting) = full_game().into_players();
    assert_eq!(current, alice());
    assert_eq!(waiting, bob());
    let mut game = full_game();
    game.end_turn();
    let (current, waiting) = game.into_players();
    assert_eq!(current, bob());
    assert_eq!(waiting, alice());
}
