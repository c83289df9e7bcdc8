use fake_artist::game::{ChatMessage, Game, InGameState, Player, Vote};

fn player(id: u128, name: &str) -> Player {
    Player { id, name: name.to_string(), color: "#112233".to_string() }
}

fn ids(players: &[Player]) -> Vec<u128> {
    players.iter().map(|p| p.id).collect()
}

fn names(players: &[Player]) -> Vec<String> {
    players.iter().map(|p| p.name.clone()).collect()
}

fn running(roster: Vec<Player>, fake: &Player) -> Game {
    Game::InGame(InGameState::new(roster, fake.clone(), "lighthouse".to_string()))
}

#[test]
fn new_room_is_an_empty_lobby() {
    let game = Game::new();
    assert!(matches!(game, Game::Lobby(_)));
    assert!(game.players().is_empty());
    assert!(game.spectators().is_empty());
}

#[test]
fn lobby_keeps_insertion_order() {
    let mut game = Game::new();
    game.add_player(player(1, "Ada"));
    game.add_player(player(2, "Bob"));
    game.add_player(player(3, "Cy"));
    assert_eq!(ids(&game.players()), vec![1, 2, 3]);
    assert_eq!(names(&game.players()), vec!["Ada", "Bob", "Cy"]);
}

#[test]
fn lobby_reflects_net_membership() {
    let mut game = Game::new();
    game.add_player(player(1, "Ada"));
    game.add_player(player(2, "Bob"));
    game.add_player(player(3, "Cy"));
    game.remove_player(player(2, "Bob"));
    game.add_player(player(4, "Di"));
    game.remove_player(player(1, "Ada"));
    game.add_player(player(2, "Bob again"));
    assert_eq!(ids(&game.players()), vec![3, 4, 2]);
    assert_eq!(names(&game.players()), vec!["Cy", "Di", "Bob again"]);
    assert!(matches!(game, Game::Lobby(_)));
}

#[test]
fn remove_goes_by_identity_not_by_name() {
    let mut game = Game::new();
    game.add_player(player(1, "Ada"));
    game.add_player(player(2, "Bob"));
    game.remove_player(player(2, "somebody else"));
    assert_eq!(names(&game.players()), vec!["Ada"]);
}

#[test]
fn remove_takes_the_first_of_equal_identities() {
    let mut game = Game::new();
    game.add_player(player(7, "first"));
    game.add_player(player(8, "other"));
    game.add_player(player(7, "second"));
    game.remove_player(player(7, ""));
    assert_eq!(names(&game.players()), vec!["other", "second"]);
}

#[test]
fn update_replaces_name_and_colour_in_place() {
    let mut game = Game::new();
    game.add_player(player(1, "Ada"));
    game.add_player(player(2, "Bob"));
    game.add_player(player(3, "Cy"));
    game.update_player(Player { id: 2, name: "Robert".to_string(), color: "#ffffff".to_string() });
    let players = game.players();
    assert_eq!(ids(&players), vec![1, 2, 3]);
    assert_eq!(players[1].name, "Robert");
    assert_eq!(players[1].color, "#ffffff");
    assert_eq!(players[0].name, "Ada");
    assert_eq!(players[2].color, "#112233");
}

#[test]
fn knows_tells_whether_an_identity_is_on_the_roster() {
    let mut game = Game::new();
    assert!(!game.knows(1));
    game.add_player(player(1, "Ada"));
    assert!(game.knows(1));
    assert!(!game.knows(2));
}

#[test]
fn late_joiners_become_spectators() {
    let a = player(1, "Ada");
    let b = player(2, "Bob");
    let mut game = running(vec![a.clone(), b.clone()], &a);
    game.add_player(player(3, "Cy"));
    game.add_player(player(4, "Di"));
    assert_eq!(ids(&game.players()), vec![1, 2]);
    assert_eq!(ids(&game.spectators()), vec![3, 4]);
    assert!(!game.knows(3));
}

#[test]
fn leaving_a_game_takes_the_player_off_the_turn_order_only() {
    let a = player(1, "Ada");
    let b = player(2, "Bob");
    let c = player(3, "Cy");
    let mut game = running(vec![a.clone(), b.clone(), c.clone()], &b);
    game.add_player(player(9, "Watcher"));
    game.remove_player(b.clone());
    assert_eq!(ids(&game.players()), vec![1, 3]);
    assert_eq!(ids(&game.spectators()), vec![9]);
    match &game {
        Game::InGame(state) => {
            assert_eq!(state.fake_artist().id, 2);
            assert_eq!(state.current_player_index(), 0);
            assert_eq!(state.current_round(), 1);
        }
        _ => panic!("the game goes on"),
    }
}

#[test]
fn update_during_a_game_changes_the_turn_order_entry() {
    let a = player(1, "Ada");
    let b = player(2, "Bob");
    let mut game = running(vec![a.clone(), b.clone()], &a);
    game.update_player(Player {
        id: 1,
        name: "Countess".to_string(),
        color: "#000000".to_string(),
    });
    assert_eq!(names(&game.players()), vec!["Countess", "Bob"]);
    match &game {
        Game::InGame(state) => assert_eq!(state.fake_artist().name, "Ada"),
        _ => panic!("the game goes on"),
    }
}

#[test]
fn a_finished_game_ignores_the_roster_commands() {
    let a = player(1, "Ada");
    let mut game = running(vec![a.clone()], &a);
    game.vote(a.clone(), a.clone());
    assert!(matches!(game, Game::GameOver(_)));
    game.add_player(player(2, "Bob"));
    game.remove_player(player(1, "Ada"));
    game.remove_player(player(77, "never seen"));
    game.update_player(player(1, "Renamed"));
    assert_eq!(names(&game.players()), vec!["Ada"]);
    assert!(game.spectators().is_empty());
    assert!(game.knows(77));
}

#[test]
fn chat_message_holds_author_and_text() {
    let message = ChatMessage::new(player(5, "Eve"), "is it a boat?");
    assert_eq!(message.author().id, 5);
    assert_eq!(message.author().name, "Eve");
    assert_eq!(message.message(), "is it a boat?");
    let copy = message.clone();
    assert_eq!(copy.message(), "is it a boat?");
    assert_eq!(copy.author().id, 5);
}

#[test]
fn vote_holds_accuser_and_accused() {
    let vote = Vote::new(player(1, "Ada"), player(2, "Bob"));
    assert_eq!(vote.author().id, 1);
    assert_eq!(vote.target().id, 2);
    assert_eq!(vote.target().name, "Bob");
}

#[test]
fn cloned_player_is_a_snapshot() {
    let a = player(1, "Ada");
    let mut b = a.clone();
    b.name = "Changed".to_string();
    assert_eq!(a.name, "Ada");
    assert_eq!(b.id, 1);
    assert_eq!(b.color, "#112233");
}

#[test]
fn random_player_has_a_random_identity_of_version_four() {
    let p = Player::random("Frida".to_string(), "#ff0000".to_string());
    assert_eq!(p.name, "Frida");
    assert_eq!(p.color, "#ff0000");
    assert_eq!((p.id >> 76) & 0xf, 4);
    assert_eq!((p.id >> 62) & 0x3, 2);
    assert_eq!(p.id & fake_artist::chance::FORMAT_MASK, fake_artist::chance::RANDOM_FORMAT);
}

#[test]
fn random_players_have_different_identities() {
    let a = Player::random("Ada".to_string(), "#000000".to_string());
    let b = Player::random("Ada".to_string(), "#000000".to_string());
    assert_ne!(a.id, b.id);
}
