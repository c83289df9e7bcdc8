use fake_artist::game::{Game, InGameState, Player, Point, Winner};
use fake_artist::game_server::{Fault, GameServer, Message, Outcome, Reply};

fn player(id: u128, name: &str) -> Player {
    Player { id, name: name.to_string(), color: "#abcdef".to_string() }
}

fn point(x: f32, y: f32) -> Point {
    Point { x: x.to_bits(), y: y.to_bits() }
}

fn snapshot(outcome: &Outcome) -> &Game {
    match &outcome.reply {
        Reply::Snapshot(game) => game,
        _ => panic!("the command is answered with the state"),
    }
}

fn ids(game: &Game) -> Vec<u128> {
    game.players().iter().map(|p| p.id).collect()
}

#[test]
fn a_room_opens_as_an_empty_lobby() {
    let game = GameServer.pre_start();
    assert!(matches!(game, Game::Lobby(_)));
    assert!(game.players().is_empty());
}

#[test]
fn join_is_answered_with_the_new_state() {
    let server = GameServer;
    let mut game = server.pre_start();
    let outcome = server.handle(Message::Join(player(1, "Ada")), &mut game).unwrap();
    assert!(!outcome.stop);
    assert_eq!(ids(snapshot(&outcome)), vec![1]);
    let outcome = server.handle(Message::Join(player(2, "Bob")), &mut game).unwrap();
    assert_eq!(ids(snapshot(&outcome)), vec![1, 2]);
    assert_eq!(ids(&game), vec![1, 2]);
}

#[test]
fn the_room_closes_when_the_last_player_leaves() {
    let server = GameServer;
    let mut game = server.pre_start();
    server.handle(Message::Join(player(1, "Ada")), &mut game).unwrap();
    server.handle(Message::Join(player(2, "Bob")), &mut game).unwrap();
    let outcome = server.handle(Message::Leave(player(1, "Ada")), &mut game).unwrap();
    assert!(!outcome.stop);
    assert_eq!(ids(snapshot(&outcome)), vec![2]);
    let outcome = server.handle(Message::Leave(player(2, "Bob")), &mut game).unwrap();
    assert!(outcome.stop);
    assert!(ids(snapshot(&outcome)).is_empty());
}

#[test]
fn leaving_unknown_is_a_fault_that_changes_nothing() {
    let server = GameServer;
    let mut game = server.pre_start();
    server.handle(Message::Join(player(1, "Ada")), &mut game).unwrap();
    let res = server.handle(Message::Leave(player(9, "Nobody")), &mut game);
    assert_eq!(res.err(), Some(Fault::UnknownPlayer));
    assert_eq!(ids(&game), vec![1]);
    let res = server.handle(Message::UpdatePlayer(player(9, "Nobody")), &mut game);
    assert_eq!(res.err(), Some(Fault::UnknownPlayer));
    assert_eq!(game.players()[0].name, "Ada");
}

#[test]
fn a_spectator_is_unknown_to_the_turn_order() {
    let server = GameServer;
    let a = player(1, "Ada");
    let mut game = Game::InGame(InGameState::new(vec![a.clone()], a, "reef".to_string()));
    server.handle(Message::Join(player(2, "Bob")), &mut game).unwrap();
    let res = server.handle(Message::Leave(player(2, "Bob")), &mut game);
    assert_eq!(res.err(), Some(Fault::UnknownPlayer));
    assert_eq!(game.spectators().len(), 1);
}

#[test]
fn update_is_answered_with_the_new_state() {
    let server = GameServer;
    let mut game = server.pre_start();
    server.handle(Message::Join(player(1, "Ada")), &mut game).unwrap();
    let outcome = server.handle(Message::UpdatePlayer(player(1, "Lovelace")), &mut game).unwrap();
    assert!(!outcome.stop);
    assert_eq!(snapshot(&outcome).players()[0].name, "Lovelace");
}

#[test]
fn an_empty_lobby_cannot_start() {
    let server = GameServer;
    let mut game = server.pre_start();
    let res = server.handle(Message::StartGame("reef".to_string()), &mut game);
    assert_eq!(res.err(), Some(Fault::EmptyRoster));
    assert!(matches!(game, Game::Lobby(_)));
}

#[test]
fn start_is_answered_with_the_running_game() {
    let server = GameServer;
    let mut game = server.pre_start();
    for id in 1..=4u128 {
        server.handle(Message::Join(player(id, "p")), &mut game).unwrap();
    }
    let outcome = server.handle(Message::StartGame("reef".to_string()), &mut game).unwrap();
    assert!(!outcome.stop);
    match snapshot(&outcome) {
        Game::InGame(state) => {
            assert_eq!(state.word(), "reef");
            assert_eq!(state.current_round(), 1);
            assert_eq!(state.current_player_index(), 0);
            let mut order = ids(snapshot(&outcome));
            assert_eq!(order, ids(&game));
            assert!(order.contains(&state.fake_artist().id));
            order.sort();
            assert_eq!(order, vec![1, 2, 3, 4]);
        }
        _ => panic!("the game runs"),
    }
    let again = server.handle(Message::StartGame("other".to_string()), &mut game).unwrap();
    match snapshot(&again) {
        Game::InGame(state) => assert_eq!(state.word(), "reef"),
        _ => panic!("the game runs"),
    }
}

#[test]
fn points_and_chat_are_not_answered() {
    let server = GameServer;
    let a = player(1, "Ada");
    let b = player(2, "Bob");
    let mut game =
        Game::InGame(InGameState::new(vec![a.clone(), b], a.clone(), "reef".to_string()));
    let outcome = server.handle(Message::Draw(point(1.5, -2.0)), &mut game).unwrap();
    assert!(matches!(outcome.reply, Reply::Silent));
    assert!(!outcome.stop);
    let outcome =
        server.handle(Message::Chat(a.clone(), "hello".to_string()), &mut game).unwrap();
    assert!(matches!(outcome.reply, Reply::Silent));
    match &game {
        Game::InGame(state) => {
            assert_eq!(state.chat().len(), 1);
            assert_eq!(state.chat()[0].message(), "hello");
            let curve = state.current_curve().as_ref().expect("a gesture is under way");
            assert_eq!(curve.points().len(), 1);
            assert_eq!(f32::from_bits(curve.points()[0].x), 1.5);
            assert_eq!(f32::from_bits(curve.points()[0].y), -2.0);
        }
        _ => panic!("the game runs"),
    }
}

#[test]
fn chat_outside_a_game_is_dropped() {
    let server = GameServer;
    let mut game = server.pre_start();
    server.handle(Message::Join(player(1, "Ada")), &mut game).unwrap();
    let outcome =
        server.handle(Message::Chat(player(1, "Ada"), "hello".to_string()), &mut game).unwrap();
    assert!(matches!(outcome.reply, Reply::Silent));
    assert!(matches!(game, Game::Lobby(_)));
}

#[test]
fn the_end_of_a_turn_is_answered_with_the_next_turn() {
    let server = GameServer;
    let a = player(1, "Ada");
    let b = player(2, "Bob");
    let mut game = Game::InGame(InGameState::new(vec![a.clone(), b], a, "reef".to_string()));
    let mut replies = Vec::new();
    for _ in 0..4 {
        let outcome = server.handle(Message::DrawEnd, &mut game).unwrap();
        assert!(!outcome.stop);
        match outcome.reply {
            Reply::NextTurn(index, last) => replies.push((index, last)),
            _ => panic!("the end of a turn is answered with the next turn"),
        }
    }
    assert_eq!(replies, vec![(1, false), (0, false), (1, false), (0, true)]);
}

#[test]
fn the_end_of_a_turn_outside_a_game_is_not_answered() {
    let server = GameServer;
    let mut game = server.pre_start();
    let outcome = server.handle(Message::DrawEnd, &mut game).unwrap();
    assert!(matches!(outcome.reply, Reply::Silent));
    let outcome = server.handle(Message::Draw(point(0.0, 0.0)), &mut game).unwrap();
    assert!(matches!(outcome.reply, Reply::Silent));
    assert!(matches!(game, Game::Lobby(_)));
}

#[test]
fn drawing_without_a_current_player_is_a_fault() {
    let server = GameServer;
    let a = player(1, "Ada");
    let mut game = Game::InGame(InGameState::new(vec![a.clone()], a.clone(), "reef".to_string()));
    let outcome = server.handle(Message::Leave(a), &mut game).unwrap();
    assert!(outcome.stop);
    let res = server.handle(Message::Draw(point(1.0, 1.0)), &mut game);
    assert_eq!(res.err(), Some(Fault::NoCurrentPlayer));
    match &game {
        Game::InGame(state) => assert!(state.current_curve().is_none()),
        _ => panic!("the game runs"),
    }
}

#[test]
fn a_round_counter_at_its_end_is_a_fault() {
    let server = GameServer;
    let a = player(1, "Ada");
    let mut game = Game::InGame(InGameState::new(vec![a.clone()], a, "reef".to_string()));
    for _ in 0..254 {
        server.handle(Message::DrawEnd, &mut game).unwrap();
    }
    let res = server.handle(Message::DrawEnd, &mut game);
    assert_eq!(res.err(), Some(Fault::RoundOverflow));
    match &game {
        Game::InGame(state) => {
            assert_eq!(state.current_round(), 255);
            assert_eq!(state.current_player_index(), 0);
        }
        _ => panic!("the game runs"),
    }
}

#[test]
fn votes_are_answered_with_the_state_they_lead_to() {
    let server = GameServer;
    let a = player(1, "Ada");
    let b = player(2, "Bob");
    let mut game =
        Game::InGame(InGameState::new(vec![a.clone(), b.clone()], b.clone(), "reef".to_string()));
    let outcome = server.handle(Message::VoteFake(a.clone(), b.clone()), &mut game).unwrap();
    assert!(!outcome.stop);
    match snapshot(&outcome) {
        Game::InGame(state) => {
            assert_eq!(state.votes().len(), 1);
            assert_eq!(state.votes().get(&1), Some(&2));
        }
        _ => panic!("one of two has voted"),
    }
    let outcome = server.handle(Message::VoteFake(b.clone(), b.clone()), &mut game).unwrap();
    match snapshot(&outcome) {
        Game::GameOver(over) => {
            assert_eq!(over.winner(), Winner::RealArtists);
            assert_eq!(over.fake_artist().id, 2);
        }
        _ => panic!("both have voted"),
    }
    assert!(matches!(game, Game::GameOver(_)));
}

#[test]
fn a_snapshot_is_a_copy() {
    let server = GameServer;
    let mut game = server.pre_start();
    let first = server.handle(Message::Join(player(1, "Ada")), &mut game).unwrap();
    server.handle(Message::Join(player(2, "Bob")), &mut game).unwrap();
    assert_eq!(ids(snapshot(&first)), vec![1]);
    assert_eq!(ids(&game), vec![1, 2]);
}
