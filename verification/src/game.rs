//! The room's data and the operations that move it from phase to phase.

use crate::chance::{fresh_id, pick, shuffle};
use crate::model::{
    has_id, is_position, lemma_position_unique, replaced, without, ChatView, CurveView,
    GameOverView, GameView, InGameView, LobbyView, PlayerView, VoteView,
};
use crate::tally::{accused_majority, majority};
use std::collections::HashMap;
use vstd::prelude::*;

verus! {

/// A point of a drawing: the bit patterns of its two single-precision coordinates.
#[derive(Clone, Copy, Debug, PartialEq, Eq, Structural)]
pub struct Point {
    pub x: u32,
    pub y: u32,
}

/// A participant of a room. The identity never changes; name and colour may.
#[derive(Debug)]
pub struct Player {
    pub id: u128,
    pub name: String,
    pub color: String,
}

impl View for Player {
    type V = PlayerView;

    open spec fn view(&self) -> PlayerView {
        PlayerView { id: self.id, name: self.name@, color: self.color@ }
    }
}

impl Clone for Player {
    fn clone(&self) -> (res: Self)
        ensures
            res == *self,
    {
        Player { id: self.id, name: self.name.clone(), color: self.color.clone() }
    }
}

impl Player {
    /// A player with a fresh random identity and the given name and colour.
    pub fn random(name: String, color: String) -> (res: Self)
        ensures
            res.name == name,
            res.color == color,
            res.id & crate::chance::FORMAT_MASK == crate::chance::RANDOM_FORMAT,
    {
        Player { id: fresh_id(), name, color }
    }
}

/// The values of the players of a roster, in its order.
pub open spec fn roster_view(players: Seq<Player>) -> Seq<PlayerView> {
    players.map_values(|player: Player| player@)
}

/// Copies a roster.
fn clone_roster(players: &Vec<Player>) -> (res: Vec<Player>)
    ensures
        res@ == players@,
{
    let res = players.clone();
    assert(res@ =~= players@);
    res
}

/// Looks for the first player with identity `id`.
fn find_player(players: &Vec<Player>, id: u128) -> (res: Option<usize>)
    ensures
        res is Some <==> has_id(roster_view(players@), id),
        res matches Some(i) ==> is_position(roster_view(players@), id, i as int),
{
    let mut i: usize = 0;
    while i < players.len()
        invariant
            i <= players.len(),
            forall|j: int| 0 <= j < i ==> #[trigger] roster_view(players@)[j].id != id,
        decreases players.len() - i,
    {
        if players[i].id == id {
            assert(roster_view(players@)[i as int].id == id);
            return Some(i);
        }
        i += 1;
    }
    None
}

/// A stroke of a drawing: its points in the order drawn, and a snapshot of who drew it.
#[derive(Debug)]
pub struct Curve {
    points: Vec<Point>,
    author: Player,
}

impl View for Curve {
    type V = CurveView;

    closed spec fn view(&self) -> CurveView {
        CurveView { points: self.points@, author: self.author@ }
    }
}

impl Clone for Curve {
    fn clone(&self) -> (res: Self)
        ensures
            res@ == self@,
    {
        let points = self.points.clone();
        assert(points@ =~= self.points@);
        Curve { points, author: self.author.clone() }
    }
}

impl Curve {
    /// The points of the stroke, in the order drawn.
    pub fn points(&self) -> (res: &Vec<Point>)
        ensures
            res@ == self@.points,
    {
        &self.points
    }

    /// Who drew the stroke, as they were when they began it.
    pub fn author(&self) -> (res: &Player)
        ensures
            res@ == self@.author,
    {
        &self.author
    }
}

/// The values of the curves of a history, in its order.
pub open spec fn curves_view(curves: Seq<Curve>) -> Seq<CurveView> {
    curves.map_values(|curve: Curve| curve@)
}

/// The value of the gesture under way, if there is one.
pub open spec fn gesture_view(curve: Option<Curve>) -> Option<CurveView> {
    match curve {
        Some(curve) => Some(curve@),
        None => None,
    }
}

/// One player's accusation of another.
#[derive(Debug)]
pub struct Vote {
    author: Player,
    target: Player,
}

impl View for Vote {
    type V = VoteView;

    closed spec fn view(&self) -> VoteView {
        VoteView { author: self.author@, target: self.target@ }
    }
}

impl Vote {
    /// The accusation of `target` by `author`.
    pub fn new(author: Player, target: Player) -> (res: Self)
        ensures
            res@ == (VoteView { author: author@, target: target@ }),
    {
        Vote { author, target }
    }

    /// The accuser.
    pub fn author(&self) -> (res: &Player)
        ensures
            res@ == self@.author,
    {
        &self.author
    }

    /// The accused.
    pub fn target(&self) -> (res: &Player)
        ensures
            res@ == self@.target,
    {
        &self.target
    }
}

/// Something a player said, with a snapshot of the player.
#[derive(Debug)]
pub struct ChatMessage {
    author: Player,
    message: String,
}

impl View for ChatMessage {
    type V = ChatView;

    closed spec fn view(&self) -> ChatView {
        ChatView { author: self.author@, message: self.message@ }
    }
}

impl Clone for ChatMessage {
    fn clone(&self) -> (res: Self)
        ensures
            res@ == self@,
    {
        ChatMessage { author: self.author.clone(), message: self.message.clone() }
    }
}

impl ChatMessage {
    /// The message `message` of `author`.
    pub fn new(author: Player, message: &str) -> (res: Self)
        ensures
            res@ == (ChatView { author: author@, message: message@ }),
    {
        Self { author, message: message.to_owned() }
    }

    /// Who said it.
    pub fn author(&self) -> (res: &Player)
        ensures
            res@ == self@.author,
    {
        &self.author
    }

    /// What was said.
    pub fn message(&self) -> (res: &String)
        ensures
            res@ == self@.message,
    {
        &self.message
    }
}

/// The values of the messages of a chat, in its order.
pub open spec fn chat_view(chat: Seq<ChatMessage>) -> Seq<ChatView> {
    chat.map_values(|message: ChatMessage| message@)
}

/// Who won a game.
#[derive(Clone, Copy, Debug, PartialEq, Eq, Structural)]
pub enum Winner {
    FakeArtist,
    RealArtists,
}

/// The winner where the ballots are `votes` and the fake artist has identity `fake_artist`:
/// the real artists if the accused majority is the fake artist, else the fake artist.
pub open spec fn winner_of(votes: Map<u128, u128>, fake_artist: u128) -> Winner {
    if accused_majority(votes) == Some(fake_artist) {
        Winner::RealArtists
    } else {
        Winner::FakeArtist
    }
}

/// Decides the winner from the ballots cast and the identity of the fake artist.
pub fn decide_winner(votes: &HashMap<u128, u128>, fake_artist: u128) -> (res: Winner)
    ensures
        res == winner_of(votes@, fake_artist),
{
    match majority(votes) {
        Some(accused) => {
            if accused == fake_artist {
                Winner::RealArtists
            } else {
                Winner::FakeArtist
            }
        },
        None => Winner::FakeArtist,
    }
}

/// A room that waits for its game to start.
#[derive(Debug)]
pub struct LobbyState {
    players: Vec<Player>,
}

impl View for LobbyState {
    type V = LobbyView;

    closed spec fn view(&self) -> LobbyView {
        LobbyView { players: roster_view(self.players@) }
    }
}

impl Clone for LobbyState {
    fn clone(&self) -> (res: Self)
        ensures
            res@ == self@,
    {
        LobbyState { players: clone_roster(&self.players) }
    }
}

/// A rearranged roster has the rearranged values.
pub proof fn lemma_rearranged_roster(before: Seq<Player>, after: Seq<Player>)
    requires
        before.to_multiset() == after.to_multiset(),
    ensures
        roster_view(before).to_multiset() == roster_view(after).to_multiset(),
    decreases before.len(),
{
    broadcast use vstd::seq_lib::group_to_multiset_ensures;

    vstd::seq_lib::to_multiset_len(before);
    vstd::seq_lib::to_multiset_len(after);
    if before.len() == 0 {
        assert(roster_view(before) =~= roster_view(after));
    } else {
        let last = before.last();
        assert(before.contains(last));
        assert(after.to_multiset().count(last) > 0);
        assert(after.contains(last));
        let k = choose|k: int| 0 <= k < after.len() && after[k] == last;
        let shorter_before = before.drop_last();
        let shorter_after = after.remove(k);
        assert(before =~= shorter_before.push(last));
        assert(shorter_after.to_multiset() =~= after.to_multiset().remove(last));
        assert(shorter_before.to_multiset().insert(last) =~= before.to_multiset());
        assert(shorter_before.to_multiset() =~= before.to_multiset().remove(last));
        lemma_rearranged_roster(shorter_before, shorter_after);
        assert(roster_view(before) =~= roster_view(shorter_before).push(last@));
        assert(roster_view(shorter_after) =~= roster_view(after).remove(k));
        assert(roster_view(after)[k] == last@);
        assert(roster_view(after) =~= roster_view(shorter_after).insert(k, last@));
        vstd::seq_lib::to_multiset_insert(roster_view(shorter_after), k, last@);
    }
}

impl LobbyState {
    /// A lobby without players.
    pub fn new() -> (res: Self)
        ensures
            res@ == (LobbyView { players: Seq::empty() }),
    {
        let res = LobbyState { players: Vec::new() };
        assert(roster_view(res.players@) =~= Seq::empty());
        res
    }

    /// A copy of the roster.
    fn players(&self) -> (res: Vec<Player>)
        ensures
            roster_view(res@) == self@.players,
    {
        clone_roster(&self.players)
    }

    /// Starts the game with secret word `word`: shuffles the roster into the turn order, picks
    /// the fake artist among the players, and hands out the game in its first turn. The lobby
    /// keeps the shuffled roster.
    pub fn next(&mut self, word: String) -> (game: Game)
        requires
            old(self)@.players.len() > 0,
        ensures
            GameView::Lobby(old(self)@).starts(word@, game@),
            final(self)@.players == game@.players(),
    {
        let ghost before = self.players@;
        shuffle(&mut self.players);
        proof {
            lemma_rearranged_roster(before, self.players@);
            vstd::seq_lib::to_multiset_len(before);
            vstd::seq_lib::to_multiset_len(self.players@);
        }
        let fake_artist = self.random_player();
        Game::InGame(InGameState::new(clone_roster(&self.players), fake_artist, word))
    }

    /// A copy of one of the players, picked at random.
    fn random_player(&self) -> (res: Player)
        requires
            self@.players.len() > 0,
        ensures
            self@.players.contains(res@),
    {
        let player = match pick(&self.players) {
            Some(player) => player,
            None => &self.players[0],
        };
        proof {
            let i = choose|i: int| 0 <= i < self.players@.len() && self.players@[i] == *player;
            assert(roster_view(self.players@)[i] == player@);
        }
        player.clone()
    }

    /// Appends the player to the roster.
    fn add_player(&mut self, player: Player)
        ensures
            final(self)@.players == old(self)@.players.push(player@),
    {
        self.players.push(player);
        assert(roster_view(self.players@) =~= roster_view(old(self).players@).push(player@));
    }

    /// Takes the first entry with the identity of `player` off the roster.
    fn remove_player(&mut self, player: Player)
        requires
            has_id(old(self)@.players, player.id),
        ensures
            final(self)@.players == without(old(self)@.players, player.id),
    {
        remove_from(&mut self.players, player.id);
    }

    /// Puts `player` in the place of the first entry with the same identity.
    fn update_player(&mut self, player: Player)
        requires
            has_id(old(self)@.players, player.id),
        ensures
            final(self)@.players == replaced(old(self)@.players, player@),
    {
        replace_in(&mut self.players, player);
    }
}

/// Takes the first player with identity `id` out of the roster.
fn remove_from(players: &mut Vec<Player>, id: u128)
    requires
        has_id(roster_view(old(players)@), id),
    ensures
        roster_view(final(players)@) == without(roster_view(old(players)@), id),
{
    match find_player(players, id) {
        Some(index) => {
            proof {
                lemma_position_unique(roster_view(players@), id, index as int);
            }
            players.remove(index);
            assert(roster_view(players@) =~= roster_view(old(players)@).remove(index as int));
        },
        None => {},
    }
}

/// Puts `player` in the place of the first player with the same identity.
fn replace_in(players: &mut Vec<Player>, player: Player)
    requires
        has_id(roster_view(old(players)@), player.id),
    ensures
        roster_view(final(players)@) == replaced(roster_view(old(players)@), player@),
{
    match find_player(players, player.id) {
        Some(index) => {
            proof {
                lemma_position_unique(roster_view(players@), player.id, index as int);
            }
            players[index] = player;
            assert(roster_view(players@) =~= roster_view(old(players)@).update(
                index as int,
                player@,
            ));
        },
        None => {},
    }
}

/// A room whose game runs.
#[derive(Debug)]
pub struct InGameState {
    players: Vec<Player>,
    current_player_index: usize,
    curves: Vec<Curve>,
    current_curve: Option<Curve>,
    current_round: u8,
    max_rounds: u8,
    word: String,
    fake_artist: Player,
    spectators: Vec<Player>,
    chat: Vec<ChatMessage>,
    votes: HashMap<u128, u128>,
}

impl View for InGameState {
    type V = InGameView;

    closed spec fn view(&self) -> InGameView {
        InGameView {
            players: roster_view(self.players@),
            current_player_index: self.current_player_index as nat,
            curves: curves_view(self.curves@),
            current_curve: gesture_view(self.current_curve),
            current_round: self.current_round as nat,
            max_rounds: self.max_rounds as nat,
            word: self.word@,
            fake_artist: self.fake_artist@,
            spectators: roster_view(self.spectators@),
            chat: chat_view(self.chat@),
            votes: self.votes@,
        }
    }
}

/// A room whose game has ended.
#[derive(Debug)]
pub struct GameOverState {
    players: Vec<Player>,
    winner: Winner,
    fake_artist: Player,
}

impl View for GameOverState {
    type V = GameOverView;

    closed spec fn view(&self) -> GameOverView {
        GameOverView {
            players: roster_view(self.players@),
            winner: self.winner,
            fake_artist: self.fake_artist@,
        }
    }
}

/// A room, in the one phase it is in.
#[derive(Debug)]
pub enum Game {
    Lobby(LobbyState),
    InGame(InGameState),
    GameOver(GameOverState),
}

impl View for Game {
    type V = GameView;

    open spec fn view(&self) -> GameView {
        match self {
            Game::Lobby(lobby) => GameView::Lobby(lobby@),
            Game::InGame(in_game) => GameView::InGame(in_game@),
            Game::GameOver(game_over) => GameView::GameOver(game_over@),
        }
    }
}

impl InGameState {
    /// The game as it starts: `players` in turn order, the first player's turn in the first
    /// round, nothing drawn, said or voted yet.
    pub fn new(players: Vec<Player>, fake_artist: Player, word: String) -> (res: Self)
        requires
            roster_view(players@).contains(fake_artist@),
        ensures
            res@ == InGameView::fresh(roster_view(players@), fake_artist@, word@),
    {
        let res = InGameState {
            players,
            current_round: 1,
            max_rounds: 2,
            current_player_index: 0,
            curves: Vec::new(),
            current_curve: None,
            word,
            fake_artist,
            spectators: Vec::new(),
            chat: Vec::new(),
            votes: HashMap::new(),
        };
        assert(curves_view(res.curves@) =~= Seq::empty());
        assert(roster_view(res.spectators@) =~= Seq::empty());
        assert(chat_view(res.chat@) =~= Seq::empty());
        res
    }
}

impl Clone for InGameState {
    fn clone(&self) -> (res: Self)
        ensures
            res@ == self@,
    {
        let curves = self.curves.clone();
        assert(curves_view(curves@) =~= curves_view(self.curves@));
        let current_curve = match &self.current_curve {
            Some(curve) => Some(curve.clone()),
            None => None,
        };
        let chat = self.chat.clone();
        assert(chat_view(chat@) =~= chat_view(self.chat@));
        InGameState {
            players: clone_roster(&self.players),
            current_player_index: self.current_player_index,
            curves,
            current_curve,
            current_round: self.current_round,
            max_rounds: self.max_rounds,
            word: self.word.clone(),
            fake_artist: self.fake_artist.clone(),
            spectators: clone_roster(&self.spectators),
            chat,
            votes: self.votes.clone(),
        }
    }
}

impl InGameState {
    /// The end of the game if everyone has voted, and nothing otherwise.
    fn next(&self) -> (res: Option<Game>)
        ensures
            match self@.verdict() {
                Some(game_over) => res matches Some(game) && game@ == GameView::GameOver(game_over),
                None => res is None,
            },
    {
        let winner = decide_winner(&self.votes, self.fake_artist.id);
        if self.votes.len() >= self.players.len() {
            Some(
                Game::GameOver(
                    GameOverState {
                        players: clone_roster(&self.players),
                        fake_artist: self.fake_artist.clone(),
                        winner,
                    },
                ),
            )
        } else {
            None
        }
    }

    /// A copy of the turn order.
    fn players(&self) -> (res: Vec<Player>)
        ensures
            roster_view(res@) == self@.players,
    {
        clone_roster(&self.players)
    }

    /// A copy of the spectators, in the order in which they joined.
    fn spectators(&self) -> (res: Vec<Player>)
        ensures
            roster_view(res@) == self@.spectators,
    {
        clone_roster(&self.spectators)
    }

    /// Lets the player in as a spectator.
    fn add_player(&mut self, player: Player)
        ensures
            final(self)@ == (InGameView {
                spectators: old(self)@.spectators.push(player@),
                ..old(self)@
            }),
    {
        self.spectators.push(player);
        assert(roster_view(self.spectators@) =~= roster_view(old(self).spectators@).push(player@));
    }

    /// Takes the first entry with the identity of `player` off the turn order. The turn
    /// pointer stays where it is.
    fn remove_player(&mut self, player: Player)
        requires
            has_id(old(self)@.players, player.id),
        ensures
            final(self)@ == (InGameView {
                players: without(old(self)@.players, player.id),
                ..old(self)@
            }),
    {
        remove_from(&mut self.players, player.id);
    }

    /// Puts `player` in the place of the first entry of the turn order with the same identity.
    fn update_player(&mut self, player: Player)
        requires
            has_id(old(self)@.players, player.id),
        ensures
            final(self)@ == (InGameView {
                players: replaced(old(self)@.players, player@),
                ..old(self)@
            }),
    {
        replace_in(&mut self.players, player);
    }

    /// The player whose turn it is.
    pub fn current_player(&self) -> (res: Player)
        requires
            self@.turn_in_range(),
        ensures
            res@ == self@.current_player(),
    {
        self.players[self.current_player_index].clone()
    }

    /// Appends a message to the chat.
    pub fn add_chat_msg(&mut self, author: Player, message: &str)
        ensures
            final(self)@ == old(self)@.add_chat_msg(author@, message@),
    {
        let said = ChatMessage { author, message: message.to_owned() };
        self.chat.push(said);
        assert(chat_view(self.chat@) =~= chat_view(old(self).chat@).push(said@));
    }

    /// Adds a point to the gesture under way, or begins a gesture of the current player.
    fn draw(&mut self, point: Point)
        requires
            old(self)@.can_draw(),
        ensures
            final(self)@ == old(self)@.draw(point),
    {
        match self.current_curve.take() {
            Some(mut curve) => {
                curve.points.push(point);
                self.current_curve = Some(curve);
            },
            None => {
                self.current_curve = Some(
                    Curve { points: vec![point], author: self.current_player() },
                );
                assert(self.current_curve->0.points@ =~= seq![point]);
            },
        }
    }

    /// Seals the gesture under way, if any, and passes the turn on.
    fn end_draw(&mut self)
        requires
            old(self)@.can_end_draw(),
        ensures
            final(self)@ == old(self)@.end_draw(),
    {
        if let Some(curve) = self.current_curve.take() {
            self.curves.push(curve);
            assert(curves_view(self.curves@) =~= curves_view(old(self).curves@).push(curve@));
        }
        if self.players.len() > 0 && self.current_player_index < self.players.len() - 1 {
            self.current_player_index += 1;
        } else {
            self.current_player_index = 0;
            self.current_round += 1;
        }
    }

    /// Whether the last round is played and its last player is drawing.
    pub fn is_last_turn(&self) -> (res: bool)
        ensures
            res == self@.is_last_turn(),
    {
        self.current_round == self.max_rounds && self.players.len() > 0
            && self.current_player_index == self.players.len() - 1
    }

    /// Records that `player` accuses `target`, and hands out the end of the game if that
    /// completes the poll.
    fn vote(&mut self, player: Player, target: Player) -> (res: Option<Game>)
        ensures
            final(self)@ == old(self)@.cast(player.id, target.id),
            match final(self)@.verdict() {
                Some(game_over) => res matches Some(game) && game@ == GameView::GameOver(game_over),
                None => res is None,
            },
    {
        let player_id: u128 = player.id;
        let target_id: u128 = target.id;
        self.votes.insert(player_id, target_id);
        self.next()
    }

    /// The index in the turn order of the player whose turn it is.
    pub fn current_player_index(&self) -> (res: usize)
        ensures
            res == self@.current_player_index,
    {
        self.current_player_index
    }

    /// The ballots cast so far: for each accuser who has voted, the identity accused.
    pub fn votes(&self) -> (res: &HashMap<u128, u128>)
        ensures
            res@ == self@.votes,
    {
        &self.votes
    }

    /// The round that is played, counted from one.
    pub fn current_round(&self) -> (res: u8)
        ensures
            res == self@.current_round,
    {
        self.current_round
    }

    /// The number of rounds of the game.
    pub fn max_rounds(&self) -> (res: u8)
        ensures
            res == self@.max_rounds,
    {
        self.max_rounds
    }

    /// The curves drawn and sealed so far, oldest first.
    pub fn curves(&self) -> (res: &Vec<Curve>)
        ensures
            curves_view(res@) == self@.curves,
    {
        &self.curves
    }

    /// The gesture under way, if there is one.
    pub fn current_curve(&self) -> (res: &Option<Curve>)
        ensures
            gesture_view(*res) == self@.current_curve,
    {
        &self.current_curve
    }

    /// The secret word.
    pub fn word(&self) -> (res: &String)
        ensures
            res@ == self@.word,
    {
        &self.word
    }

    /// The player who does not know the secret word.
    pub fn fake_artist(&self) -> (res: &Player)
        ensures
            res@ == self@.fake_artist,
    {
        &self.fake_artist
    }

    /// What has been said, oldest first.
    pub fn chat(&self) -> (res: &Vec<ChatMessage>)
        ensures
            chat_view(res@) == self@.chat,
    {
        &self.chat
    }
}

impl Clone for GameOverState {
    fn clone(&self) -> (res: Self)
        ensures
            res@ == self@,
    {
        GameOverState {
            players: clone_roster(&self.players),
            winner: self.winner,
            fake_artist: self.fake_artist.clone(),
        }
    }
}

impl GameOverState {
    /// A copy of the roster with which the game ended.
    fn players(&self) -> (res: Vec<Player>)
        ensures
            roster_view(res@) == self@.players,
    {
        clone_roster(&self.players)
    }

    /// Who won.
    pub fn winner(&self) -> (res: Winner)
        ensures
            res == self@.winner,
    {
        self.winner
    }

    /// The player who did not know the secret word.
    pub fn fake_artist(&self) -> (res: &Player)
        ensures
            res@ == self@.fake_artist,
    {
        &self.fake_artist
    }
}

impl Clone for Game {
    fn clone(&self) -> (res: Self)
        ensures
            res@ == self@,
    {
        match self {
            Game::Lobby(lobby) => Game::Lobby(lobby.clone()),
            Game::InGame(in_game) => Game::InGame(in_game.clone()),
            Game::GameOver(game_over) => Game::GameOver(game_over.clone()),
        }
    }
}

impl Game {
    /// A room as it is created: a lobby without players.
    pub fn new() -> (res: Self)
        ensures
            res@ == GameView::new(),
    {
        Game::Lobby(LobbyState::new())
    }

    /// The roster of the phase. During a game it is the turn order, without the spectators.
    pub fn players(&self) -> (res: Vec<Player>)
        ensures
            roster_view(res@) == self@.players(),
    {
        match self {
            Game::Lobby(lobby) => lobby.players(),
            Game::InGame(in_game) => in_game.players(),
            Game::GameOver(game_over) => game_over.players(),
        }
    }

    /// Those who joined after the game had started.
    pub fn spectators(&self) -> (res: Vec<Player>)
        ensures
            roster_view(res@) == self@.spectators(),
    {
        match self {
            Game::InGame(in_game) => in_game.spectators(),
            _ => {
                let res: Vec<Player> = Vec::new();
                assert(roster_view(res@) =~= Seq::empty());
                res
            },
        }
    }

    /// Lets a player in: into the roster of a lobby, among the spectators of a game. After the
    /// game nobody is let in.
    pub fn add_player(&mut self, player: Player)
        ensures
            final(self)@ == old(self)@.add_player(player@),
    {
        match self {
            Game::Lobby(lobby) => {
                lobby.add_player(player);
            },
            Game::InGame(in_game) => {
                in_game.add_player(player)
            },
            _ => (),
        }
    }

    /// Whether the phase has a roster entry with identity `id` to update or remove, or needs
    /// none because it ignores updates and removals.
    pub fn knows(&self, id: u128) -> (res: bool)
        ensures
            res == self@.knows(id),
    {
        match self {
            Game::Lobby(lobby) => find_player(&lobby.players, id).is_some(),
            Game::InGame(in_game) => find_player(&in_game.players, id).is_some(),
            Game::GameOver(_) => true,
        }
    }

    /// Takes the first roster entry with the identity of `player` out of a lobby or a game.
    pub fn remove_player(&mut self, player: Player)
        requires
            old(self)@.knows(player.id),
        ensures
            final(self)@ == old(self)@.remove_player(player.id),
    {
        match self {
            Game::Lobby(lobby) => lobby.remove_player(player),
            Game::InGame(in_game) => in_game.remove_player(player),
            _ => (),
        }
    }

    /// Gives the first roster entry with the identity of `player` its name and colour.
    pub fn update_player(&mut self, player: Player)
        requires
            old(self)@.knows(player.id),
        ensures
            final(self)@ == old(self)@.update_player(player@),
    {
        match self {
            Game::Lobby(lobby) => lobby.update_player(player),
            Game::InGame(in_game) => in_game.update_player(player),
            _ => (),
        }
    }

    /// Whether the room is a lobby with a player in it, whose game can start, or is in a phase
    /// that ignores the start.
    pub fn can_start(&self) -> (res: bool)
        ensures
            res == self@.can_start(),
    {
        match self {
            Game::Lobby(lobby) => lobby.players.len() > 0,
            _ => true,
        }
    }

    /// Starts the game of a lobby with secret word `word`: the roster, shuffled, becomes the
    /// turn order, and one of the players the fake artist. Nothing happens in the other phases.
    pub fn start_game(&mut self, word: String)
        requires
            old(self)@.can_start(),
        ensures
            old(self)@.starts(word@, final(self)@),
    {
        match self {
            Game::Lobby(lobby) => {
                *self = lobby.next(word);
            },
            _ => (),
        }
    }

    /// Whether a point can be drawn, or the phase ignores drawing.
    pub fn can_draw(&self) -> (res: bool)
        ensures
            res == self@.can_draw(),
    {
        match self {
            Game::InGame(in_game) => in_game.current_curve.is_some()
                || in_game.current_player_index < in_game.players.len(),
            _ => true,
        }
    }

    /// Draws a point during a game: onto the gesture under way, or as the first point of a
    /// gesture of the player whose turn it is.
    pub fn draw(&mut self, point: Point)
        requires
            old(self)@.can_draw(),
        ensures
            final(self)@ == old(self)@.draw(point),
    {
        match self {
            Game::InGame(in_game) => in_game.draw(point),
            _ => (),
        }
    }

    /// Whether a turn can end without the round counter leaving its range, or the phase
    /// ignores the end of turns.
    pub fn can_end_draw(&self) -> (res: bool)
        ensures
            res == self@.can_end_draw(),
    {
        match self {
            Game::InGame(in_game) => in_game.current_round < u8::MAX || (in_game.players.len() > 0
                && in_game.current_player_index < in_game.players.len() - 1),
            _ => true,
        }
    }

    /// Ends a turn during a game: seals the gesture under way and passes the turn on.
    pub fn end_draw(&mut self)
        requires
            old(self)@.can_end_draw(),
        ensures
            final(self)@ == old(self)@.end_draw(),
    {
        match self {
            Game::InGame(in_game) => in_game.end_draw(),
            _ => (),
        }
    }

    /// Records during a game that `player` accuses `target`, and ends the game once as many
    /// accusers have voted as the roster has players.
    pub fn vote(&mut self, player: Player, target: Player)
        ensures
            final(self)@ == old(self)@.vote(player.id, target.id),
    {
        match self {
            Game::InGame(in_game) => {
                if let Some(Game::GameOver(game_over)) = in_game.vote(player, target) {
                    *self = Game::GameOver(game_over)
                }
            },
            _ => (),
        }
    }
}

} // verus!
