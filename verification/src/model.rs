//! The mathematical model of a room: the value of each data type, and every transition of the
//! room as a function from one such value to the next.

use crate::game::{winner_of, Point, Winner};
use vstd::prelude::*;

verus! {

/// Value of a player: an identity, a display name and a display colour.
pub struct PlayerView {
    pub id: u128,
    pub name: Seq<char>,
    pub color: Seq<char>,
}

/// Value of a curve: its points in the order drawn, and a snapshot of its author.
pub struct CurveView {
    pub points: Seq<Point>,
    pub author: PlayerView,
}

/// Value of a chat message.
pub struct ChatView {
    pub author: PlayerView,
    pub message: Seq<char>,
}

/// Value of a single accusation.
pub struct VoteView {
    pub author: PlayerView,
    pub target: PlayerView,
}

/// `roster` has an entry with identity `id`.
pub open spec fn has_id(roster: Seq<PlayerView>, id: u128) -> bool {
    exists|i: int| 0 <= i < roster.len() && #[trigger] roster[i].id == id
}

/// `i` is the index of the first entry of `roster` with identity `id`.
pub open spec fn is_position(roster: Seq<PlayerView>, id: u128, i: int) -> bool {
    &&& 0 <= i < roster.len()
    &&& roster[i].id == id
    &&& forall|j: int| 0 <= j < i ==> #[trigger] roster[j].id != id
}

/// Index of the first entry of `roster` with identity `id`. Meaningful where `has_id` holds.
pub open spec fn position(roster: Seq<PlayerView>, id: u128) -> int {
    choose|i: int| is_position(roster, id, i)
}

/// A roster with an entry of identity `id` has a first such entry, at `position`.
pub proof fn lemma_position_found(roster: Seq<PlayerView>, id: u128)
    requires
        has_id(roster, id),
    ensures
        is_position(roster, id, position(roster, id)),
{
    let some = choose|i: int| 0 <= i < roster.len() && #[trigger] roster[i].id == id;
    lemma_first_before(roster, id, some);
}

/// An entry with identity `id` has a first entry with that identity at or before it.
proof fn lemma_first_before(roster: Seq<PlayerView>, id: u128, i: int)
    requires
        0 <= i < roster.len(),
        roster[i].id == id,
    ensures
        exists|k: int| is_position(roster, id, k),
    decreases i,
{
    if exists|j: int| 0 <= j < i && #[trigger] roster[j].id == id {
        let j = choose|j: int| 0 <= j < i && #[trigger] roster[j].id == id;
        lemma_first_before(roster, id, j);
    } else {
        assert(is_position(roster, id, i));
    }
}

/// An entry of a roster is at one position only: the first with its identity.
pub proof fn lemma_position_unique(roster: Seq<PlayerView>, id: u128, i: int)
    requires
        is_position(roster, id, i),
    ensures
        has_id(roster, id),
        position(roster, id) == i,
{
    let j = position(roster, id);
    assert(is_position(roster, id, j));
    if j < i {
        assert(roster[j].id != id);
    }
    if i < j {
        assert(roster[i].id != id);
    }
}

/// The roster without its first entry of identity `id`.
pub open spec fn without(roster: Seq<PlayerView>, id: u128) -> Seq<PlayerView> {
    roster.remove(position(roster, id))
}

/// The roster with its first entry of identity `player.id` replaced by `player`.
pub open spec fn replaced(roster: Seq<PlayerView>, player: PlayerView) -> Seq<PlayerView> {
    roster.update(position(roster, player.id), player)
}

/// Value of a room that waits for its game to start.
pub struct LobbyView {
    pub players: Seq<PlayerView>,
}

/// Value of a room whose game runs.
pub struct InGameView {
    pub players: Seq<PlayerView>,
    pub current_player_index: nat,
    pub curves: Seq<CurveView>,
    pub current_curve: Option<CurveView>,
    pub current_round: nat,
    pub max_rounds: nat,
    pub word: Seq<char>,
    pub fake_artist: PlayerView,
    pub spectators: Seq<PlayerView>,
    pub chat: Seq<ChatView>,
    pub votes: Map<u128, u128>,
}

/// Value of a room whose game has ended.
pub struct GameOverView {
    pub players: Seq<PlayerView>,
    pub winner: Winner,
    pub fake_artist: PlayerView,
}

/// Value of a room: exactly one phase at a time.
pub enum GameView {
    Lobby(LobbyView),
    InGame(InGameView),
    GameOver(GameOverView),
}

/// Number of rounds of drawing in every game.
pub open spec fn rounds_per_game() -> nat {
    2
}

impl InGameView {
    /// The game as it starts: `players` in turn order, first round, first player, nothing drawn,
    /// said or voted yet.
    pub open spec fn fresh(
        players: Seq<PlayerView>,
        fake_artist: PlayerView,
        word: Seq<char>,
    ) -> InGameView {
        InGameView {
            players,
            current_player_index: 0,
            curves: Seq::empty(),
            current_curve: None,
            current_round: 1,
            max_rounds: rounds_per_game(),
            word,
            fake_artist,
            spectators: Seq::empty(),
            chat: Seq::empty(),
            votes: Map::empty(),
        }
    }

    /// What holds of every game, from its start on: the rounds are counted from one, their
    /// number is the fixed one, and finitely many accusers have voted.
    pub open spec fn well_formed(self) -> bool {
        &&& self.current_round >= 1
        &&& self.max_rounds == rounds_per_game()
        &&& self.votes.dom().finite()
    }

    /// The turn pointer names a player.
    pub open spec fn turn_in_range(self) -> bool {
        self.current_player_index < self.players.len()
    }

    /// The player whose turn it is. Meaningful where `turn_in_range` holds.
    pub open spec fn current_player(self) -> PlayerView {
        self.players[self.current_player_index as int]
    }

    /// A point can be drawn: a gesture is under way, or the turn pointer names who starts one.
    pub open spec fn can_draw(self) -> bool {
        self.current_curve is Some || self.turn_in_range()
    }

    /// The point joins the gesture under way; the first point of a gesture starts a curve
    /// authored by the player whose turn it is.
    pub open spec fn draw(self, point: Point) -> InGameView {
        let curve = match self.current_curve {
            Some(curve) => CurveView { points: curve.points.push(point), author: curve.author },
            None => CurveView { points: seq![point], author: self.current_player() },
        };
        InGameView { current_curve: Some(curve), ..self }
    }

    /// The turn that ends is the last of its round.
    pub open spec fn turn_wraps(self) -> bool {
        self.current_player_index + 1 >= self.players.len()
    }

    /// The gesture under way, if any, is sealed into the history, and the turn passes on: to
    /// the next player, or to the first player of the next round.
    pub open spec fn end_draw(self) -> InGameView {
        InGameView {
            curves: match self.current_curve {
                Some(curve) => self.curves.push(curve),
                None => self.curves,
            },
            current_curve: None,
            current_player_index: if self.turn_wraps() {
                0
            } else {
                self.current_player_index + 1
            },
            current_round: if self.turn_wraps() {
                self.current_round + 1
            } else {
                self.current_round
            },
            ..self
        }
    }

    /// The turn can end: the round counter stays within a byte.
    pub open spec fn can_end_draw(self) -> bool {
        self.turn_wraps() ==> self.current_round < u8::MAX
    }

    /// The last round is played and its last player is drawing.
    pub open spec fn is_last_turn(self) -> bool {
        self.current_round == self.max_rounds && self.current_player_index + 1
            == self.players.len()
    }

    /// The message is appended to the chat.
    pub open spec fn add_chat_msg(self, author: PlayerView, message: Seq<char>) -> InGameView {
        InGameView { chat: self.chat.push(ChatView { author, message }), ..self }
    }

    /// The accuser's ballot is recorded, in place of an earlier one of the same accuser.
    pub open spec fn cast(self, accuser: u128, accused: u128) -> InGameView {
        InGameView { votes: self.votes.insert(accuser, accused), ..self }
    }

    /// As many accusers have voted as the roster has players.
    pub open spec fn everyone_voted(self) -> bool {
        self.votes.dom().len() >= self.players.len()
    }

    /// The real artists win where the accused majority is the fake artist; else the fake
    /// artist wins.
    pub open spec fn winner(self) -> Winner {
        winner_of(self.votes, self.fake_artist.id)
    }

    /// The end of the game, once everyone has voted.
    pub open spec fn verdict(self) -> Option<GameOverView> {
        if self.everyone_voted() {
            Some(
                GameOverView {
                    players: self.players,
                    winner: self.winner(),
                    fake_artist: self.fake_artist,
                },
            )
        } else {
            None
        }
    }
}

impl GameView {
    /// A room as it is created: a lobby without players.
    pub open spec fn new() -> GameView {
        GameView::Lobby(LobbyView { players: Seq::empty() })
    }

    /// What holds of every room: its game, if one runs, is well formed.
    pub open spec fn well_formed(self) -> bool {
        self matches GameView::InGame(in_game) ==> in_game.well_formed()
    }

    /// The roster of the phase. During a game it is the turn order, without the spectators.
    pub open spec fn players(self) -> Seq<PlayerView> {
        match self {
            GameView::Lobby(lobby) => lobby.players,
            GameView::InGame(in_game) => in_game.players,
            GameView::GameOver(game_over) => game_over.players,
        }
    }

    /// Those who joined after the game had started.
    pub open spec fn spectators(self) -> Seq<PlayerView> {
        match self {
            GameView::InGame(in_game) => in_game.spectators,
            _ => Seq::empty(),
        }
    }

    /// In the lobby the player joins the roster, during a game the spectators; after the game
    /// nobody joins.
    pub open spec fn add_player(self, player: PlayerView) -> GameView {
        match self {
            GameView::Lobby(lobby) => GameView::Lobby(
                LobbyView { players: lobby.players.push(player) },
            ),
            GameView::InGame(in_game) => GameView::InGame(
                InGameView { spectators: in_game.spectators.push(player), ..in_game },
            ),
            GameView::GameOver(_) => self,
        }
    }

    /// The phase looks players up by identity, and its roster has an entry with identity `id`;
    /// or the phase looks nobody up.
    pub open spec fn knows(self, id: u128) -> bool {
        match self {
            GameView::Lobby(lobby) => has_id(lobby.players, id),
            GameView::InGame(in_game) => has_id(in_game.players, id),
            GameView::GameOver(_) => true,
        }
    }

    /// The first roster entry with identity `id` leaves. After the game nobody leaves.
    pub open spec fn remove_player(self, id: u128) -> GameView {
        match self {
            GameView::Lobby(lobby) => GameView::Lobby(
                LobbyView { players: without(lobby.players, id) },
            ),
            GameView::InGame(in_game) => GameView::InGame(
                InGameView { players: without(in_game.players, id), ..in_game },
            ),
            GameView::GameOver(_) => self,
        }
    }

    /// The first roster entry with the identity of `player` takes its name and colour.
    pub open spec fn update_player(self, player: PlayerView) -> GameView {
        match self {
            GameView::Lobby(lobby) => GameView::Lobby(
                LobbyView { players: replaced(lobby.players, player) },
            ),
            GameView::InGame(in_game) => GameView::InGame(
                InGameView { players: replaced(in_game.players, player), ..in_game },
            ),
            GameView::GameOver(_) => self,
        }
    }

    /// The game can start: the room is a lobby with a player in it. In the other phases
    /// starting changes nothing, which is always possible.
    pub open spec fn can_start(self) -> bool {
        self matches GameView::Lobby(lobby) ==> lobby.players.len() > 0
    }

    /// `next` is what a start with secret word `word` makes of this room: a lobby
    /// becomes a fresh game whose turn order is a rearrangement of the lobby's roster and whose
    /// fake artist is one of its players; a room in another phase stays as it is.
    pub open spec fn starts(self, word: Seq<char>, next: GameView) -> bool {
        match self {
            GameView::Lobby(lobby) => {
                &&& next matches GameView::InGame(in_game)
                &&& in_game == InGameView::fresh(in_game.players, in_game.fake_artist, word)
                &&& in_game.players.to_multiset() == lobby.players.to_multiset()
                &&& in_game.players.contains(in_game.fake_artist)
            },
            _ => next == self,
        }
    }

    /// A point can be drawn, or the phase ignores drawing.
    pub open spec fn can_draw(self) -> bool {
        self matches GameView::InGame(in_game) ==> in_game.can_draw()
    }

    /// A point is drawn during a game; the other phases ignore it.
    pub open spec fn draw(self, point: Point) -> GameView {
        match self {
            GameView::InGame(in_game) => GameView::InGame(in_game.draw(point)),
            _ => self,
        }
    }

    /// A turn can end, or the phase ignores the end of turns.
    pub open spec fn can_end_draw(self) -> bool {
        self matches GameView::InGame(in_game) ==> in_game.can_end_draw()
    }

    /// A turn ends during a game; the other phases ignore it.
    pub open spec fn end_draw(self) -> GameView {
        match self {
            GameView::InGame(in_game) => GameView::InGame(in_game.end_draw()),
            _ => self,
        }
    }

    /// During a game the ballot is recorded, and the game ends once everyone has voted; the
    /// other phases ignore it.
    pub open spec fn vote(self, accuser: u128, accused: u128) -> GameView {
        match self {
            GameView::InGame(in_game) => {
                let polled = in_game.cast(accuser, accused);
                match polled.verdict() {
                    Some(game_over) => GameView::GameOver(game_over),
                    None => GameView::InGame(polled),
                }
            },
            _ => self,
        }
    }

    /// A message is said during a game; the other phases ignore it.
    pub open spec fn add_chat_msg(self, author: PlayerView, message: Seq<char>) -> GameView {
        match self {
            GameView::InGame(in_game) => GameView::InGame(in_game.add_chat_msg(author, message)),
            _ => self,
        }
    }
}

} // verus!
