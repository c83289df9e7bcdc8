//! The room's single writer: every command is applied to the one state of the room, one at a
//! time, and answered with what the caller is owed.

use crate::game::{Game, Player, Point};
use crate::model::{GameView, PlayerView};
use vstd::prelude::*;

verus! {

/// The owner of one room's state.
#[derive(Clone, Copy, Debug)]
pub struct GameServer;

/// A command to a room.
#[derive(Debug)]
pub enum Message {
    /// A player joins.
    Join(Player),
    /// A player changes name or colour.
    UpdatePlayer(Player),
    /// A player leaves.
    Leave(Player),
    /// The game starts, with this secret word.
    StartGame(String),
    /// The player whose turn it is draws a point.
    Draw(Point),
    /// The player whose turn it is ends the turn.
    DrawEnd,
    /// The first player accuses the second.
    VoteFake(Player, Player),
    /// A player says something.
    Chat(Player, String),
}

/// Value of a command.
pub enum MessageView {
    Join(PlayerView),
    UpdatePlayer(PlayerView),
    Leave(PlayerView),
    StartGame(Seq<char>),
    Draw(Point),
    DrawEnd,
    VoteFake(PlayerView, PlayerView),
    Chat(PlayerView, Seq<char>),
}

impl View for Message {
    type V = MessageView;

    open spec fn view(&self) -> MessageView {
        match self {
            Message::Join(player) => MessageView::Join(player@),
            Message::UpdatePlayer(player) => MessageView::UpdatePlayer(player@),
            Message::Leave(player) => MessageView::Leave(player@),
            Message::StartGame(word) => MessageView::StartGame(word@),
            Message::Draw(point) => MessageView::Draw(*point),
            Message::DrawEnd => MessageView::DrawEnd,
            Message::VoteFake(player, target) => MessageView::VoteFake(player@, target@),
            Message::Chat(author, message) => MessageView::Chat(author@, message@),
        }
    }
}

/// Why a command cannot be applied. Each is a fault of whoever sent the command, and fatal to
/// the room.
#[derive(Clone, Copy, Debug, PartialEq, Eq, Structural)]
pub enum Fault {
    /// The roster has no entry with the identity of the player to update or remove.
    UnknownPlayer,
    /// The lobby whose game is to start has no player.
    EmptyRoster,
    /// No gesture is under way and the turn pointer names nobody who could start one.
    NoCurrentPlayer,
    /// The round counter is at the end of its range.
    RoundOverflow,
}

/// What a room answers to a command.
#[derive(Debug)]
pub enum Reply {
    /// The state of the room after the command.
    Snapshot(Game),
    /// After the end of a turn: the index of the player whose turn begins, and whether the turn
    /// that ended was the last turn of the game.
    NextTurn(usize, bool),
    /// Nothing.
    Silent,
}

/// Value of an answer.
pub enum ReplyView {
    Snapshot(GameView),
    NextTurn(nat, bool),
    Silent,
}

impl View for Reply {
    type V = ReplyView;

    open spec fn view(&self) -> ReplyView {
        match self {
            Reply::Snapshot(game) => ReplyView::Snapshot(game@),
            Reply::NextTurn(index, last) => ReplyView::NextTurn(*index as nat, *last),
            Reply::Silent => ReplyView::Silent,
        }
    }
}

/// What follows from a command that was applied: the answer, and whether the room closes.
#[derive(Debug)]
pub struct Outcome {
    pub reply: Reply,
    pub stop: bool,
}

/// The fault of applying `message` to `game`, if it is one.
pub open spec fn fault(game: GameView, message: MessageView) -> Option<Fault> {
    match message {
        MessageView::UpdatePlayer(player) | MessageView::Leave(player) => if game.knows(
            player.id,
        ) {
            None
        } else {
            Some(Fault::UnknownPlayer)
        },
        MessageView::StartGame(_) => if game.can_start() {
            None
        } else {
            Some(Fault::EmptyRoster)
        },
        MessageView::Draw(_) => if game.can_draw() {
            None
        } else {
            Some(Fault::NoCurrentPlayer)
        },
        MessageView::DrawEnd => if game.can_end_draw() {
            None
        } else {
            Some(Fault::RoundOverflow)
        },
        _ => None,
    }
}

/// `next` is what `message` makes of `game`. Every command but the start of the game, which
/// leaves the turn order and the fake artist to chance, has one such `next`.
pub open spec fn moves(game: GameView, message: MessageView, next: GameView) -> bool {
    match message {
        MessageView::Join(player) => next == game.add_player(player),
        MessageView::UpdatePlayer(player) => next == game.update_player(player),
        MessageView::Leave(player) => next == game.remove_player(player.id),
        MessageView::StartGame(word) => game.starts(word, next),
        MessageView::Draw(point) => next == game.draw(point),
        MessageView::DrawEnd => next == game.end_draw(),
        MessageView::VoteFake(player, target) => next == game.vote(player.id, target.id),
        MessageView::Chat(author, message) => next == game.add_chat_msg(author, message),
    }
}

/// The answer owed for `message`, which has made `next` of `game`. Commands of the roster, the
/// start and the votes are answered with the new state. The end of a turn during a game is
/// answered with the new turn pointer, and with whether the turn was the last as the state
/// before the command had it. Points and chat are not answered.
pub open spec fn answer(game: GameView, message: MessageView, next: GameView) -> ReplyView {
    match message {
        MessageView::Draw(_) | MessageView::Chat(_, _) => ReplyView::Silent,
        MessageView::DrawEnd => match (game, next) {
            (GameView::InGame(before), GameView::InGame(after)) => ReplyView::NextTurn(
                after.current_player_index,
                before.is_last_turn(),
            ),
            _ => ReplyView::Silent,
        },
        _ => ReplyView::Snapshot(next),
    }
}

/// The room closes when a player leaves and nobody is left.
pub open spec fn closes(message: MessageView, next: GameView) -> bool {
    message is Leave && next.players().len() == 0
}

impl GameServer {
    /// The state of a room that opens: a lobby without players.
    pub fn pre_start(&self) -> (game: Game)
        ensures
            game@ == GameView::new(),
    {
        Game::new()
    }

    /// Applies one command to the room. A command that the state cannot take is refused with
    /// its fault and leaves the room as it was.
    pub fn handle(&self, message: Message, game: &mut Game) -> (res: Result<Outcome, Fault>)
        ensures
            match fault(old(game)@, message@) {
                Some(why) => res == Err::<Outcome, Fault>(why) && final(game)@ == old(game)@,
                None => {
                    &&& res matches Ok(outcome)
                    &&& moves(old(game)@, message@, final(game)@)
                    &&& outcome.reply@ == answer(old(game)@, message@, final(game)@)
                    &&& outcome.stop == closes(message@, final(game)@)
                },
            },
    {
        match message {
            Message::Join(player) => {
                game.add_player(player);
                Ok(Outcome { reply: Reply::Snapshot(game.clone()), stop: false })
            },
            Message::UpdatePlayer(player) => {
                if !game.knows(player.id) {
                    return Err(Fault::UnknownPlayer);
                }
                game.update_player(player);
                Ok(Outcome { reply: Reply::Snapshot(game.clone()), stop: false })
            },
            Message::StartGame(word) => {
                if !game.can_start() {
                    return Err(Fault::EmptyRoster);
                }
                game.start_game(word);
                Ok(Outcome { reply: Reply::Snapshot(game.clone()), stop: false })
            },
            Message::Draw(point) => {
                if !game.can_draw() {
                    return Err(Fault::NoCurrentPlayer);
                }
                game.draw(point);
                Ok(Outcome { reply: Reply::Silent, stop: false })
            },
            Message::DrawEnd => {
                if !game.can_end_draw() {
                    return Err(Fault::RoundOverflow);
                }
                let is_last_turn = if let Game::InGame(game) = game {
                    game.is_last_turn()
                } else {
                    false
                };
                game.end_draw();
                let reply = if let Game::InGame(game) = game {
                    Reply::NextTurn(game.current_player_index(), is_last_turn)
                } else {
                    Reply::Silent
                };
                Ok(Outcome { reply, stop: false })
            },
            Message::VoteFake(player, target) => {
                game.vote(player, target);
                Ok(Outcome { reply: Reply::Snapshot(game.clone()), stop: false })
            },
            Message::Chat(author, message) => {
                if let Game::InGame(game) = game {
                    game.add_chat_msg(author, message.as_str());
                }
                Ok(Outcome { reply: Reply::Silent, stop: false })
            },
            Message::Leave(player) => {
                if !game.knows(player.id) {
                    return Err(Fault::UnknownPlayer);
                }
                game.remove_player(player);
                let stop = game.players().len() == 0;
                Ok(Outcome { reply: Reply::Snapshot(game.clone()), stop })
            },
        }
    }
}

} // verus!
