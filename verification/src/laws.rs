//! What holds of the room over any number of commands.

use crate::game::Winner;
use crate::game_server::{moves, MessageView};
use crate::model::{lemma_position_found, position, GameView, InGameView, PlayerView};
use crate::tally::{accused_majority, leads, lemma_leader_unique, lemma_majority_exists};
use vstd::arithmetic::div_mod::{
    lemma_fundamental_div_mod, lemma_fundamental_div_mod_converse, lemma_mod_bound,
};
use vstd::prelude::*;

verus! {

/// A change of a lobby's roster: a player joins, or the player with an identity leaves.
pub enum RosterOp {
    Join(PlayerView),
    Leave(u128),
}

impl RosterOp {
    /// The room after the change.
    pub open spec fn apply(self, game: GameView) -> GameView {
        match self {
            RosterOp::Join(player) => game.add_player(player),
            RosterOp::Leave(id) => game.remove_player(id),
        }
    }
}

/// The room after the changes `ops`, made in their order.
pub open spec fn after_ops(game: GameView, ops: Seq<RosterOp>) -> GameView
    decreases ops.len(),
{
    if ops.len() == 0 {
        game
    } else {
        ops.last().apply(after_ops(game, ops.drop_last()))
    }
}

/// Whoever leaves is on the roster when leaving.
pub open spec fn leavers_known(game: GameView, ops: Seq<RosterOp>) -> bool
    decreases ops.len(),
{
    ops.len() == 0 || {
        &&& leavers_known(game, ops.drop_last())
        &&& ops.last() matches RosterOp::Leave(id) ==> after_ops(game, ops.drop_last()).knows(id)
    }
}

/// Those who join in the course of `ops`, in the order in which they join.
pub open spec fn joined(ops: Seq<RosterOp>) -> Seq<PlayerView>
    decreases ops.len(),
{
    if ops.len() == 0 {
        Seq::empty()
    } else {
        match ops.last() {
            RosterOp::Join(player) => joined(ops.drop_last()).push(player),
            RosterOp::Leave(_) => joined(ops.drop_last()),
        }
    }
}

/// The identities that leave in the course of `ops`, one for each leaving.
pub open spec fn left(ops: Seq<RosterOp>) -> Seq<u128>
    decreases ops.len(),
{
    if ops.len() == 0 {
        Seq::empty()
    } else {
        match ops.last() {
            RosterOp::Join(_) => left(ops.drop_last()),
            RosterOp::Leave(id) => left(ops.drop_last()).push(id),
        }
    }
}

/// The identities of a roster, in its order.
pub open spec fn ids(roster: Seq<PlayerView>) -> Seq<u128> {
    roster.map_values(|player: PlayerView| player.id)
}

/// `picks` embeds `part` into `whole`: it names, for each entry of `part` in turn, an entry of
/// `whole` that equals it and lies further back than the one named before.
pub open spec fn embeds(picks: Seq<int>, part: Seq<PlayerView>, whole: Seq<PlayerView>) -> bool {
    &&& picks.len() == part.len()
    &&& forall|i: int|
        0 <= i < part.len() ==> 0 <= #[trigger] picks[i] < whole.len() && whole[picks[i]] == part[i]
    &&& forall|i: int, j: int| 0 <= i < j < part.len() ==> #[trigger] picks[i] < #[trigger] picks[j]
}

/// `part` is what is left of `whole` when some entries are struck out: the entries that stay
/// keep their order.
pub open spec fn keeps_order(part: Seq<PlayerView>, whole: Seq<PlayerView>) -> bool {
    exists|picks: Seq<int>| embeds(picks, part, whole)
}

/// However players join and leave a lobby, its roster is exactly the net membership, the
/// survivors in the order in which they came: the room is still a lobby; the roster together
/// with the identities that left holds each identity as often as the first roster together
/// with those who joined; and the roster is the first roster followed by those who joined,
/// with some entries struck out.
pub proof fn lemma_lobby_membership(game: GameView, ops: Seq<RosterOp>)
    requires
        game is Lobby,
        leavers_known(game, ops),
    ensures
        after_ops(game, ops) is Lobby,
        ids(after_ops(game, ops).players()).to_multiset().add(left(ops).to_multiset()) == ids(
            game.players(),
        ).to_multiset().add(ids(joined(ops)).to_multiset()),
        keeps_order(after_ops(game, ops).players(), game.players() + joined(ops)),
    decreases ops.len(),
{
    broadcast use vstd::seq_lib::group_to_multiset_ensures;
    broadcast use vstd::multiset::group_multiset_axioms;

    let first = game.players();
    if ops.len() == 0 {
        assert(left(ops).to_multiset() =~= ids(joined(ops)).to_multiset());
        let picks = Seq::new(first.len(), |i: int| i);
        assert(embeds(picks, first, first + joined(ops)));
    } else {
        let earlier = ops.drop_last();
        lemma_lobby_membership(game, earlier);
        let before = after_ops(game, earlier).players();
        let after = after_ops(game, ops).players();
        let whole = first + joined(earlier);
        let picks = choose|picks: Seq<int>| embeds(picks, before, whole);
        match ops.last() {
            RosterOp::Join(player) => {
                assert(after == before.push(player));
                assert(ids(after) =~= ids(before).push(player.id));
                assert(ids(joined(ops)) =~= ids(joined(earlier)).push(player.id));
                assert(left(ops) == left(earlier));
                assert(ids(after).to_multiset() =~= ids(before).to_multiset().insert(player.id));
                assert(ids(joined(ops)).to_multiset() =~= ids(joined(earlier)).to_multiset().insert(
                    player.id,
                ));
                assert(ids(after).to_multiset().add(left(ops).to_multiset()) =~= ids(
                    before,
                ).to_multiset().add(left(earlier).to_multiset()).insert(player.id));
                assert(ids(after).to_multiset().add(left(ops).to_multiset()) =~= ids(
                    first,
                ).to_multiset().add(ids(joined(ops)).to_multiset()));
                assert(first + joined(ops) =~= whole.push(player));
                assert(embeds(picks.push(whole.len() as int), after, first + joined(ops)));
            },
            RosterOp::Leave(id) => {
                lemma_position_found(before, id);
                let k = position(before, id);
                assert(after == before.remove(k));
                assert(ids(after) =~= ids(before).remove(k));
                assert(ids(before)[k] == id);
                assert(ids(before).to_multiset().count(id) > 0);
                assert(left(ops) == left(earlier).push(id));
                assert(ids(after).to_multiset().add(left(ops).to_multiset()) =~= ids(
                    before,
                ).to_multiset().add(left(earlier).to_multiset()));
                assert(embeds(picks.remove(k), after, whole));
            },
        }
    }
}

/// The game after `turns` further turns have ended.
pub open spec fn after_turns(game: InGameView, turns: nat) -> InGameView
    decreases turns,
{
    if turns == 0 {
        game
    } else {
        after_turns(game, (turns - 1) as nat).end_draw()
    }
}

/// The turn clock: from the first turn of the first round, `turns` ended turns lead to the
/// round and the player that division of `turns` by the number of players gives.
pub proof fn lemma_turn_clock(game: InGameView, turns: nat)
    requires
        game.players.len() > 0,
        game.current_player_index == 0,
        game.current_round == 1,
    ensures
        after_turns(game, turns).players == game.players,
        after_turns(game, turns).max_rounds == game.max_rounds,
        after_turns(game, turns).current_round == 1 + turns / game.players.len(),
        after_turns(game, turns).current_player_index == turns % game.players.len(),
    decreases turns,
{
    let n = game.players.len() as int;
    if turns == 0 {
        lemma_fundamental_div_mod_converse(0, n, 0, 0);
    } else {
        let k = (turns - 1) as int;
        lemma_turn_clock(game, k as nat);
        lemma_fundamental_div_mod(k, n);
        lemma_mod_bound(k, n);
        let q = k / n;
        let r = k % n;
        assert(n * q == q * n) by (nonlinear_arith);
        if r + 1 >= n {
            assert(k + 1 == (q + 1) * n + 0) by (nonlinear_arith)
                requires
                    k == q * n + r,
                    r + 1 == n,
            ;
            lemma_fundamental_div_mod_converse(k + 1, n, q + 1, 0);
        } else {
            lemma_fundamental_div_mod_converse(k + 1, n, q, r + 1);
        }
    }
}

/// In a game that begins with its first turn, the last turn is announced exactly once: when
/// one turn fewer has ended than the players have turns in all the rounds. When that turn has
/// ended too, the round counter stands one past the last round, with the first player.
pub proof fn lemma_last_turn_once(game: InGameView, turns: nat)
    requires
        game.players.len() > 0,
        game.current_player_index == 0,
        game.current_round == 1,
        game.max_rounds >= 1,
    ensures
        after_turns(game, turns).is_last_turn() <==> turns + 1 == game.players.len()
            * game.max_rounds,
        after_turns(game, game.players.len() * game.max_rounds).current_round == game.max_rounds
            + 1,
        after_turns(game, game.players.len() * game.max_rounds).current_player_index == 0,
{
    let n = game.players.len() as int;
    let m = game.max_rounds as int;
    lemma_turn_clock(game, turns);
    lemma_fundamental_div_mod(turns as int, n);
    lemma_mod_bound(turns as int, n);
    let q = turns as int / n;
    let r = turns as int % n;
    assert(n * q == q * n) by (nonlinear_arith);
    if q + 1 == m && r + 1 == n {
        assert(turns + 1 == n * m) by (nonlinear_arith)
            requires
                turns == q * n + r,
                q + 1 == m,
                r + 1 == n,
        ;
    }
    if turns + 1 == n * m {
        assert(turns == (m - 1) * n + (n - 1)) by (nonlinear_arith)
            requires
                turns + 1 == n * m,
        ;
        lemma_fundamental_div_mod_converse(turns as int, n, m - 1, n - 1);
    }
    assert(n * m >= 0) by (nonlinear_arith)
        requires
            n >= 0,
            m >= 0,
    ;
    lemma_turn_clock(game, (n * m) as nat);
    assert(n * m == m * n + 0) by (nonlinear_arith);
    lemma_fundamental_div_mod_converse(n * m, n, m, 0);
}

/// When a turn ends in a game with players, the turn pointer names one of them afterwards.
pub proof fn lemma_turn_stays_in_range(game: InGameView)
    requires
        game.players.len() > 0,
    ensures
        game.end_draw().turn_in_range(),
{
}

/// An accuser has one ballot: a second vote of the same accuser replaces the first, and the
/// number of accusers who have voted stays as it was after the first.
pub proof fn lemma_vote_overwrites(game: InGameView, accuser: u128, first: u128, second: u128)
    ensures
        game.cast(accuser, first).cast(accuser, second) == game.cast(accuser, second),
        game.cast(accuser, first).cast(accuser, second).votes.dom() == game.cast(
            accuser,
            first,
        ).votes.dom(),
{
    assert(game.votes.insert(accuser, first).insert(accuser, second) =~= game.votes.insert(
        accuser,
        second,
    ));
    assert(game.votes.insert(accuser, first).insert(accuser, second).dom() =~= game.votes.insert(
        accuser,
        first,
    ).dom());
}

/// The winner rule: once somebody has voted, the real artists win exactly if the fake artist
/// is accused by a ballot, by no fewer ballots than anyone else, and has the lowest identity
/// of those accused as often.
pub proof fn lemma_winner_rule(game: InGameView)
    requires
        game.votes.dom().finite(),
        game.votes.dom().len() > 0,
    ensures
        game.winner() == Winner::RealArtists <==> leads(game.votes, game.fake_artist.id),
        game.winner() == Winner::FakeArtist <==> !leads(game.votes, game.fake_artist.id),
{
    lemma_majority_exists(game.votes);
    if leads(game.votes, game.fake_artist.id) {
        lemma_leader_unique(game.votes, game.fake_artist.id, accused_majority(game.votes)->0);
    }
}

/// As long as the game runs, voting again is voting anew: the room after a first and a second
/// vote of one accuser is the room after the second vote alone.
pub proof fn lemma_revote(game: GameView, accuser: u128, first: u128, second: u128)
    requires
        !(game.vote(accuser, first) is GameOver) || game is GameOver,
    ensures
        game.vote(accuser, first).vote(accuser, second) == game.vote(accuser, second),
{
    if let GameView::InGame(in_game) = game {
        lemma_vote_overwrites(in_game, accuser, first, second);
    }
}

/// A vote ends a running game exactly when, with that vote counted, as many accusers have
/// voted as the roster has players.
pub proof fn lemma_game_over_trigger(game: InGameView, accuser: u128, accused: u128)
    ensures
        GameView::InGame(game).vote(accuser, accused) is GameOver <==> game.votes.insert(
            accuser,
            accused,
        ).dom().len() >= game.players.len(),
        !(GameView::InGame(game).vote(accuser, accused) is GameOver) ==> GameView::InGame(
            game,
        ).vote(accuser, accused) == GameView::InGame(game.cast(accuser, accused)),
{
}

/// A room as it opens is well formed, and so is a game as it starts.
pub proof fn lemma_well_formed_at_first(
    players: Seq<PlayerView>,
    fake_artist: PlayerView,
    word: Seq<char>,
)
    ensures
        GameView::new().well_formed(),
        InGameView::fresh(players, fake_artist, word).well_formed(),
{
}

/// Every command leaves a well-formed room well formed.
pub proof fn lemma_well_formed_kept(game: GameView, message: MessageView, next: GameView)
    requires
        game.well_formed(),
        moves(game, message, next),
    ensures
        next.well_formed(),
{
}

/// The place of a phase in the course of a room.
pub open spec fn phase_rank(game: GameView) -> nat {
    match game {
        GameView::Lobby(_) => 0,
        GameView::InGame(_) => 1,
        GameView::GameOver(_) => 2,
    }
}

/// No command takes a room back to an earlier phase, and only the start of the game takes a
/// room out of the lobby.
pub proof fn lemma_phases_one_way(game: GameView, message: MessageView, next: GameView)
    requires
        moves(game, message, next),
    ensures
        phase_rank(game) <= phase_rank(next),
        game is Lobby && !(message is StartGame) ==> next is Lobby,
        !(game is Lobby) && message is StartGame ==> next == game,
{
}

} // verus!
