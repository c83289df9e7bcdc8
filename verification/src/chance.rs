//! What the room leaves to chance: the turn order, the fake artist, and fresh identities.

use crate::game::Player;
use rand::seq::{IteratorRandom, SliceRandom};
use vstd::prelude::*;

verus! {

/// Calls `SliceRandom::shuffle` of the rand crate with the thread's generator. The call swaps
/// entries of the slice and does nothing else, so the players afterwards are those before, each
/// as often as before, in some order.
#[verifier::external_body]
pub(crate) fn shuffle(players: &mut Vec<Player>)
    ensures
        final(players)@.to_multiset() == old(players)@.to_multiset(),
{
    players.shuffle(&mut rand::thread_rng());
}

/// Calls `IteratorRandom::choose` of the rand crate on the players, with the thread's
/// generator. It yields nothing if and only if there is no player, and otherwise one of them.
#[verifier::external_body]
pub(crate) fn pick(players: &Vec<Player>) -> (chosen: Option<&Player>)
    ensures
        chosen is None <==> players@.len() == 0,
        chosen matches Some(player) ==> players@.contains(*player),
{
    players.iter().choose(&mut rand::thread_rng())
}

/// The bits of an identity that hold its version and its variant.
pub const FORMAT_MASK: u128 = 0xF000_C000_0000_0000_0000;

/// Version 4 (random) and the standard variant, in the bits of `FORMAT_MASK`.
pub const RANDOM_FORMAT: u128 = 0x4000_8000_0000_0000_0000;

/// Calls `Uuid::new_v4` of the uuid crate and hands the identifier out as the number that
/// `Uuid::as_u128` gives for it. The number is random but for the version and variant bits,
/// which mark it as a random identifier.
#[verifier::external_body]
pub(crate) fn fresh_id() -> (id: u128)
    ensures
        id & FORMAT_MASK == RANDOM_FORMAT,
{
    uuid::Uuid::new_v4().as_u128()
}

} // verus!
