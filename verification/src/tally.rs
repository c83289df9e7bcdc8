//! Counting accusations and naming the accused majority.

use itertools::Itertools;
use std::collections::HashMap;
use vstd::std_specs::iter::IteratorSpec;
use vstd::prelude::*;

verus! {

/// Number of accusers whose ballot names `accused`.
pub open spec fn ballots_for(votes: Map<u128, u128>, accused: u128) -> nat {
    votes.dom().filter(|accuser: u128| votes[accuser] == accused).len()
}

/// A candidate with `n` ballots and identity `id` is not ranked below one with `m` ballots and
/// identity `other`: it has more ballots, or as many and an identity that is not higher.
pub open spec fn outranks(id: u128, n: nat, other: u128, m: nat) -> bool {
    m < n || (m == n && id <= other)
}

/// `id` is accused by at least one ballot and no other identity is ranked above it.
pub open spec fn leads(votes: Map<u128, u128>, id: u128) -> bool {
    &&& ballots_for(votes, id) > 0
    &&& forall|other: u128|
        outranks(id, ballots_for(votes, id), other, #[trigger] ballots_for(votes, other))
}

/// The accused majority: the identity named by the most ballots, the lowest such identity
/// where several are named equally often. `None` where no ballot names anyone.
pub open spec fn accused_majority(votes: Map<u128, u128>) -> Option<u128> {
    if exists|id: u128| leads(votes, id) {
        Some(choose|id: u128| leads(votes, id))
    } else {
        None
    }
}

/// At most one identity leads.
pub proof fn lemma_leader_unique(votes: Map<u128, u128>, a: u128, b: u128)
    requires
        leads(votes, a),
        leads(votes, b),
    ensures
        a == b,
{
    assert(outranks(a, ballots_for(votes, a), b, ballots_for(votes, b)));
    assert(outranks(b, ballots_for(votes, b), a, ballots_for(votes, a)));
}

/// In a finite ballot box every ballot counts for the identity it names, and an identity with
/// a ballot to its name is named by some accuser.
pub proof fn lemma_ballots_named(votes: Map<u128, u128>)
    requires
        votes.dom().finite(),
    ensures
        forall|accuser: u128| #[trigger]
            votes.contains_key(accuser) ==> ballots_for(votes, votes[accuser]) > 0,
        forall|id: u128| #[trigger]
            ballots_for(votes, id) > 0 ==> exists|accuser: u128|
                votes.contains_key(accuser) && votes[accuser] == id,
{
    assert forall|accuser: u128| #[trigger] votes.contains_key(accuser) implies ballots_for(
        votes,
        votes[accuser],
    ) > 0 by {
        let named = votes.dom().filter(|a: u128| votes[a] == votes[accuser]);
        votes.dom().lemma_len_filter(|a: u128| votes[a] == votes[accuser]);
        assert(named.contains(accuser));
    }
    assert forall|id: u128| #[trigger] ballots_for(votes, id) > 0 implies exists|accuser: u128|
        votes.contains_key(accuser) && votes[accuser] == id by {
        let named = votes.dom().filter(|a: u128| votes[a] == id);
        votes.dom().lemma_len_filter(|a: u128| votes[a] == id);
        let witness = named.choose();
        assert(named.contains(witness));
        assert(votes.contains_key(witness) && votes[witness] == id);
    }
}

/// Among finitely many identities, and at least one, some identity is not ranked below any.
proof fn lemma_some_outranks_all(votes: Map<u128, u128>, ids: Set<u128>)
    requires
        ids.finite(),
        ids.len() > 0,
    ensures
        exists|top: u128|
            ids.contains(top) && forall|other: u128| #[trigger]
                ids.contains(other) ==> outranks(
                    top,
                    ballots_for(votes, top),
                    other,
                    ballots_for(votes, other),
                ),
    decreases ids.len(),
{
    let one = ids.choose();
    let rest = ids.remove(one);
    if rest.len() == 0 {
        assert forall|other: u128| #[trigger] ids.contains(other) implies other == one by {
            if other != one {
                assert(rest.contains(other));
            }
        }
        assert(ids.contains(one));
    } else {
        lemma_some_outranks_all(votes, rest);
        let top = choose|top: u128|
            rest.contains(top) && forall|other: u128| #[trigger]
                rest.contains(other) ==> outranks(
                    top,
                    ballots_for(votes, top),
                    other,
                    ballots_for(votes, other),
                );
        let winner = if outranks(top, ballots_for(votes, top), one, ballots_for(votes, one)) {
            top
        } else {
            one
        };
        assert forall|other: u128| #[trigger] ids.contains(other) implies outranks(
            winner,
            ballots_for(votes, winner),
            other,
            ballots_for(votes, other),
        ) by {
            if other != one {
                assert(rest.contains(other));
            }
        }
        assert(ids.contains(winner));
    }
}

/// Where finitely many accusers have voted, and at least one, there is an accused majority;
/// where nobody has voted, there is none.
pub proof fn lemma_majority_exists(votes: Map<u128, u128>)
    requires
        votes.dom().finite(),
    ensures
        accused_majority(votes) is Some <==> votes.dom().len() > 0,
        accused_majority(votes) matches Some(id) ==> leads(votes, id),
{
    lemma_ballots_named(votes);
    if votes.dom().len() > 0 {
        votes.lemma_values_len();
        let accuser = votes.dom().choose();
        assert(votes.dom().contains(accuser));
        assert(votes.contains_key(accuser));
        assert(votes.values().contains(votes[accuser]));
        lemma_some_outranks_all(votes, votes.values());
        let top = choose|top: u128|
            votes.values().contains(top) && forall|other: u128| #[trigger]
                votes.values().contains(other) ==> outranks(
                    top,
                    ballots_for(votes, top),
                    other,
                    ballots_for(votes, other),
                );
        assert(ballots_for(votes, top) > 0);
        assert forall|other: u128|
            outranks(
                top,
                ballots_for(votes, top),
                other,
                #[trigger] ballots_for(votes, other),
            ) by {
            if ballots_for(votes, other) > 0 {
                assert(votes.values().contains(other));
            }
        }
        assert(leads(votes, top));
    } else {
        assert forall|id: u128| !leads(votes, id) by {
            if ballots_for(votes, id) > 0 {
                let by = choose|accuser: u128|
                    votes.contains_key(accuser) && votes[accuser] == id;
                assert(votes.dom().contains(by));
            }
        }
    }
}

/// Calls `Itertools::counts` on the accused identities of `votes`. The returned table holds
/// exactly the identities that some ballot names, each with the number of ballots naming it.
#[verifier::external_body]
fn count_accusations(votes: &HashMap<u128, u128>) -> (tally: HashMap<u128, usize>)
    ensures
        forall|id: u128|
            #![trigger tally@.contains_key(id)]
            #![trigger ballots_for(votes@, id)]
            tally@.contains_key(id) <==> ballots_for(votes@, id) > 0,
        forall|id: u128| #[trigger]
            tally@.contains_key(id) ==> tally@[id] == ballots_for(votes@, id),
{
    votes.values().copied().counts()
}

/// Names the accused majority of `votes`.
pub fn majority(votes: &HashMap<u128, u128>) -> (res: Option<u128>)
    ensures
        res == accused_majority(votes@),
        res is None <==> votes@.len() == 0,
{
    let tally = count_accusations(votes);
    let mut best: Option<(u128, usize)> = None;
    let ghost entries = tally.iter().remaining();
    for entry in it: tally.iter()
        invariant
            it.seq() == entries,
            best is None <==> it.index() == 0,
            best matches Some((b, c)) ==> {
                &&& tally@.contains_key(b)
                &&& tally@[b] == c
                &&& forall|j: int|
                    0 <= j < it.index() ==> outranks(
                        b,
                        c as nat,
                        *(#[trigger] it.seq()[j]).0,
                        *it.seq()[j].1 as nat,
                    )
            },
    {
        let (id, n) = entry;
        match best {
            None => {
                best = Some((*id, *n));
            },
            Some((b, c)) => {
                if *n > c || (*n == c && *id < b) {
                    best = Some((*id, *n));
                }
            },
        }
    }
    proof {
        assert(entries.len() == tally@.dom().len());
        lemma_ballots_named(votes@);
        match best {
            None => {
                assert(tally@.dom().len() == 0);
                assert forall|accuser: u128| !votes@.contains_key(accuser) by {
                    if votes@.contains_key(accuser) {
                        assert(tally@.contains_key(votes@[accuser]));
                    }
                }
                assert(votes@.dom() =~= Set::empty());
            },
            Some((b, c)) => {
                let accuser = choose|accuser: u128|
                    votes@.contains_key(accuser) && votes@[accuser] == b;
                assert(votes@.dom().contains(accuser));
                assert forall|other: u128|
                    outranks(
                        b,
                        ballots_for(votes@, b),
                        other,
                        #[trigger] ballots_for(votes@, other),
                    ) by {
                    if tally@.contains_key(other) {
                        assert(entries.contains((&other, &tally@[other])));
                    }
                }
                assert(leads(votes@, b));
            },
        }
    }
    match best {
        None => None,
        Some((b, _)) => Some(b),
    }
}

} // verus!
