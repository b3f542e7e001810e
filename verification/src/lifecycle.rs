//! Closing an election: final ranking and winner selection.

use vstd::prelude::*;

use crate::candidate::counters_bounded;
use crate::candidate::score;
use crate::candidate::Candidate;
use crate::election::candidate_addresses;
use crate::election::Election;
use crate::errors::D21Error;
use crate::identity::IdentityKey;
use crate::status::ElectionStatus;

verus! {

/// The ranking order: the candidate at position `i` ranks strictly before
/// the one at position `j` when its score is higher, or, at equal scores,
/// its plus votes are more, or, both equal, it comes earlier in the list.
/// The list-position tie-break makes this a strict total order on
/// positions, so the final ranking is deterministic.
pub open spec fn cand_before(s: Seq<Candidate>, i: int, j: int) -> bool {
    ||| score(s[i]) > score(s[j])
    ||| (score(s[i]) == score(s[j]) && s[i].plus_votes > s[j].plus_votes)
    ||| (score(s[i]) == score(s[j]) && s[i].plus_votes == s[j].plus_votes && i < j)
}

proof fn lemma_before_trans(s: Seq<Candidate>, a: int, b: int, c: int)
    requires
        cand_before(s, a, b),
        cand_before(s, b, c),
    ensures
        cand_before(s, a, c),
{
}

proof fn lemma_before_total(s: Seq<Candidate>, a: int, b: int)
    requires
        a != b,
    ensures
        cand_before(s, a, b) || cand_before(s, b, a),
{
}

proof fn lemma_before_asym(s: Seq<Candidate>, a: int, b: int)
    requires
        cand_before(s, a, b),
    ensures
        !cand_before(s, b, a),
{
}

/// Some position of `order` holds the value `v`.
pub open spec fn order_contains(order: Seq<usize>, v: int) -> bool {
    exists|k: int| 0 <= k < order.len() && #[trigger] order[k] == v
}

/// The candidate at position `i` kept its key and counters, and received a
/// rank below the candidate count.
pub open spec fn rank_consistent_at(old_c: Seq<Candidate>, new_c: Seq<Candidate>, i: int) -> bool {
    &&& new_c[i].address == old_c[i].address
    &&& new_c[i].plus_votes == old_c[i].plus_votes
    &&& new_c[i].minus_votes == old_c[i].minus_votes
    &&& (new_c[i].rank as int) < new_c.len()
}

/// The final ranking, written into the `rank` fields: rank is the only
/// field that changed, each rank is below the candidate count, and ranks
/// order the candidates exactly as the ranking order does — so they are
/// pairwise distinct and fill `0 .. count`.
pub open spec fn ranking_assigned(old_c: Seq<Candidate>, new_c: Seq<Candidate>) -> bool {
    &&& new_c.len() == old_c.len()
    &&& forall|i: int| 0 <= i < new_c.len() ==> #[trigger] rank_consistent_at(old_c, new_c, i)
    &&& forall|i: int, j: int|
        0 <= i < new_c.len() && 0 <= j < new_c.len() && i != j ==> ((#[trigger] new_c[i].rank
            < #[trigger] new_c[j].rank) <==> cand_before(old_c, i, j))
}

/// Position `k` of the winner list carries the key of the candidate that
/// was ranked `k`.
pub open spec fn winner_at(
    old_c: Seq<Candidate>,
    new_c: Seq<Candidate>,
    winners: Seq<IdentityKey>,
    k: int,
) -> bool {
    exists|i: int|
        0 <= i < new_c.len() && (#[trigger] new_c[i].rank as int) == k && winners[k]
            == old_c[i].address
}

/// Everything a successful closure does to the election record: it is
/// ended as of `now`, its configuration and tallies are untouched, the
/// final ranking is written into the candidates, and the winner list
/// carries the top-ranked candidates' keys in rank order.
pub open spec fn election_closed(old_e: Election, new_e: Election, now: i64) -> bool {
    &&& new_e.status == ElectionStatus::Ended
    &&& new_e.end_time == Some(now)
    &&& new_e.authority == old_e.authority
    &&& new_e.id == old_e.id
    &&& new_e.name == old_e.name
    &&& new_e.num_winners == old_e.num_winners
    &&& new_e.num_plus_votes == old_e.num_plus_votes
    &&& new_e.num_minus_votes == old_e.num_minus_votes
    &&& new_e.allowed_voter_types == old_e.allowed_voter_types
    &&& new_e.start_time == old_e.start_time
    &&& new_e.total_voters == old_e.total_voters
    &&& ranking_assigned(old_e.candidates@, new_e.candidates@)
    &&& new_e.winners@.len() == old_e.num_winners as int
    &&& forall|k: int|
        0 <= k < new_e.winners@.len() ==> #[trigger] winner_at(
            old_e.candidates@,
            new_e.candidates@,
            new_e.winners@,
            k,
        )
}

/// The outcome of checking a closure request: only the administrator may
/// close, and only while the election is active.
pub open spec fn end_check(election: Election, authority: IdentityKey) -> Result<(), D21Error> {
    if authority != election.authority {
        Err(D21Error::Unauthorized)
    } else if election.status != ElectionStatus::Active {
        Err(D21Error::ElectionNotActive)
    } else {
        Ok(())
    }
}

/// Whether the candidate at position `i` ranks strictly before the one at
/// position `j`.
fn precedes(cands: &Vec<Candidate>, i: usize, j: usize) -> (r: bool)
    requires
        i < cands@.len(),
        j < cands@.len(),
        counters_bounded(cands@, 0xffff_ffff),
    ensures
        r == cand_before(cands@, i as int, j as int),
{
    let a = cands[i];
    let b = cands[j];
    let score_a = a.plus_votes - a.minus_votes;
    let score_b = b.plus_votes - b.minus_votes;
    if score_a != score_b {
        score_a > score_b
    } else if a.plus_votes != b.plus_votes {
        a.plus_votes > b.plus_votes
    } else {
        i < j
    }
}

/// The position in `order` before which `c` belongs: the first position
/// whose candidate does not rank before `c`.
fn insertion_point(cands: &Vec<Candidate>, order: &Vec<usize>, c: usize) -> (pos: usize)
    requires
        counters_bounded(cands@, 0xffff_ffff),
        c < cands@.len(),
        forall|k: int| 0 <= k < order@.len() ==> (#[trigger] order@[k] as int) < cands@.len(),
    ensures
        pos <= order@.len(),
        forall|k: int| 0 <= k < pos ==> cand_before(cands@, #[trigger] order@[k] as int, c as int),
        pos < order@.len() ==> !cand_before(cands@, order@[pos as int] as int, c as int),
{
    let n = order.len();
    let mut pos: usize = 0;
    while pos < n
        invariant
            pos <= n,
            n == order@.len(),
            c < cands@.len(),
            counters_bounded(cands@, 0xffff_ffff),
            forall|k: int| 0 <= k < order@.len() ==> (#[trigger] order@[k] as int) < cands@.len(),
            forall|k: int|
                0 <= k < pos ==> cand_before(cands@, #[trigger] order@[k] as int, c as int),
        decreases n - pos,
    {
        if !precedes(cands, order[pos], c) {
            return pos;
        }
        pos += 1;
    }
    pos
}

/// The final ranking of the candidate list, as the permutation of its
/// positions sorted by the ranking order: every position appears exactly
/// once, and earlier entries rank strictly before later ones.
#[verifier::loop_isolation(false)]
pub fn compute_ranking(cands: &Vec<Candidate>) -> (order: Vec<usize>)
    requires
        counters_bounded(cands@, 0xffff_ffff),
    ensures
        order@.len() == cands@.len(),
        forall|k: int| 0 <= k < order@.len() ==> (#[trigger] order@[k] as int) < cands@.len(),
        forall|k: int, l: int|
            0 <= k < l < order@.len() ==> cand_before(
                cands@,
                order@[k] as int,
                order@[l] as int,
            ),
        forall|v: int| 0 <= v < cands@.len() ==> order_contains(order@, v),
{
    let n = cands.len();
    let mut order: Vec<usize> = Vec::new();
    let mut c: usize = 0;
    while c < n
        invariant
            c <= n,
            order@.len() == c,
            forall|k: int| 0 <= k < order@.len() ==> (#[trigger] order@[k] as int) < c,
            forall|k: int, l: int|
                0 <= k < l < order@.len() ==> cand_before(
                    cands@,
                    order@[k] as int,
                    order@[l] as int,
                ),
            forall|v: int| 0 <= v < c ==> order_contains(order@, v),
        decreases n - c,
    {
        let pos = insertion_point(cands, &order, c);
        let ghost before = order@;
        order.insert(pos, c);
        proof {
            let posi = pos as int;
            before.insert_ensures(posi, c);
            assert(order@ == before.insert(posi, c));
            assert forall|k: int| 0 <= k < order@.len() implies (#[trigger] order@[k] as int) < c
                + 1 by {
                if k < posi {
                    assert(order@[k] == before[k]);
                } else if k == posi {
                    assert(order@[k] == c);
                } else {
                    assert(order@[k] == before[k - 1]);
                }
            }
            assert forall|k: int, l: int| 0 <= k < l < order@.len() implies cand_before(
                cands@,
                order@[k] as int,
                order@[l] as int,
            ) by {
                if l < posi {
                    assert(order@[k] == before[k] && order@[l] == before[l]);
                } else if k < posi && l == posi {
                    assert(order@[k] == before[k]);
                    assert(cand_before(cands@, before[k] as int, c as int));
                } else if k < posi && l > posi {
                    assert(order@[k] == before[k] && order@[l] == before[l - 1]);
                    assert(cand_before(cands@, before[k] as int, before[l - 1] as int));
                } else if k == posi && l > posi {
                    assert(order@[l] == before[l - 1]);
                    assert(before[posi] as int != c as int);
                    assert(!cand_before(cands@, before[posi] as int, c as int));
                    lemma_before_total(cands@, c as int, before[posi] as int);
                    if l - 1 > posi {
                        assert(cand_before(cands@, before[posi] as int, before[l - 1] as int));
                        lemma_before_trans(
                            cands@,
                            c as int,
                            before[posi] as int,
                            before[l - 1] as int,
                        );
                    }
                } else {
                    assert(k > posi);
                    assert(order@[k] == before[k - 1] && order@[l] == before[l - 1]);
                    assert(cand_before(cands@, before[k - 1] as int, before[l - 1] as int));
                }
            }
            assert forall|v: int| 0 <= v < c + 1 implies order_contains(order@, v) by {
                if v == c as int {
                    assert(order@[posi] == c);
                } else {
                    assert(order_contains(before, v));
                    let k = choose|k: int| 0 <= k < before.len() && #[trigger] before[k] == v;
                    if k < posi {
                        assert(order@[k] == before[k]);
                    } else {
                        assert(order@[k + 1] == before[k]);
                    }
                }
            }
        }
        c += 1;
    }
    order
}

/// Closes the election: only its administrator may do so, and only while
/// it is active; a rejected request changes nothing. On success the
/// election is ended as of `now`, irreversibly — every other operation
/// demands an active election — and the final ranking is computed: each
/// candidate's `rank` becomes its 0-based position in the ranking order
/// (score descending, then plus votes descending, then list position), and
/// the first `num_winners` candidates of that order become the winners.
#[verifier::loop_isolation(false)]
pub fn end_election(election: &mut Election, authority: IdentityKey, now: i64) -> (r: Result<
    (),
    D21Error,
>)
    requires
        old(election).wf(),
    ensures
        match r {
            Ok(()) => {
                &&& end_check(*old(election), authority) == Ok::<(), D21Error>(())
                &&& election_closed(*old(election), *final(election), now)
                &&& final(election).wf()
            },
            Err(e) => {
                &&& end_check(*old(election), authority) == Err::<(), D21Error>(e)
                &&& *final(election) == *old(election)
            },
        },
{
    if !(authority == election.authority) {
        return Err(D21Error::Unauthorized);
    }
    if !(election.status == ElectionStatus::Active) {
        return Err(D21Error::ElectionNotActive);
    }
    election.status = ElectionStatus::Ended;
    election.end_time = Some(now);
    proof {
        assert forall|i: int|
            0 <= i < election.candidates@.len() implies 0 <= #[trigger] election.candidates@[i].plus_votes
            <= 0xffff_ffff && 0 <= election.candidates@[i].minus_votes <= 0xffff_ffff by {
            assert(0 <= election.candidates@[i].plus_votes <= old(election).total_voters);
        }
    }
    let order = compute_ranking(&election.candidates);
    let ghost cands0 = election.candidates@;
    let n = election.candidates.len();
    let mut i: usize = 0;
    while i < n
        invariant
            i <= n,
            election.candidates@.len() == n,
            election.status == ElectionStatus::Ended,
            election.end_time == Some(now),
            election.authority == old(election).authority,
            election.id == old(election).id,
            election.name == old(election).name,
            election.num_winners == old(election).num_winners,
            election.num_plus_votes == old(election).num_plus_votes,
            election.num_minus_votes == old(election).num_minus_votes,
            election.allowed_voter_types == old(election).allowed_voter_types,
            election.start_time == old(election).start_time,
            election.total_voters == old(election).total_voters,
            election.winners == old(election).winners,
            forall|j: int|
                0 <= j < n ==> {
                    &&& #[trigger] election.candidates@[j].address == cands0[j].address
                    &&& election.candidates@[j].plus_votes == cands0[j].plus_votes
                    &&& election.candidates@[j].minus_votes == cands0[j].minus_votes
                },
            forall|k: int|
                0 <= k < i ==> (#[trigger] election.candidates@[order@[k] as int].rank as int)
                    == k,
        decreases n - i,
    {
        let idx = order[i];
        let cur = election.candidates[idx];
        let updated = Candidate { rank: i as u8, ..cur };
        let ghost before = election.candidates@;
        election.candidates[idx] = updated;
        i += 1;
        proof {
            assert forall|k: int|
                0 <= k < i implies (
            #[trigger] election.candidates@[order@[k] as int].rank as int) == k by {
                if k < i - 1 {
                    assert(cand_before(cands0, order@[k] as int, order@[i - 1] as int));
                    assert(order@[k] as int != idx as int) by {
                        if order@[k] as int == idx as int {
                            lemma_before_asym(cands0, order@[k] as int, order@[i - 1] as int);
                        }
                    }
                    assert(election.candidates@[order@[k] as int] == before[order@[k] as int]);
                } else {
                    assert(order@[k] == idx);
                }
            }
        }
    }
    let nw = election.num_winners as usize;
    let mut winners: Vec<IdentityKey> = Vec::new();
    let mut w: usize = 0;
    while w < nw
        invariant
            w <= nw,
            winners@.len() == w,
            forall|l: int|
                0 <= l < w ==> #[trigger] winners@[l] == cands0[order@[l] as int].address,
        decreases nw - w,
    {
        winners.push(election.candidates[order[w]].address);
        w += 1;
    }
    election.winners = winners;
    proof {
        let old_c = old(election).candidates@;
        let new_c = election.candidates@;
        assert(old_c == cands0);
        assert forall|j: int| 0 <= j < new_c.len() implies #[trigger] rank_consistent_at(
            old_c,
            new_c,
            j,
        ) by {
            assert(order_contains(order@, j));
            let k = choose|k: int| 0 <= k < order@.len() && #[trigger] order@[k] == j;
            assert((new_c[order@[k] as int].rank as int) == k);
            assert(new_c[j].address == cands0[j].address);
        }
        assert forall|a: int, b: int|
            0 <= a < new_c.len() && 0 <= b < new_c.len() && a != b implies ((
        #[trigger] new_c[a].rank < #[trigger] new_c[b].rank) <==> cand_before(old_c, a, b)) by {
            assert(order_contains(order@, a));
            assert(order_contains(order@, b));
            let ka = choose|k: int| 0 <= k < order@.len() && #[trigger] order@[k] == a;
            let kb = choose|k: int| 0 <= k < order@.len() && #[trigger] order@[k] == b;
            assert((new_c[a].rank as int) == ka);
            assert((new_c[b].rank as int) == kb);
            if ka < kb {
                assert(cand_before(old_c, a, b));
            } else {
                assert(kb < ka);
                assert(cand_before(old_c, b, a));
                lemma_before_asym(old_c, b, a);
            }
        }
        assert forall|k: int| 0 <= k < election.winners@.len() implies #[trigger] winner_at(
            old_c,
            new_c,
            election.winners@,
            k,
        ) by {
            let j = order@[k] as int;
            assert((new_c[j].rank as int) == k);
            assert(election.winners@[k] == old_c[j].address);
        }
        assert(candidate_addresses(new_c) =~= candidate_addresses(old_c));
        assert forall|j: int|
            0 <= j < new_c.len() implies 0 <= #[trigger] new_c[j].plus_votes
            <= election.total_voters && 0 <= new_c[j].minus_votes <= election.total_voters by {
            assert(rank_consistent_at(old_c, new_c, j));
            assert(0 <= old_c[j].plus_votes <= old(election).total_voters);
        }
        assert(counters_bounded(new_c, election.total_voters as int));
    }
    Ok(())
}

} // verus!
