//! Pending votes: votes collected per round and block until a quorum forms.
use vstd::prelude::*;

use crate::crypto::SignatureAggregator;
use crate::testing::{signers_power, MockHash, MockNodeId, MockSignature, MockValidatorSet, MockVote};
use crate::types::{Round, VoteStatus};

verus! {

/// Result of adding a vote to pending votes.
#[derive(Clone, Copy, Debug, PartialEq, Eq, Structural)]
pub enum VoteReceptionResult {
    /// The vote was accepted and added to pending votes
    Accepted,
    /// The vote was rejected (duplicate, invalid, or from wrong epoch)
    Rejected(VoteStatus),
    /// The vote completed a quorum certificate
    QuorumCompleted,
    /// The vote was for an old round and ignored
    OldRound,
    /// The vote was for a future round and buffered
    FutureRound,
}

/// The votes collected for one block in one round, in arrival order.
pub type BucketView = (Round, MockHash, Seq<MockVote>);

/// The votes held for `block_id` in `round` (empty when there are none).
pub open spec fn votes_in(buckets: Seq<BucketView>, round: Round, block_id: MockHash) -> Seq<MockVote>
    decreases buckets.len(),
{
    if buckets.len() == 0 {
        Seq::empty()
    } else if buckets.last().0 == round && buckets.last().1 == block_id {
        buckets.last().2
    } else {
        votes_in(buckets.drop_last(), round, block_id)
    }
}

/// Whether a bucket exists for `block_id` in `round`.
pub open spec fn has_bucket(buckets: Seq<BucketView>, round: Round, block_id: MockHash) -> bool {
    exists|i: int| 0 <= i < buckets.len() && buckets[i].0 == round && buckets[i].1 == block_id
}

/// The buckets after adding `vote` for its block and round: appended to the
/// existing bucket, or in a new bucket at the end.
pub open spec fn add_to_buckets(buckets: Seq<BucketView>, vote: MockVote) -> Seq<BucketView> {
    let round = vote.spec_round();
    let block_id = vote.spec_block_id();
    if has_bucket(buckets, round, block_id) {
        let i = choose|i: int| 0 <= i < buckets.len() && buckets[i].0 == round && buckets[i].1 == block_id;
        buckets.update(i, (round, block_id, buckets[i].2.push(vote)))
    } else {
        buckets.push((round, block_id, seq![vote]))
    }
}

/// The total number of votes over all buckets.
pub open spec fn total_in(buckets: Seq<BucketView>) -> nat
    decreases buckets.len(),
{
    if buckets.len() == 0 {
        0
    } else {
        total_in(buckets.drop_last()) + buckets.last().2.len()
    }
}

/// The number of votes held in buckets of rounds before `cutoff`.
pub open spec fn votes_below(buckets: Seq<BucketView>, cutoff: Round) -> nat
    decreases buckets.len(),
{
    if buckets.len() == 0 {
        0
    } else {
        votes_below(buckets.drop_last(), cutoff) + if buckets.last().0 < cutoff {
            buckets.last().2.len()
        } else {
            0
        }
    }
}

/// Whether some vote of a sequence carries `signature`.
pub open spec fn has_signature(votes: Seq<MockVote>, signature: MockSignature) -> bool {
    exists|i: int| 0 <= i < votes.len() && votes[i].spec_signature() == signature
}

/// The authors of `votes` that are members, each once, in order of first
/// appearance: the signers that count toward a quorum.
pub open spec fn member_authors(votes: Seq<MockVote>, members: Map<MockNodeId, u64>) -> Seq<MockNodeId>
    decreases votes.len(),
{
    if votes.len() == 0 {
        Seq::empty()
    } else {
        let pre = member_authors(votes.drop_last(), members);
        let a = votes.last().spec_author();
        if members.contains_key(a) && !pre.contains(a) {
            pre.push(a)
        } else {
            pre
        }
    }
}

/// Whether the distinct member authors of `votes` hold a quorum.
pub open spec fn has_quorum(votes: Seq<MockVote>, verifier: MockValidatorSet) -> bool {
    signers_power(member_authors(votes, verifier.members()), verifier.members()) >= verifier.quorum()
}

/// The voting power of the validators who cast `votes`, each counted once.
pub open spec fn votes_power(votes: Seq<MockVote>, members: Map<MockNodeId, u64>) -> nat {
    signers_power(member_authors(votes, members), members)
}

/// The earliest round whose votes are kept while at `current_round`.
pub open spec fn cutoff_round(current_round: Round, max_rounds: u64) -> Round {
    if current_round >= max_rounds {
        (current_round - max_rounds) as u64
    } else {
        0
    }
}

/// The outcome of adding `vote` to pending votes at `current_round`.
pub open spec fn add_vote_outcome(
    buckets: Seq<BucketView>,
    current_round: Round,
    vote: MockVote,
    verifier: MockValidatorSet,
) -> (Seq<BucketView>, VoteReceptionResult) {
    let round = vote.spec_round();
    let block_id = vote.spec_block_id();
    if round < current_round {
        (buckets, VoteReceptionResult::OldRound)
    } else if has_signature(votes_in(buckets, round, block_id), vote.spec_signature()) {
        (buckets, VoteReceptionResult::Rejected(VoteStatus::Rejected))
    } else {
        let nb = add_to_buckets(buckets, vote);
        (
            nb,
            if has_quorum(votes_in(nb, round, block_id), verifier) {
                VoteReceptionResult::QuorumCompleted
            } else {
                VoteReceptionResult::Accepted
            },
        )
    }
}

/// Whether bucket keys are distinct and, in each bucket, signatures are
/// distinct and every vote belongs to the bucket's block and round.
pub open spec fn buckets_wf(buckets: Seq<BucketView>) -> bool {
    &&& forall|i: int, j: int|
        0 <= i < j < buckets.len() ==> !(buckets[i].0 == buckets[j].0 && buckets[i].1 == buckets[j].1)
    &&& forall|i: int, a: int, b: int|
        0 <= i < buckets.len() && 0 <= a < b < buckets[i].2.len() ==> buckets[i].2[a].spec_signature()
            != buckets[i].2[b].spec_signature()
    &&& forall|i: int, a: int|
        0 <= i < buckets.len() && 0 <= a < buckets[i].2.len() ==> buckets[i].2[a].spec_round() == buckets[i].0
            && buckets[i].2[a].spec_block_id() == buckets[i].1
}

proof fn lemma_votes_in(buckets: Seq<BucketView>, round: Round, block_id: MockHash)
    requires
        buckets_wf(buckets),
    ensures
        has_bucket(buckets, round, block_id) ==> {
            let i = choose|i: int| 0 <= i < buckets.len() && buckets[i].0 == round && buckets[i].1 == block_id;
            votes_in(buckets, round, block_id) == buckets[i].2
        },
        !has_bucket(buckets, round, block_id) ==> votes_in(buckets, round, block_id) == Seq::<MockVote>::empty(),
        forall|i: int|
            0 <= i < buckets.len() && buckets[i].0 == round && buckets[i].1 == block_id ==> votes_in(
                buckets,
                round,
                block_id,
            ) == buckets[i].2,
    decreases buckets.len(),
{
    if buckets.len() > 0 {
        let pre = buckets.drop_last();
        assert(buckets_wf(pre)) by {
            assert forall|i: int, a: int, b: int|
                0 <= i < pre.len() && 0 <= a < b < pre[i].2.len() implies pre[i].2[a].spec_signature()
                    != pre[i].2[b].spec_signature() by {
                assert(pre[i] == buckets[i]);
            }
            assert forall|i: int, a: int| 0 <= i < pre.len() && 0 <= a < pre[i].2.len() implies pre[i].2[a].spec_round()
                == pre[i].0 && pre[i].2[a].spec_block_id() == pre[i].1 by {
                assert(pre[i] == buckets[i]);
            }
        }
        lemma_votes_in(pre, round, block_id);
        if buckets.last().0 == round && buckets.last().1 == block_id {
            assert forall|i: int|
                0 <= i < buckets.len() && buckets[i].0 == round && buckets[i].1 == block_id implies votes_in(
                    buckets,
                    round,
                    block_id,
                ) == buckets[i].2 by {
                if i < buckets.len() - 1 {
                    assert(!(buckets[i].0 == buckets[buckets.len() - 1].0 && buckets[i].1
                        == buckets[buckets.len() - 1].1));
                }
            }
        } else {
            assert forall|i: int|
                0 <= i < buckets.len() && buckets[i].0 == round && buckets[i].1 == block_id implies votes_in(
                    buckets,
                    round,
                    block_id,
                ) == buckets[i].2 by {
                assert(i < buckets.len() - 1);
                assert(pre[i] == buckets[i]);
            }
            if has_bucket(buckets, round, block_id) {
                let i = choose|i: int| 0 <= i < buckets.len() && buckets[i].0 == round && buckets[i].1 == block_id;
                assert(pre[i] == buckets[i]);
            }
        }
    }
}

/// The buckets that a cleanup keeps: with `by_cutoff`, those of rounds at
/// or after `x`; otherwise those of rounds other than `x`.
pub open spec fn retained(buckets: Seq<BucketView>, by_cutoff: bool, x: Round) -> Seq<BucketView>
    decreases buckets.len(),
{
    if buckets.len() == 0 {
        Seq::empty()
    } else {
        let pre = retained(buckets.drop_last(), by_cutoff, x);
        if bucket_kept(buckets.last().0, by_cutoff, x) {
            pre.push(buckets.last())
        } else {
            pre
        }
    }
}

/// Whether a bucket of `round` survives a cleanup (see `retained`).
pub open spec fn bucket_kept(round: Round, by_cutoff: bool, x: Round) -> bool {
    if by_cutoff {
        round >= x
    } else {
        round != x
    }
}

/// The signatures of the votes whose authors are members, one per author
/// (the first vote of each author counts), with their voting power.
pub(crate) fn signatures_of(votes: &Vec<MockVote>, verifier: &MockValidatorSet) -> (aggregator: SignatureAggregator)
    ensures
        aggregator.wf(),
        aggregator.signer_seq() == member_authors(votes@, verifier.members()),
        aggregator.power() == signers_power(aggregator.signer_seq(), verifier.members()),
{
    let mut aggregator = SignatureAggregator::new();
    let mut i: usize = 0;
    while i < votes.len()
        invariant
            i <= votes@.len(),
            aggregator.wf(),
            aggregator.signer_seq() == member_authors(votes@.take(i as int), verifier.members()),
            aggregator.power() == signers_power(aggregator.signer_seq(), verifier.members()),
            aggregator.signer_seq().len() <= i,
            aggregator.power() <= i * 0xffff_ffff_ffff_ffffu64,
        decreases votes@.len() - i,
    {
        proof {
            assert(votes@.take(i + 1).drop_last() =~= votes@.take(i as int));
            assert(votes@.take(i + 1).last() == votes@[i as int]);
            assert(i * 0xffff_ffff_ffff_ffffu64 + 0xffff_ffff_ffff_ffffu64 == (i + 1) * 0xffff_ffff_ffff_ffffu64)
                by (nonlinear_arith);
            assert((i + 1) * 0xffff_ffff_ffff_ffffu64 <= 0x1_0000_0000_0000_0000 * 0xffff_ffff_ffff_ffffu64)
                by (nonlinear_arith)
                requires
                    i + 1 <= 0x1_0000_0000_0000_0000,
            ;
            aggregator.lemma_signer_count();
        }
        let author = votes[i].author();
        let ghost pre = aggregator.signer_seq();
        if let Some(voting_power) = verifier.get_voting_power(&author) {
            aggregator.add_signature(author, *votes[i].signature(), voting_power);
            proof {
                if !pre.contains(author) {
                    assert(aggregator.signer_seq().drop_last() =~= pre);
                }
            }
        }
        i = i + 1;
    }
    proof {
        assert(votes@.take(votes@.len() as int) =~= votes@);
    }
    aggregator
}

struct VoteBucket {
    round: Round,
    block_id: MockHash,
    votes: Vec<MockVote>,
}

spec fn bucket_view(b: VoteBucket) -> BucketView {
    (b.round, b.block_id, b.votes@)
}

/// Tracks pending votes for blocks in various rounds, and detects when the
/// votes for a block reach a quorum.
pub struct PendingVotes {
    buckets: Vec<VoteBucket>,
    current_round: Round,
    max_rounds: u64,
}

impl PendingVotes {
    /// The vote buckets, in order of creation.
    pub closed spec fn buckets(&self) -> Seq<BucketView> {
        self.buckets@.map_values(|b: VoteBucket| bucket_view(b))
    }

    /// The current round.
    pub closed spec fn spec_current_round(&self) -> Round {
        self.current_round
    }

    /// How many rounds before the current one keep their votes.
    pub closed spec fn spec_max_rounds(&self) -> u64 {
        self.max_rounds
    }

    /// The internal invariant.
    pub open spec fn wf(&self) -> bool {
        buckets_wf(self.buckets())
    }

    /// Creates an empty tracker that keeps votes for `max_rounds` rounds.
    pub fn new(max_rounds: u64) -> (p: Self)
        ensures
            p.wf(),
            p.buckets() == Seq::<BucketView>::empty(),
            p.spec_current_round() == 0,
            p.spec_max_rounds() == max_rounds,
    {
        let p = PendingVotes { buckets: Vec::new(), current_round: 0, max_rounds };
        proof {
            assert(p.buckets() =~= Seq::<BucketView>::empty());
        }
        p
    }

    /// The current round.
    pub fn current_round(&self) -> (r: Round)
        ensures
            r == self.spec_current_round(),
    {
        self.current_round
    }

    /// Sets the current round and drops the votes of rounds more than
    /// `max_rounds` before it.
    pub fn set_round(&mut self, round: Round)
        requires
            old(self).wf(),
        ensures
            final(self).wf(),
            final(self).spec_current_round() == round,
            final(self).spec_max_rounds() == old(self).spec_max_rounds(),
            final(self).buckets() == retained(old(self).buckets(), true, cutoff_round(round, old(self).spec_max_rounds())),
            forall|b: BucketView| #[trigger] final(self).buckets().contains(b) <==> old(self).buckets().contains(b)
                && b.0 >= cutoff_round(round, old(self).spec_max_rounds()),
            forall|r: Round, block_id: MockHash| #[trigger] votes_in(final(self).buckets(), r, block_id) == if r
                >= cutoff_round(round, old(self).spec_max_rounds()) {
                votes_in(old(self).buckets(), r, block_id)
            } else {
                Seq::<MockVote>::empty()
            },
            total_in(final(self).buckets()) + votes_below(
                old(self).buckets(),
                cutoff_round(round, old(self).spec_max_rounds()),
            ) == total_in(old(self).buckets()),
    {
        proof {
            lemma_cleanup_keeps_recent_rounds(old(self).buckets(), cutoff_round(round, old(self).spec_max_rounds()));
            lemma_cleanup_per_block(old(self).buckets(), cutoff_round(round, old(self).spec_max_rounds()));
        }
        self.current_round = round;
        let cutoff = round.saturating_sub(self.max_rounds);
        self.retain_buckets(true, cutoff);
    }

    fn retain_buckets(&mut self, by_cutoff: bool, x: Round)
        requires
            old(self).wf(),
        ensures
            final(self).wf(),
            final(self).spec_current_round() == old(self).spec_current_round(),
            final(self).spec_max_rounds() == old(self).spec_max_rounds(),
            final(self).buckets() == retained(old(self).buckets(), by_cutoff, x),
    {
        let ghost orig = self.buckets();
        let mut rest: Vec<VoteBucket> = Vec::new();
        std::mem::swap(&mut rest, &mut self.buckets);
        let mut kept: Vec<VoteBucket> = Vec::new();
        let ghost mut k: int = 0;
        while rest.len() > 0
            invariant
                0 <= k <= orig.len(),
                buckets_wf(orig),
                rest@.map_values(|b: VoteBucket| bucket_view(b)) == orig.skip(k),
                kept@.map_values(|b: VoteBucket| bucket_view(b)) == retained(orig.take(k), by_cutoff, x),
                buckets_wf(kept@.map_values(|b: VoteBucket| bucket_view(b))),
                forall|j: int|
                    0 <= j < kept@.len() ==> exists|m: int|
                        0 <= m < k && #[trigger] bucket_view(kept@[j]) == orig[m],
            decreases rest@.len(),
        {
            let ghost kv = kept@.map_values(|b: VoteBucket| bucket_view(b));
            let ghost rv = rest@.map_values(|b: VoteBucket| bucket_view(b));
            assert(rv.len() == rest@.len());
            assert(orig.skip(k)[0] == orig[k]);
            assert(rv[0] == orig[k]);
            let ghost prev_rest = rest@;
            let b = rest.remove(0);
            proof {
                assert(orig.take(k + 1).drop_last() =~= orig.take(k));
                assert(orig.take(k + 1).last() == orig[k]);
                assert(rest@ == prev_rest.remove(0));
                assert forall|j: int| 0 <= j < rest@.len() implies bucket_view(rest@[j]) == orig.skip(k + 1)[j] by {
                    assert(rest@[j] == prev_rest[j + 1]);
                    assert(rv[j + 1] == bucket_view(prev_rest[j + 1]));
                    assert(orig.skip(k)[j + 1] == orig[k + 1 + j]);
                }
                assert(rest@.map_values(|b: VoteBucket| bucket_view(b)) =~= orig.skip(k + 1));
            }
            let keep = if by_cutoff {
                b.round >= x
            } else {
                b.round != x
            };
            if keep {
                let ghost prev_kept = kept@;
                kept.push(b);
                proof {
                    let nv = kept@.map_values(|b: VoteBucket| bucket_view(b));
                    assert(nv =~= kv.push(orig[k]));
                    assert forall|i: int, j: int| 0 <= i < j < nv.len() implies !(nv[i].0 == nv[j].0 && nv[i].1
                        == nv[j].1) by {
                        if j == nv.len() - 1 {
                            let m = choose|m: int| 0 <= m < k && #[trigger] bucket_view(kept@[i]) == orig[m];
                            assert(nv[i] == bucket_view(kept@[i]));
                        } else {
                            assert(nv[i] == kv[i] && nv[j] == kv[j]);
                        }
                    }
                    assert forall|i: int, a: int, c: int|
                        0 <= i < nv.len() && 0 <= a < c < nv[i].2.len() implies nv[i].2[a].spec_signature()
                            != nv[i].2[c].spec_signature() by {
                        if i < nv.len() - 1 {
                            assert(nv[i] == kv[i]);
                        }
                    }
                    assert forall|i: int, a: int| 0 <= i < nv.len() && 0 <= a < nv[i].2.len() implies nv[i].2[a].spec_round()
                        == nv[i].0 && nv[i].2[a].spec_block_id() == nv[i].1 by {
                        if i < nv.len() - 1 {
                            assert(nv[i] == kv[i]);
                        }
                    }
                    assert forall|j: int| 0 <= j < kept@.len() implies exists|m: int|
                        0 <= m < k + 1 && #[trigger] bucket_view(kept@[j]) == orig[m] by {
                        if j == kept@.len() - 1 {
                            assert(bucket_view(kept@[j]) == orig[k]);
                        } else {
                            assert(kept@[j] == prev_kept[j]);
                        }
                    }
                }
            } else {
                proof {
                    assert(kept@.map_values(|b: VoteBucket| bucket_view(b)) =~= kv);
                }
            }
            proof {
                k = k + 1;
            }
        }
        proof {
            assert(orig.take(k) =~= orig);
        }
        self.buckets = kept;
    }

    fn find_bucket(&self, round: Round, block_id: MockHash) -> (r: Option<usize>)
        requires
            self.wf(),
        ensures
            r is None <==> !has_bucket(self.buckets(), round, block_id),
            r matches Some(i) ==> i < self.buckets().len() && self.buckets()[i as int].0 == round
                && self.buckets()[i as int].1 == block_id,
    {
        let mut i: usize = 0;
        while i < self.buckets.len()
            invariant
                i <= self.buckets@.len(),
                forall|j: int| 0 <= j < i ==> !(self.buckets()[j].0 == round && self.buckets()[j].1 == block_id),
            decreases self.buckets@.len() - i,
        {
            if self.buckets[i].round == round && self.buckets[i].block_id == block_id {
                proof {
                    assert(self.buckets()[i as int] == bucket_view(self.buckets@[i as int]));
                }
                return Some(i);
            }
            i = i + 1;
        }
        None
    }

    fn signed_by(votes: &Vec<MockVote>, signature: &MockSignature) -> (b: bool)
        ensures
            b == has_signature(votes@, *signature),
    {
        let mut i: usize = 0;
        while i < votes.len()
            invariant
                i <= votes@.len(),
                forall|j: int| 0 <= j < i ==> votes@[j].spec_signature() != *signature,
            decreases votes@.len() - i,
        {
            if votes[i].signature().0 == signature.0 {
                return true;
            }
            i = i + 1;
        }
        false
    }

    fn quorum_reached(votes: &Vec<MockVote>, verifier: &MockValidatorSet) -> (b: bool)
        ensures
            b == has_quorum(votes@, *verifier),
    {
        let aggregator = signatures_of(votes, verifier);
        aggregator.check_quorum(verifier).is_ok()
    }

    /// Adds a vote. A vote of a round before the current one is ignored
    /// (`OldRound`); one whose signature is already held for its block and
    /// round is refused (`Rejected`); otherwise it is stored, and the result
    /// says whether the distinct member authors of its block's votes now hold
    /// a quorum (`QuorumCompleted`) or not (`Accepted`).
    pub fn add_vote(&mut self, vote: std::sync::Arc<MockVote>, verifier: &MockValidatorSet) -> (r: VoteReceptionResult)
        requires
            old(self).wf(),
        ensures
            final(self).wf(),
            final(self).spec_current_round() == old(self).spec_current_round(),
            final(self).spec_max_rounds() == old(self).spec_max_rounds(),
            (final(self).buckets(), r) == add_vote_outcome(
                old(self).buckets(),
                old(self).spec_current_round(),
                *vote,
                *verifier,
            ),
    {
        let v: MockVote = *vote;
        let round = v.round();
        let block_id = v.block_id();
        if round < self.current_round {
            return VoteReceptionResult::OldRound;
        }
        let ghost ob = self.buckets();
        proof {
            lemma_votes_in(ob, round, block_id);
        }
        match self.find_bucket(round, block_id) {
            Some(i) => {
                proof {
                    assert(ob[i as int] == bucket_view(self.buckets@[i as int]));
                }
                if Self::signed_by(&self.buckets[i].votes, v.signature()) {
                    return VoteReceptionResult::Rejected(VoteStatus::Rejected);
                }
                let mut bucket = self.buckets.remove(i);
                bucket.votes.push(v);
                self.buckets.insert(i, bucket);
                proof {
                    let nb = self.buckets();
                    let c = choose|j: int| 0 <= j < ob.len() && ob[j].0 == round && ob[j].1 == block_id;
                    assert(c == i) by {
                        if c != i {
                            if c < i {
                                assert(!(ob[c].0 == ob[i as int].0 && ob[c].1 == ob[i as int].1));
                            } else {
                                assert(!(ob[i as int].0 == ob[c].0 && ob[i as int].1 == ob[c].1));
                            }
                        }
                    }
                    assert(nb =~= ob.update(i as int, (round, block_id, ob[i as int].2.push(v))));
                    assert(nb == add_to_buckets(ob, v));
                    Self::lemma_wf_after_add(ob, i as int, v);
                    lemma_votes_in(nb, round, block_id);
                    assert(nb[i as int] == bucket_view(self.buckets@[i as int]));
                }
                if Self::quorum_reached(&self.buckets[i].votes, verifier) {
                    VoteReceptionResult::QuorumCompleted
                } else {
                    VoteReceptionResult::Accepted
                }
            },
            None => {
                let mut votes: Vec<MockVote> = Vec::new();
                votes.push(v);
                let quorum = Self::quorum_reached(&votes, verifier);
                self.buckets.push(VoteBucket { round, block_id, votes });
                proof {
                    let nb = self.buckets();
                    assert(nb =~= ob.push((round, block_id, seq![v])));
                    assert(!has_signature(Seq::<MockVote>::empty(), v.spec_signature()));
                    assert(nb == add_to_buckets(ob, v));
                    assert(buckets_wf(nb)) by {
                        assert forall|i: int, j: int| 0 <= i < j < nb.len() implies !(nb[i].0 == nb[j].0 && nb[i].1
                            == nb[j].1) by {
                            if j < nb.len() - 1 {
                                assert(nb[i] == ob[i] && nb[j] == ob[j]);
                            } else {
                                assert(nb[i] == ob[i]);
                            }
                        }
                        assert forall|i: int, a: int, c: int|
                            0 <= i < nb.len() && 0 <= a < c < nb[i].2.len() implies nb[i].2[a].spec_signature()
                                != nb[i].2[c].spec_signature() by {
                            assert(nb[i] == ob[i]);
                        }
                        assert forall|i: int, a: int| 0 <= i < nb.len() && 0 <= a < nb[i].2.len() implies nb[i].2[a].spec_round()
                            == nb[i].0 && nb[i].2[a].spec_block_id() == nb[i].1 by {
                            if i < nb.len() - 1 {
                                assert(nb[i] == ob[i]);
                            }
                        }
                    }
                    lemma_votes_in(nb, round, block_id);
                    assert(nb[nb.len() - 1].2 == votes@);
                }
                if quorum {
                    VoteReceptionResult::QuorumCompleted
                } else {
                    VoteReceptionResult::Accepted
                }
            },
        }
    }

    proof fn lemma_wf_after_add(ob: Seq<BucketView>, i: int, v: MockVote)
        requires
            buckets_wf(ob),
            0 <= i < ob.len(),
            ob[i].0 == v.spec_round(),
            ob[i].1 == v.spec_block_id(),
            !has_signature(ob[i].2, v.spec_signature()),
        ensures
            buckets_wf(ob.update(i, (ob[i].0, ob[i].1, ob[i].2.push(v)))),
    {
        let nb = ob.update(i, (ob[i].0, ob[i].1, ob[i].2.push(v)));
        assert forall|p: int, q: int| 0 <= p < q < nb.len() implies !(nb[p].0 == nb[q].0 && nb[p].1 == nb[q].1) by {
            assert(nb[p].0 == ob[p].0 && nb[p].1 == ob[p].1);
            assert(nb[q].0 == ob[q].0 && nb[q].1 == ob[q].1);
        }
        assert forall|p: int, a: int, c: int|
            0 <= p < nb.len() && 0 <= a < c < nb[p].2.len() implies nb[p].2[a].spec_signature()
                != nb[p].2[c].spec_signature() by {
            if p == i {
                if c == ob[i].2.len() {
                    assert(nb[p].2[a] == ob[i].2[a]);
                } else {
                    assert(nb[p].2[a] == ob[i].2[a] && nb[p].2[c] == ob[i].2[c]);
                }
            }
        }
        assert forall|p: int, a: int| 0 <= p < nb.len() && 0 <= a < nb[p].2.len() implies nb[p].2[a].spec_round()
            == nb[p].0 && nb[p].2[a].spec_block_id() == nb[p].1 by {
            if p == i && a < ob[i].2.len() {
                assert(nb[p].2[a] == ob[i].2[a]);
            }
        }
    }

    /// The votes held for `block_id` in `round`, in arrival order.
    pub fn get_votes(&self, round: Round, block_id: MockHash) -> (r: Vec<MockVote>)
        requires
            self.wf(),
        ensures
            r@ == votes_in(self.buckets(), round, block_id),
    {
        proof {
            lemma_votes_in(self.buckets(), round, block_id);
        }
        match self.find_bucket(round, block_id) {
            Some(i) => {
                let mut out: Vec<MockVote> = Vec::new();
                let mut k: usize = 0;
                while k < self.buckets[i].votes.len()
                    invariant
                        i < self.buckets@.len(),
                        k <= self.buckets@[i as int].votes@.len(),
                        out@ == self.buckets@[i as int].votes@.take(k as int),
                    decreases self.buckets@[i as int].votes@.len() - k,
                {
                    out.push(self.buckets[i].votes[k]);
                    k = k + 1;
                    proof {
                        assert(out@ =~= self.buckets@[i as int].votes@.take(k as int));
                    }
                }
                proof {
                    assert(out@ =~= self.buckets@[i as int].votes@);
                    assert(self.buckets()[i as int].2 == self.buckets@[i as int].votes@);
                }
                out
            },
            None => Vec::new(),
        }
    }

    /// The number of votes held for `block_id` in `round`.
    pub fn vote_count(&self, round: Round, block_id: MockHash) -> (n: usize)
        requires
            self.wf(),
        ensures
            n == votes_in(self.buckets(), round, block_id).len(),
    {
        proof {
            lemma_votes_in(self.buckets(), round, block_id);
        }
        match self.find_bucket(round, block_id) {
            Some(i) => {
                proof {
                    assert(self.buckets()[i as int].2 == self.buckets@[i as int].votes@);
                }
                self.buckets[i].votes.len()
            },
            None => 0,
        }
    }

    /// Removes every vote of `round`.
    pub fn remove_round(&mut self, round: Round)
        requires
            old(self).wf(),
        ensures
            final(self).wf(),
            final(self).spec_current_round() == old(self).spec_current_round(),
            final(self).spec_max_rounds() == old(self).spec_max_rounds(),
            final(self).buckets() == retained(old(self).buckets(), false, round),
    {
        self.retain_buckets(false, round);
    }

    /// The number of votes held over all rounds and blocks.
    pub fn total_votes(&self) -> (n: usize)
        requires
            total_in(self.buckets()) <= usize::MAX,
        ensures
            n == total_in(self.buckets()),
    {
        let mut n: usize = 0;
        let mut i: usize = 0;
        while i < self.buckets.len()
            invariant
                i <= self.buckets@.len(),
                n == total_in(self.buckets().take(i as int)),
                total_in(self.buckets()) <= usize::MAX,
            decreases self.buckets@.len() - i,
        {
            proof {
                assert(self.buckets().take(i + 1).drop_last() =~= self.buckets().take(i as int));
                Self::lemma_total_prefix(self.buckets(), i + 1);
            }
            n = n + self.buckets[i].votes.len();
            i = i + 1;
        }
        proof {
            assert(self.buckets().take(i as int) =~= self.buckets());
        }
        n
    }

    proof fn lemma_total_prefix(b: Seq<BucketView>, k: int)
        requires
            0 <= k <= b.len(),
        ensures
            total_in(b.take(k)) <= total_in(b),
        decreases b.len() - k,
    {
        if k < b.len() {
            Self::lemma_total_prefix(b, k + 1);
            assert(b.take(k + 1).drop_last() =~= b.take(k));
        } else {
            assert(b.take(k) =~= b);
        }
    }

    /// The voting power of the validators who voted for `block_id` in
    /// `round`, each counted once however many of their votes are held.
    pub fn aggregated_voting_power(&self, round: Round, block_id: MockHash, verifier: &MockValidatorSet) -> (p: u128)
        requires
            self.wf(),
        ensures
            p == votes_power(votes_in(self.buckets(), round, block_id), verifier.members()),
    {
        let votes = self.get_votes(round, block_id);
        let aggregator = signatures_of(&votes, verifier);
        aggregator.voting_power()
    }

    /// Whether the voting power of the votes for `block_id` in `round`
    /// reaches the quorum.
    pub fn can_form_quorum(&self, round: Round, block_id: MockHash, verifier: &MockValidatorSet) -> (b: bool)
        requires
            self.wf(),
        ensures
            b == (votes_power(votes_in(self.buckets(), round, block_id), verifier.members()) >= verifier.quorum()),
    {
        let voting_power = self.aggregated_voting_power(round, block_id, verifier);
        voting_power >= verifier.quorum_voting_power()
    }
}


/// Adding a vote whose signature is not yet held for its block and round
/// keeps the buckets well formed and appends the vote to the votes held for
/// that block and round.
proof fn lemma_add_to_buckets(ob: Seq<BucketView>, v: MockVote)
    requires
        buckets_wf(ob),
        !has_signature(votes_in(ob, v.spec_round(), v.spec_block_id()), v.spec_signature()),
    ensures
        buckets_wf(add_to_buckets(ob, v)),
        votes_in(add_to_buckets(ob, v), v.spec_round(), v.spec_block_id()) == votes_in(
            ob,
            v.spec_round(),
            v.spec_block_id(),
        ).push(v),
{
    let round = v.spec_round();
    let block_id = v.spec_block_id();
    lemma_votes_in(ob, round, block_id);
    let nb = add_to_buckets(ob, v);
    if has_bucket(ob, round, block_id) {
        let i = choose|i: int| 0 <= i < ob.len() && ob[i].0 == round && ob[i].1 == block_id;
        PendingVotes::lemma_wf_after_add(ob, i, v);
        lemma_votes_in(nb, round, block_id);
        assert(nb[i].0 == round && nb[i].1 == block_id);
    } else {
        assert(nb =~= ob.push((round, block_id, seq![v])));
        assert(buckets_wf(nb)) by {
            assert forall|i: int, j: int| 0 <= i < j < nb.len() implies !(nb[i].0 == nb[j].0 && nb[i].1
                == nb[j].1) by {
                if j < nb.len() - 1 {
                    assert(nb[i] == ob[i] && nb[j] == ob[j]);
                } else {
                    assert(nb[i] == ob[i]);
                }
            }
            assert forall|i: int, a: int, c: int|
                0 <= i < nb.len() && 0 <= a < c < nb[i].2.len() implies nb[i].2[a].spec_signature()
                    != nb[i].2[c].spec_signature() by {
                assert(nb[i] == ob[i]);
            }
            assert forall|i: int, a: int| 0 <= i < nb.len() && 0 <= a < nb[i].2.len() implies nb[i].2[a].spec_round()
                == nb[i].0 && nb[i].2[a].spec_block_id() == nb[i].1 by {
                if i < nb.len() - 1 {
                    assert(nb[i] == ob[i]);
                }
            }
        }
        lemma_votes_in(nb, round, block_id);
        assert(nb[nb.len() - 1].0 == round && nb[nb.len() - 1].1 == block_id);
        assert(seq![v] =~= Seq::<MockVote>::empty().push(v));
    }
}

/// A vote of a round before the current one is ignored: the result is
/// `OldRound` and the held votes stay as they are.
pub proof fn lemma_old_round_vote_ignored(
    buckets: Seq<BucketView>,
    current_round: Round,
    vote: MockVote,
    verifier: MockValidatorSet,
)
    requires
        vote.spec_round() < current_round,
    ensures
        add_vote_outcome(buckets, current_round, vote, verifier) == (buckets, VoteReceptionResult::OldRound),
{
}

/// An accepted vote (whether or not it completes a quorum) is appended to
/// the votes held for its block and round, and the buckets stay well formed.
pub proof fn lemma_accepted_vote_held(
    buckets: Seq<BucketView>,
    current_round: Round,
    vote: MockVote,
    verifier: MockValidatorSet,
)
    requires
        buckets_wf(buckets),
        add_vote_outcome(buckets, current_round, vote, verifier).1 is Accepted || add_vote_outcome(
            buckets,
            current_round,
            vote,
            verifier,
        ).1 is QuorumCompleted,
    ensures
        buckets_wf(add_vote_outcome(buckets, current_round, vote, verifier).0),
        votes_in(add_vote_outcome(buckets, current_round, vote, verifier).0, vote.spec_round(), vote.spec_block_id())
            == votes_in(buckets, vote.spec_round(), vote.spec_block_id()).push(vote),
{
    lemma_add_to_buckets(buckets, vote);
}

/// Duplicate votes are refused: once a vote has been accepted, adding it
/// again yields `Rejected` and leaves the held votes as they are.
pub proof fn lemma_duplicate_vote_rejected(
    buckets: Seq<BucketView>,
    current_round: Round,
    vote: MockVote,
    verifier: MockValidatorSet,
)
    requires
        buckets_wf(buckets),
        add_vote_outcome(buckets, current_round, vote, verifier).1 is Accepted || add_vote_outcome(
            buckets,
            current_round,
            vote,
            verifier,
        ).1 is QuorumCompleted,
    ensures
        ({
            let after = add_vote_outcome(buckets, current_round, vote, verifier).0;
            add_vote_outcome(after, current_round, vote, verifier) == (
                after,
                VoteReceptionResult::Rejected(VoteStatus::Rejected),
            )
        }),
{
    lemma_add_to_buckets(buckets, vote);
    let held = votes_in(buckets, vote.spec_round(), vote.spec_block_id()).push(vote);
    assert(held[held.len() - 1].spec_signature() == vote.spec_signature());
}

/// Moving to a round cleans up old votes: the buckets kept are exactly those
/// of rounds at or after the cutoff, and none of an earlier round remains.
pub proof fn lemma_cleanup_keeps_recent_rounds(buckets: Seq<BucketView>, cutoff: Round)
    ensures
        forall|b: BucketView| #[trigger] retained(buckets, true, cutoff).contains(b) <==> buckets.contains(b) && b.0
            >= cutoff,
    decreases buckets.len(),
{
    if buckets.len() > 0 {
        let rest = buckets.drop_last();
        let last = buckets.last();
        lemma_cleanup_keeps_recent_rounds(rest, cutoff);
        assert(buckets =~= rest.push(last));
        let pre = retained(rest, true, cutoff);
        assert forall|b: BucketView| #[trigger] retained(buckets, true, cutoff).contains(b) <==> buckets.contains(b)
            && b.0 >= cutoff by {
            if bucket_kept(last.0, true, cutoff) {
                assert(retained(buckets, true, cutoff) == pre.push(last));
                if pre.push(last).contains(b) && b != last {
                    let k = choose|k: int| 0 <= k < pre.push(last).len() && pre.push(last)[k] == b;
                    assert(pre[k] == b);
                }
                if pre.contains(b) {
                    let k = choose|k: int| 0 <= k < pre.len() && pre[k] == b;
                    assert(pre.push(last)[k] == b);
                }
                assert(pre.push(last)[pre.len() as int] == last);
            }
            if buckets.contains(b) && b != last {
                let k = choose|k: int| 0 <= k < buckets.len() && buckets[k] == b;
                assert(rest[k] == b);
            }
            if rest.contains(b) {
                let k = choose|k: int| 0 <= k < rest.len() && rest[k] == b;
                assert(buckets[k] == b);
            }
            assert(buckets[buckets.len() - 1] == last);
        }
    }
}

/// Moving to a round drops exactly the votes of rounds before the cutoff:
/// each block of a later round keeps all its votes, each block of an
/// earlier round keeps none, and the total falls by the votes dropped.
pub proof fn lemma_cleanup_per_block(buckets: Seq<BucketView>, cutoff: Round)
    ensures
        forall|round: Round, block_id: MockHash| #[trigger] votes_in(retained(buckets, true, cutoff), round, block_id)
            == if round >= cutoff {
            votes_in(buckets, round, block_id)
        } else {
            Seq::<MockVote>::empty()
        },
        total_in(retained(buckets, true, cutoff)) + votes_below(buckets, cutoff) == total_in(buckets),
    decreases buckets.len(),
{
    if buckets.len() > 0 {
        let rest = buckets.drop_last();
        let last = buckets.last();
        lemma_cleanup_per_block(rest, cutoff);
        let pre = retained(rest, true, cutoff);
        if last.0 >= cutoff {
            assert(pre.push(last).drop_last() =~= pre);
        }
        assert forall|round: Round, block_id: MockHash| #[trigger] votes_in(
            retained(buckets, true, cutoff),
            round,
            block_id,
        ) == if round >= cutoff {
            votes_in(buckets, round, block_id)
        } else {
            Seq::<MockVote>::empty()
        } by {
            assert(votes_in(pre, round, block_id) == if round >= cutoff {
                votes_in(rest, round, block_id)
            } else {
                Seq::<MockVote>::empty()
            });
        }
    }
}

} // verus!
