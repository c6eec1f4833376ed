use vstd::prelude::*;

use crate::state::{Config, Identity, Treasury, UserProfile, VoteRecord};

verus! {

/// The sum of the stakes held by `ps`.
pub open spec fn total_stake(ps: Seq<UserProfile>) -> int
    decreases ps.len(),
{
    if ps.len() == 0 {
        0
    } else {
        total_stake(ps.drop_last()) + ps.last().stake_amount
    }
}

/// How many of `ps` hold a strictly positive stake.
pub open spec fn staker_count(ps: Seq<UserProfile>) -> int
    decreases ps.len(),
{
    if ps.len() == 0 {
        0
    } else {
        staker_count(ps.drop_last()) + if ps.last().stake_amount > 0 {
            1int
        } else {
            0int
        }
    }
}

/// No two profiles share a username.
pub open spec fn usernames_unique(ps: Seq<UserProfile>) -> bool {
    forall|i: int, j: int|
        0 <= i < j < ps.len() ==> #[trigger] ps[i].username@ != #[trigger] ps[j].username@
}

/// Whether some profile of `ps` holds the username `name`.
pub open spec fn username_taken(ps: Seq<UserProfile>, name: Seq<char>) -> bool {
    exists|i: int| 0 <= i < ps.len() && #[trigger] ps[i].username@ == name
}

/// The vote records of `votes` whose target is not `target`, in their order.
pub open spec fn votes_not_on(votes: Seq<VoteRecord>, target: Identity) -> Seq<VoteRecord> {
    votes.filter(|v: VoteRecord| v.target != target)
}

/// All the records of one ledger: the configuration, the treasury, the
/// profiles addressed by their index, and the vote records of the season.
pub struct Ledger {
    pub config: Option<Config>,
    pub treasury: Option<Treasury>,
    pub profiles: Vec<UserProfile>,
    pub votes: Vec<VoteRecord>,
}

impl Ledger {
    /// The ledger's invariant: tiers match reputations, usernames are
    /// unique, nobody holds a vote on themselves, and the treasury's totals
    /// agree with the profiles (before the treasury exists nobody has stake).
    pub open spec fn wf(&self) -> bool {
        &&& forall|i: int| 0 <= i < self.profiles@.len() ==> (#[trigger] self.profiles@[i]).wf()
        &&& usernames_unique(self.profiles@)
        &&& forall|k: int|
            0 <= k < self.votes@.len() ==> (#[trigger] self.votes@[k]).voter != self.votes@[k].target
        &&& match self.treasury {
            Some(t) => {
                &&& t.total_staked == total_stake(self.profiles@)
                &&& t.stakers_count == staker_count(self.profiles@)
            },
            None => forall|i: int|
                0 <= i < self.profiles@.len() ==> (#[trigger] self.profiles@[i]).stake_amount == 0,
        }
    }

    /// Whether `i` addresses a profile.
    pub open spec fn has_profile(&self, i: int) -> bool {
        0 <= i < self.profiles@.len()
    }

    /// Whether `voter` holds a vote on `target` in the current season.
    pub open spec fn has_voted(&self, voter: Identity, target: Identity) -> bool {
        self.votes@.contains(VoteRecord { voter, target })
    }

    /// An empty ledger: no configuration, no treasury, no profiles.
    pub fn new() -> (l: Ledger)
        ensures
            l.wf(),
            l.config is None,
            l.treasury is None,
            l.profiles@.len() == 0,
            l.votes@.len() == 0,
    {
        Ledger { config: None, treasury: None, profiles: Vec::new(), votes: Vec::new() }
    }
}

/// Replacing one profile changes the stake total by the difference of the
/// two stakes, and the staker count by the difference of their positivity.
pub proof fn lemma_update_profile(ps: Seq<UserProfile>, i: int, p: UserProfile)
    requires
        0 <= i < ps.len(),
    ensures
        total_stake(ps.update(i, p)) == total_stake(ps) - ps[i].stake_amount + p.stake_amount,
        staker_count(ps.update(i, p)) == staker_count(ps) - (if ps[i].stake_amount > 0 {
            1int
        } else {
            0int
        }) + (if p.stake_amount > 0 {
            1int
        } else {
            0int
        }),
    decreases ps.len(),
{
    let qs = ps.update(i, p);
    if i == ps.len() - 1 {
        assert(qs.drop_last() =~= ps.drop_last());
    } else {
        assert(qs.drop_last() =~= ps.drop_last().update(i, p));
        lemma_update_profile(ps.drop_last(), i, p);
    }
}

/// Appending a profile adds its stake to the total and counts it if positive.
pub proof fn lemma_push_profile(ps: Seq<UserProfile>, p: UserProfile)
    ensures
        total_stake(ps.push(p)) == total_stake(ps) + p.stake_amount,
        staker_count(ps.push(p)) == staker_count(ps) + if p.stake_amount > 0 {
            1int
        } else {
            0int
        },
{
    assert(ps.push(p).drop_last() =~= ps);
}

/// One profile's stake is part of the total, and a profile with stake is
/// part of the count.
pub proof fn lemma_part_of_total(ps: Seq<UserProfile>, i: int)
    requires
        0 <= i < ps.len(),
    ensures
        total_stake(ps) >= ps[i].stake_amount,
        ps[i].stake_amount > 0 ==> staker_count(ps) >= 1,
    decreases ps.len(),
{
    lemma_totals_nonnegative(ps.drop_last());
    if i < ps.len() - 1 {
        lemma_part_of_total(ps.drop_last(), i);
    }
}

/// Totals of stake and of stakers are never negative.
pub proof fn lemma_totals_nonnegative(ps: Seq<UserProfile>)
    ensures
        total_stake(ps) >= 0,
        staker_count(ps) >= 0,
    decreases ps.len(),
{
    if ps.len() > 0 {
        lemma_totals_nonnegative(ps.drop_last());
    }
}

/// Where nobody holds stake, both totals are zero.
pub proof fn lemma_no_stake(ps: Seq<UserProfile>)
    requires
        forall|i: int| 0 <= i < ps.len() ==> (#[trigger] ps[i]).stake_amount == 0,
    ensures
        total_stake(ps) == 0,
        staker_count(ps) == 0,
    decreases ps.len(),
{
    if ps.len() > 0 {
        assert(ps.last().stake_amount == 0);
        lemma_no_stake(ps.drop_last());
    }
}

} // verus!
