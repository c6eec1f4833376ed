use vstd::prelude::*;

use crate::constants::{CONTRIBUTOR_THRESHOLD, ELDER_THRESHOLD, TRUSTED_THRESHOLD};

verus! {

/// An authenticated caller or account address: 256 opaque bits held as four
/// words, compared only for equality.
#[derive(PartialEq, Eq, Structural, Clone, Copy, Debug)]
pub struct Identity {
    pub w0: u64,
    pub w1: u64,
    pub w2: u64,
    pub w3: u64,
}

/// The role tiers, from lowest to highest.
#[derive(PartialEq, Eq, Structural, Clone, Copy, Debug)]
pub enum MemberRanks {
    Member,
    Contributor,
    Trusted,
    Elder,
}

/// The position of a tier in the order of tiers.
pub open spec fn rank_order(r: MemberRanks) -> nat {
    match r {
        MemberRanks::Member => 0,
        MemberRanks::Contributor => 1,
        MemberRanks::Trusted => 2,
        MemberRanks::Elder => 3,
    }
}

/// The tier that a reputation score earns.
pub open spec fn rank_for(points: int) -> MemberRanks {
    if points >= ELDER_THRESHOLD {
        MemberRanks::Elder
    } else if points >= TRUSTED_THRESHOLD {
        MemberRanks::Trusted
    } else if points >= CONTRIBUTOR_THRESHOLD {
        MemberRanks::Contributor
    } else {
        MemberRanks::Member
    }
}

/// Computes the tier that `points` earns.
pub fn rank_for_points(points: i64) -> (r: MemberRanks)
    ensures
        r == rank_for(points as int),
{
    if points >= ELDER_THRESHOLD {
        MemberRanks::Elder
    } else if points >= TRUSTED_THRESHOLD {
        MemberRanks::Trusted
    } else if points >= CONTRIBUTOR_THRESHOLD {
        MemberRanks::Contributor
    } else {
        MemberRanks::Member
    }
}

/// A higher reputation never earns a lower tier.
pub proof fn lemma_rank_monotonic(low: int, high: int)
    requires
        low <= high,
    ensures
        rank_order(rank_for(low)) <= rank_order(rank_for(high)),
{
}

/// The global parameters, owned by the administrator.
#[derive(PartialEq, Eq, Structural, Clone, Copy, Debug)]
pub struct Config {
    pub admin: Identity,
    pub minimum_stake: u64,
    pub token_mint: Identity,
    pub vote_power: u8,
    pub is_paused: bool,
    pub config_bump: u8,
}

/// Aggregate stake accounting over all profiles.
#[derive(PartialEq, Eq, Structural, Clone, Copy, Debug)]
pub struct Treasury {
    pub total_staked: u64,
    pub stakers_count: u64,
}

/// One participant's stake, reputation and vote tallies.
pub struct UserProfile {
    pub owner: Identity,
    pub username: String,
    pub stake_amount: u64,
    pub reputation_points: i64,
    pub upvotes_received: u64,
    pub downvotes_received: u64,
    pub role_level: MemberRanks,
}

impl UserProfile {
    /// The tier is the one that the reputation earns.
    pub open spec fn wf(&self) -> bool {
        self.role_level == rank_for(self.reputation_points as int)
    }

    /// A fresh profile: no stake, no reputation, lowest tier.
    pub fn new(owner: Identity, username: String) -> (p: UserProfile)
        ensures
            p.owner == owner,
            p.username == username,
            p.stake_amount == 0,
            p.reputation_points == 0,
            p.upvotes_received == 0,
            p.downvotes_received == 0,
            p.role_level == MemberRanks::Member,
            p.wf(),
    {
        UserProfile {
            owner,
            username,
            stake_amount: 0,
            reputation_points: 0,
            upvotes_received: 0,
            downvotes_received: 0,
            role_level: MemberRanks::Member,
        }
    }

    /// Clears the reputation-related fields; stake, owner and username stay.
    pub fn reset_reputation(&mut self)
        ensures
            final(self).owner == old(self).owner,
            final(self).username == old(self).username,
            final(self).stake_amount == old(self).stake_amount,
            final(self).reputation_points == 0,
            final(self).upvotes_received == 0,
            final(self).downvotes_received == 0,
            final(self).role_level == MemberRanks::Member,
            final(self).wf(),
    {
        self.reputation_points = 0;
        self.upvotes_received = 0;
        self.downvotes_received = 0;
        self.role_level = MemberRanks::Member;
    }
}

/// The marker that `voter` has voted on `target` in the current season.
#[derive(PartialEq, Eq, Structural, Clone, Copy, Debug)]
pub struct VoteRecord {
    pub voter: Identity,
    pub target: Identity,
}

} // verus!
