use vstd::prelude::*;

use crate::error::{ReputeDaoError, TransferError};
use crate::instructions::{fresh_config, reset_of, InitializeDao};
use crate::ledger::{
    lemma_no_stake, lemma_push_profile, lemma_update_profile, username_taken, votes_not_on, Ledger,
};
use crate::state::Config;
use crate::state::{
    rank_for, rank_for_points, Identity, MemberRanks, Treasury, UserProfile, VoteRecord,
};

verus! {

/// The result of an operation that is refused for `refusal`, if any.
pub open spec fn outcome(refusal: Option<ReputeDaoError>) -> Result<(), ReputeDaoError> {
    match refusal {
        Some(e) => Err(e),
        None => Ok(()),
    }
}

/// Creates the ledger's configuration, unpaused, unless one exists already.
/// `signer` pays for the record and need not be the admin.
pub fn initialize_dao(
    l: &mut Ledger,
    signer: Identity,
    admin: Identity,
    minimum_stake: u64,
    token_mint: Identity,
    vote_power: u8,
    config_bump: u8,
) -> (r: Result<(), ReputeDaoError>)
    requires
        old(l).wf(),
    ensures
        final(l).wf(),
        old(l).config is Some ==> r == Err::<(), ReputeDaoError>(
            ReputeDaoError::AlreadyInitialized,
        ) && *final(l) == *old(l),
        old(l).config is None ==> r is Ok && final(l).config == Some(
            fresh_config(admin, minimum_stake, token_mint, vote_power, config_bump),
        ) && final(l).treasury == old(l).treasury && final(l).profiles == old(l).profiles
            && final(l).votes == old(l).votes,
{
    let mut ctx = InitializeDao { signer, config: l.config };
    let r = ctx.initialize_dao(minimum_stake, admin, token_mint, vote_power, config_bump);
    if r.is_ok() {
        l.config = ctx.config;
    }
    r
}

/// Why `caller` may not perform an admin operation other than pausing, if
/// that is so.
pub open spec fn admin_refusal(l: Ledger, caller: Identity) -> Option<ReputeDaoError> {
    if l.config is None {
        Some(ReputeDaoError::NotFound)
    } else if l.config->0.admin != caller {
        Some(ReputeDaoError::UnauthorizedAdmin)
    } else if l.config->0.is_paused {
        Some(ReputeDaoError::SystemPaused)
    } else {
        None
    }
}

/// Creates the treasury with nothing staked. Only the admin may do so, and
/// only once.
pub fn initialize_treasury(l: &mut Ledger, caller: Identity) -> (r: Result<(), ReputeDaoError>)
    requires
        old(l).wf(),
    ensures
        final(l).wf(),
        r == match admin_refusal(*old(l), caller) {
            Some(e) => Err(e),
            None => if old(l).treasury is Some {
                Err(ReputeDaoError::AlreadyInitialized)
            } else {
                Ok(())
            },
        },
        r is Err ==> *final(l) == *old(l),
        r is Ok ==> final(l).treasury == Some(Treasury { total_staked: 0, stakers_count: 0 })
            && final(l).config == old(l).config && final(l).profiles == old(l).profiles
            && final(l).votes == old(l).votes,
{
    if l.config.is_none() {
        return Err(ReputeDaoError::NotFound);
    }
    let c = l.config.unwrap();
    if c.admin != caller {
        return Err(ReputeDaoError::UnauthorizedAdmin);
    }
    if c.is_paused {
        return Err(ReputeDaoError::SystemPaused);
    }
    if l.treasury.is_some() {
        return Err(ReputeDaoError::AlreadyInitialized);
    }
    proof {
        lemma_no_stake(l.profiles@);
    }
    l.treasury = Some(Treasury { total_staked: 0, stakers_count: 0 });
    Ok(())
}

/// Pauses or resumes the system. Only the admin may do so; this is the one
/// operation that a pause does not block, so that it can be lifted.
pub fn set_paused(l: &mut Ledger, caller: Identity, paused: bool) -> (r: Result<(), ReputeDaoError>)
    requires
        old(l).wf(),
    ensures
        final(l).wf(),
        r == if old(l).config is None {
            Err::<(), ReputeDaoError>(ReputeDaoError::NotFound)
        } else if old(l).config->0.admin != caller {
            Err(ReputeDaoError::UnauthorizedAdmin)
        } else {
            Ok(())
        },
        r is Err ==> *final(l) == *old(l),
        r is Ok ==> {
            let c = old(l).config->0;
            &&& final(l).config == Some(
                (Config {
                    admin: c.admin,
                    minimum_stake: c.minimum_stake,
                    token_mint: c.token_mint,
                    vote_power: c.vote_power,
                    is_paused: paused,
                    config_bump: c.config_bump,
                }),
            )
            &&& final(l).treasury == old(l).treasury
            &&& final(l).profiles == old(l).profiles
            &&& final(l).votes == old(l).votes
        },
{
    if l.config.is_none() {
        return Err(ReputeDaoError::NotFound);
    }
    let c = l.config.unwrap();
    if c.admin != caller {
        return Err(ReputeDaoError::UnauthorizedAdmin);
    }
    l.config = Some(Config { is_paused: paused, ..c });
    Ok(())
}

/// Why `caller` may not create a profile named `name`, if that is so.
pub open spec fn create_refusal(l: Ledger, name: Seq<char>) -> Option<ReputeDaoError> {
    if l.config is None {
        Some(ReputeDaoError::NotFound)
    } else if l.config->0.is_paused {
        Some(ReputeDaoError::SystemPaused)
    } else if username_taken(l.profiles@, name) {
        Some(ReputeDaoError::UsernameAlreadyTaken)
    } else {
        None
    }
}

/// The profile that `create_profile` appends.
pub open spec fn fresh_profile(owner: Identity, username: String) -> UserProfile {
    UserProfile {
        owner,
        username,
        stake_amount: 0,
        reputation_points: 0,
        upvotes_received: 0,
        downvotes_received: 0,
        role_level: MemberRanks::Member,
    }
}

/// Whether some profile of `l` is named `name`.
fn is_username_taken(l: &Ledger, name: &String) -> (r: bool)
    ensures
        r == username_taken(l.profiles@, name@),
{
    let mut k: usize = 0;
    while k < l.profiles.len()
        invariant
            k <= l.profiles@.len(),
            forall|j: int| 0 <= j < k ==> l.profiles@[j].username@ != name@,
        decreases l.profiles@.len() - k,
    {
        if l.profiles[k].username == *name {
            return true;
        }
        k = k + 1;
    }
    false
}

/// Appends a fresh profile owned by `caller` under `username`, with no
/// stake, no reputation and the lowest tier. The new profile is addressed
/// by the old number of profiles.
pub fn create_profile(l: &mut Ledger, caller: Identity, username: String) -> (r: Result<
    (),
    ReputeDaoError,
>)
    requires
        old(l).wf(),
    ensures
        final(l).wf(),
        r == outcome(create_refusal(*old(l), username@)),
        r is Err ==> *final(l) == *old(l),
        r is Ok ==> final(l).profiles@ == old(l).profiles@.push(fresh_profile(caller, username))
            && final(l).config == old(l).config && final(l).treasury == old(l).treasury
            && final(l).votes == old(l).votes,
{
    if l.config.is_none() {
        return Err(ReputeDaoError::NotFound);
    }
    if l.config.unwrap().is_paused {
        return Err(ReputeDaoError::SystemPaused);
    }
    if is_username_taken(l, &username) {
        return Err(ReputeDaoError::UsernameAlreadyTaken);
    }
    let ghost before = *l;
    let ghost name = username;
    l.profiles.push(UserProfile::new(caller, username));
    proof {
        lemma_push_profile(before.profiles@, fresh_profile(caller, name));
        assert(l.profiles@ =~= before.profiles@.push(fresh_profile(caller, name)));
    }
    Ok(())
}

/// Keeps, in order, the records of `votes` on targets other than `target`.
fn votes_without_target(votes: &Vec<VoteRecord>, target: Identity) -> (r: Vec<VoteRecord>)
    ensures
        r@ == votes_not_on(votes@, target),
{
    let mut out: Vec<VoteRecord> = Vec::new();
    let mut k: usize = 0;
    while k < votes.len()
        invariant
            k <= votes@.len(),
            out@ == votes_not_on(votes@.take(k as int), target),
        decreases votes@.len() - k,
    {
        proof {
            reveal(Seq::filter);
            assert(votes@.take(k + 1).drop_last() =~= votes@.take(k as int));
        }
        let v = votes[k];
        if v.target != target {
            out.push(v);
        }
        k = k + 1;
    }
    proof {
        assert(votes@.take(k as int) =~= votes@);
    }
    out
}

/// Why `caller` may not reset profile `i`, if that is so.
pub open spec fn reset_refusal(l: Ledger, caller: Identity, i: int) -> Option<ReputeDaoError> {
    if l.config is None || !l.has_profile(i) {
        Some(ReputeDaoError::NotFound)
    } else if l.config->0.admin != caller {
        Some(ReputeDaoError::UnauthorizedAdmin)
    } else if l.config->0.is_paused {
        Some(ReputeDaoError::SystemPaused)
    } else {
        None
    }
}

/// Clears the reputation, vote tallies and tier of profile `profile`, and
/// opens a new season for it: the vote records that target its owner are
/// dropped, so each voter may vote on it once more. Stake, owner and
/// username are kept. Only the admin may reset, and not while paused.
pub fn reset_user_reputation(l: &mut Ledger, caller: Identity, profile: usize) -> (r: Result<
    (),
    ReputeDaoError,
>)
    requires
        old(l).wf(),
    ensures
        final(l).wf(),
        r == outcome(reset_refusal(*old(l), caller, profile as int)),
        r is Err ==> *final(l) == *old(l),
        r is Ok ==> {
            let p = old(l).profiles@[profile as int];
            &&& final(l).config == old(l).config
            &&& final(l).treasury == old(l).treasury
            &&& final(l).profiles@ == old(l).profiles@.update(profile as int, reset_of(p))
            &&& final(l).votes@ == votes_not_on(old(l).votes@, p.owner)
        },
{
    if l.config.is_none() || profile >= l.profiles.len() {
        return Err(ReputeDaoError::NotFound);
    }
    let c = l.config.unwrap();
    if c.admin != caller {
        return Err(ReputeDaoError::UnauthorizedAdmin);
    }
    if c.is_paused {
        return Err(ReputeDaoError::SystemPaused);
    }
    let ghost before = *l;
    let owner = l.profiles[profile].owner;
    let kept = votes_without_target(&l.votes, owner);
    l.votes = kept;
    l.profiles[profile].reset_reputation();
    proof {
        let q = reset_of(before.profiles@[profile as int]);
        assert(l.profiles@ =~= before.profiles@.update(profile as int, q));
        lemma_update_profile(before.profiles@, profile as int, q);
        assert(forall|i: int|
            0 <= i < l.profiles@.len() ==> l.profiles@[i].username@
                == before.profiles@[i].username@);
        let pred = |v: VoteRecord| v.target != owner;
        assert forall|k: int| 0 <= k < l.votes@.len() implies (#[trigger] l.votes@[k]).voter
            != l.votes@[k].target by {
            before.votes@.lemma_filter_contains_rev(pred, l.votes@[k]);
        }
    }
    Ok(())
}

/// `p` with its stake set to `amount`.
pub open spec fn with_stake(p: UserProfile, amount: int) -> UserProfile {
    UserProfile {
        owner: p.owner,
        username: p.username,
        stake_amount: amount as u64,
        reputation_points: p.reputation_points,
        upvotes_received: p.upvotes_received,
        downvotes_received: p.downvotes_received,
        role_level: p.role_level,
    }
}

/// `after` is `before` with `amount` more staked on profile `i`: the
/// profile's stake and the treasury's total grow by `amount`, the staker
/// count grows by one exactly when the profile had no stake; nothing else
/// changes.
pub open spec fn stake_applied(before: Ledger, after: Ledger, i: int, amount: u64) -> bool {
    let p = before.profiles@[i];
    let t = before.treasury->0;
    &&& after.config == before.config
    &&& after.votes == before.votes
    &&& after.profiles@ == before.profiles@.update(i, with_stake(p, p.stake_amount + amount))
    &&& after.treasury == Some(
        (Treasury {
            total_staked: (t.total_staked + amount) as u64,
            stakers_count: (t.stakers_count + if p.stake_amount == 0 {
                1int
            } else {
                0int
            }) as u64,
        }),
    )
}

/// `after` is `before` with `amount` withdrawn from profile `i`: the
/// profile's stake and the treasury's total shrink by `amount`, the staker
/// count shrinks by one exactly when the stake goes from positive to zero;
/// nothing else changes.
pub open spec fn unstake_applied(before: Ledger, after: Ledger, i: int, amount: u64) -> bool {
    let p = before.profiles@[i];
    let t = before.treasury->0;
    &&& after.config == before.config
    &&& after.votes == before.votes
    &&& after.profiles@ == before.profiles@.update(i, with_stake(p, p.stake_amount - amount))
    &&& after.treasury == Some(
        (Treasury {
            total_staked: (t.total_staked - amount) as u64,
            stakers_count: (t.stakers_count - if p.stake_amount > 0 && p.stake_amount == amount {
                1int
            } else {
                0int
            }) as u64,
        }),
    )
}

/// Why staking `amount` on profile `i` on behalf of `caller` is refused, if
/// it is; the token transfer is not yet considered.
pub open spec fn stake_refusal(l: Ledger, caller: Identity, i: int, amount: u64) -> Option<
    ReputeDaoError,
> {
    if l.config is None || l.treasury is None || !l.has_profile(i) {
        Some(ReputeDaoError::NotFound)
    } else if l.profiles@[i].owner != caller {
        Some(ReputeDaoError::UnauthorizedOwner)
    } else if l.config->0.is_paused {
        Some(ReputeDaoError::SystemPaused)
    } else if amount == 0 {
        Some(ReputeDaoError::InvalidStakeAmount)
    } else if l.profiles@[i].stake_amount + amount > u64::MAX || l.treasury->0.total_staked
        + amount > u64::MAX || (l.profiles@[i].stake_amount == 0
        && l.treasury->0.stakers_count == u64::MAX) {
        Some(ReputeDaoError::MathOverflow)
    } else {
        None
    }
}

/// Decides whether staking `amount` on profile `profile` on behalf of
/// `caller` may go ahead, before any tokens move.
pub fn check_stake(l: &Ledger, caller: Identity, profile: usize, amount: u64) -> (r: Result<
    (),
    ReputeDaoError,
>)
    ensures
        r == outcome(stake_refusal(*l, caller, profile as int, amount)),
{
    if l.config.is_none() || l.treasury.is_none() || profile >= l.profiles.len() {
        return Err(ReputeDaoError::NotFound);
    }
    let config = l.config.unwrap();
    let treasury = l.treasury.unwrap();
    let p = &l.profiles[profile];
    if p.owner != caller {
        return Err(ReputeDaoError::UnauthorizedOwner);
    }
    if config.is_paused {
        return Err(ReputeDaoError::SystemPaused);
    }
    if amount == 0 {
        return Err(ReputeDaoError::InvalidStakeAmount);
    }
    if p.stake_amount > u64::MAX - amount || treasury.total_staked > u64::MAX - amount || (
    p.stake_amount == 0 && treasury.stakers_count == u64::MAX) {
        return Err(ReputeDaoError::MathOverflow);
    }
    Ok(())
}

/// Locks `amount` more tokens in profile `profile`. `transfer` is what the
/// token transfer service answered for moving `amount` from the owner to the
/// treasury; it is only consulted when every other check passes. On success
/// the profile's stake and the treasury's total grow by `amount`, and the
/// staker count grows by one exactly when the profile had no stake before.
/// On any failure nothing changes.
pub fn stake_tokens(
    l: &mut Ledger,
    caller: Identity,
    profile: usize,
    amount: u64,
    transfer: Result<(), TransferError>,
) -> (r: Result<(), ReputeDaoError>)
    requires
        old(l).wf(),
    ensures
        final(l).wf(),
        r == match stake_refusal(*old(l), caller, profile as int, amount) {
            Some(e) => Err(e),
            None => if transfer is Ok {
                Ok(())
            } else {
                Err(ReputeDaoError::TransferFailed)
            },
        },
        r is Err ==> *final(l) == *old(l),
        r is Ok ==> stake_applied(*old(l), *final(l), profile as int, amount),
{
    let checked = check_stake(l, caller, profile, amount);
    if let Err(e) = checked {
        return Err(e);
    }
    if transfer.is_err() {
        return Err(ReputeDaoError::TransferFailed);
    }
    let ghost before = *l;
    let t = l.treasury.unwrap();
    let old_stake = l.profiles[profile].stake_amount;
    let stakers_count = if old_stake == 0 {
        t.stakers_count + 1
    } else {
        t.stakers_count
    };
    l.treasury = Some(Treasury { total_staked: t.total_staked + amount, stakers_count });
    l.profiles[profile].stake_amount = old_stake + amount;
    proof {
        let p = before.profiles@[profile as int];
        assert(l.profiles@ =~= before.profiles@.update(profile as int, with_stake(p, p.stake_amount + amount)));
        lemma_update_profile(before.profiles@, profile as int, with_stake(p, p.stake_amount + amount));
        assert(forall|i: int| 0 <= i < l.profiles@.len() ==> l.profiles@[i].username@ == before.profiles@[i].username@);
    }
    Ok(())
}

/// Why withdrawing `amount` from profile `i` on behalf of `caller` is
/// refused, if it is; the token transfer is not yet considered.
pub open spec fn unstake_refusal(l: Ledger, caller: Identity, i: int, amount: u64) -> Option<
    ReputeDaoError,
> {
    if l.config is None || l.treasury is None || !l.has_profile(i) {
        Some(ReputeDaoError::NotFound)
    } else if l.profiles@[i].owner != caller {
        Some(ReputeDaoError::UnauthorizedOwner)
    } else if l.config->0.is_paused {
        Some(ReputeDaoError::SystemPaused)
    } else if amount > l.profiles@[i].stake_amount {
        Some(ReputeDaoError::InsufficientStake)
    } else if l.treasury->0.total_staked < amount || (l.profiles@[i].stake_amount > 0
        && l.profiles@[i].stake_amount == amount && l.treasury->0.stakers_count == 0) {
        Some(ReputeDaoError::MathUnderflow)
    } else {
        None
    }
}

/// Decides whether withdrawing `amount` from profile `profile` on behalf of
/// `caller` may go ahead, before any tokens move.
pub fn check_unstake(l: &Ledger, caller: Identity, profile: usize, amount: u64) -> (r: Result<
    (),
    ReputeDaoError,
>)
    ensures
        r == outcome(unstake_refusal(*l, caller, profile as int, amount)),
{
    if l.config.is_none() || l.treasury.is_none() || profile >= l.profiles.len() {
        return Err(ReputeDaoError::NotFound);
    }
    let config = l.config.unwrap();
    let treasury = l.treasury.unwrap();
    let p = &l.profiles[profile];
    if p.owner != caller {
        return Err(ReputeDaoError::UnauthorizedOwner);
    }
    if config.is_paused {
        return Err(ReputeDaoError::SystemPaused);
    }
    if amount > p.stake_amount {
        return Err(ReputeDaoError::InsufficientStake);
    }
    if treasury.total_staked < amount || (p.stake_amount > 0 && p.stake_amount == amount
        && treasury.stakers_count == 0) {
        return Err(ReputeDaoError::MathUnderflow);
    }
    Ok(())
}

/// Releases `amount` tokens from profile `profile`. `transfer` is what the
/// token transfer service answered for moving `amount` from the treasury
/// back to the owner; it is only consulted when every other check passes.
/// On success the profile's stake and the treasury's total shrink by
/// `amount`, and the staker count shrinks by one exactly when the profile's
/// stake goes from positive to zero; a withdrawal of zero changes nothing.
/// On any failure nothing changes.
pub fn unstake_tokens(
    l: &mut Ledger,
    caller: Identity,
    profile: usize,
    amount: u64,
    transfer: Result<(), TransferError>,
) -> (r: Result<(), ReputeDaoError>)
    requires
        old(l).wf(),
    ensures
        final(l).wf(),
        r == match unstake_refusal(*old(l), caller, profile as int, amount) {
            Some(e) => Err(e),
            None => if transfer is Ok {
                Ok(())
            } else {
                Err(ReputeDaoError::TransferFailed)
            },
        },
        r is Err ==> *final(l) == *old(l),
        r is Ok ==> unstake_applied(*old(l), *final(l), profile as int, amount),
{
    let checked = check_unstake(l, caller, profile, amount);
    if let Err(e) = checked {
        return Err(e);
    }
    if transfer.is_err() {
        return Err(ReputeDaoError::TransferFailed);
    }
    let ghost before = *l;
    let t = l.treasury.unwrap();
    let old_stake = l.profiles[profile].stake_amount;
    let stakers_count = if old_stake > 0 && old_stake == amount {
        t.stakers_count - 1
    } else {
        t.stakers_count
    };
    l.treasury = Some(Treasury { total_staked: t.total_staked - amount, stakers_count });
    l.profiles[profile].stake_amount = old_stake - amount;
    proof {
        let p = before.profiles@[profile as int];
        let q = with_stake(p, p.stake_amount - amount);
        assert(l.profiles@ =~= before.profiles@.update(profile as int, q));
        lemma_update_profile(before.profiles@, profile as int, q);
        assert(forall|i: int|
            0 <= i < l.profiles@.len() ==> l.profiles@[i].username@
                == before.profiles@[i].username@);
    }
    Ok(())
}

/// `p` after receiving one vote of weight `power`, up or down.
pub open spec fn voted(p: UserProfile, is_upvote: bool, power: u8) -> UserProfile {
    let points = if is_upvote {
        p.reputation_points + power
    } else {
        p.reputation_points - power
    };
    UserProfile {
        owner: p.owner,
        username: p.username,
        stake_amount: p.stake_amount,
        reputation_points: points as i64,
        upvotes_received: if is_upvote {
            (p.upvotes_received + 1) as u64
        } else {
            p.upvotes_received
        },
        downvotes_received: if is_upvote {
            p.downvotes_received
        } else {
            (p.downvotes_received + 1) as u64
        },
        role_level: rank_for(points),
    }
}

/// `after` is `before` with one vote from profile `voter` on profile
/// `target` applied: the pair is recorded and the target's reputation,
/// tally and tier are moved; nothing else changes.
pub open spec fn vote_applied(
    before: Ledger,
    after: Ledger,
    voter: int,
    target: int,
    is_upvote: bool,
) -> bool {
    let v = before.profiles@[voter];
    let t = before.profiles@[target];
    &&& after.config == before.config
    &&& after.treasury == before.treasury
    &&& after.votes@ == before.votes@.push(VoteRecord { voter: v.owner, target: t.owner })
    &&& after.profiles@ == before.profiles@.update(
        target,
        voted(t, is_upvote, before.config->0.vote_power),
    )
}

/// Why a vote from profile `voter`, cast by `caller`, on profile `target`
/// is refused, if it is.
pub open spec fn vote_refusal(
    l: Ledger,
    caller: Identity,
    voter: int,
    target: int,
    is_upvote: bool,
) -> Option<ReputeDaoError> {
    if l.config is None || !l.has_profile(voter) || !l.has_profile(target) {
        Some(ReputeDaoError::NotFound)
    } else {
        let c = l.config->0;
        let v = l.profiles@[voter];
        let t = l.profiles@[target];
        if v.owner != caller {
            Some(ReputeDaoError::UnauthorizedOwner)
        } else if c.is_paused {
            Some(ReputeDaoError::SystemPaused)
        } else if voter == target || v.owner == t.owner {
            Some(ReputeDaoError::SelfVoteNotAllowed)
        } else if v.stake_amount < c.minimum_stake {
            Some(ReputeDaoError::InsufficientStake)
        } else if l.has_voted(v.owner, t.owner) {
            Some(ReputeDaoError::DuplicateVote)
        } else if is_upvote && (t.reputation_points + c.vote_power > i64::MAX
            || t.upvotes_received == u64::MAX) {
            Some(ReputeDaoError::MathOverflow)
        } else if !is_upvote && t.reputation_points - c.vote_power < i64::MIN {
            Some(ReputeDaoError::MathUnderflow)
        } else if !is_upvote && t.downvotes_received == u64::MAX {
            Some(ReputeDaoError::MathOverflow)
        } else {
            None
        }
    }
}

/// Whether `votes` holds `record`.
fn contains_vote(votes: &Vec<VoteRecord>, record: VoteRecord) -> (r: bool)
    ensures
        r == votes@.contains(record),
{
    let mut k: usize = 0;
    while k < votes.len()
        invariant
            k <= votes@.len(),
            forall|j: int| 0 <= j < k ==> votes@[j] != record,
        decreases votes@.len() - k,
    {
        if votes[k] == record {
            return true;
        }
        k = k + 1;
    }
    false
}

/// Decides whether a vote from profile `voter`, cast by `caller`, on profile
/// `target` may go ahead.
pub fn check_vote(l: &Ledger, caller: Identity, voter: usize, target: usize, is_upvote: bool) -> (r:
    Result<(), ReputeDaoError>)
    ensures
        r == outcome(vote_refusal(*l, caller, voter as int, target as int, is_upvote)),
{
    if l.config.is_none() || voter >= l.profiles.len() || target >= l.profiles.len() {
        return Err(ReputeDaoError::NotFound);
    }
    let c = l.config.unwrap();
    let v = &l.profiles[voter];
    let t = &l.profiles[target];
    if v.owner != caller {
        return Err(ReputeDaoError::UnauthorizedOwner);
    }
    if c.is_paused {
        return Err(ReputeDaoError::SystemPaused);
    }
    if voter == target || v.owner == t.owner {
        return Err(ReputeDaoError::SelfVoteNotAllowed);
    }
    if v.stake_amount < c.minimum_stake {
        return Err(ReputeDaoError::InsufficientStake);
    }
    if contains_vote(&l.votes, VoteRecord { voter: v.owner, target: t.owner }) {
        return Err(ReputeDaoError::DuplicateVote);
    }
    let power = c.vote_power as i64;
    if is_upvote && (t.reputation_points > i64::MAX - power || t.upvotes_received == u64::MAX) {
        return Err(ReputeDaoError::MathOverflow);
    }
    if !is_upvote && t.reputation_points < i64::MIN + power {
        return Err(ReputeDaoError::MathUnderflow);
    }
    if !is_upvote && t.downvotes_received == u64::MAX {
        return Err(ReputeDaoError::MathOverflow);
    }
    Ok(())
}

/// Casts one vote from profile `voter` on profile `target`: records the
/// pair for the season, moves the target's reputation by the configured
/// vote power, counts the vote and recomputes the target's tier. On any
/// failure nothing changes.
pub fn cast_vote(l: &mut Ledger, caller: Identity, voter: usize, target: usize, is_upvote: bool) -> (r:
    Result<(), ReputeDaoError>)
    requires
        old(l).wf(),
    ensures
        final(l).wf(),
        r == outcome(vote_refusal(*old(l), caller, voter as int, target as int, is_upvote)),
        r is Err ==> *final(l) == *old(l),
        r is Ok ==> vote_applied(*old(l), *final(l), voter as int, target as int, is_upvote),
{
    let checked = check_vote(l, caller, voter, target, is_upvote);
    if let Err(e) = checked {
        return Err(e);
    }
    let ghost before = *l;
    let power = l.config.unwrap().vote_power as i64;
    let record = VoteRecord { voter: l.profiles[voter].owner, target: l.profiles[target].owner };
    let points = if is_upvote {
        l.profiles[target].reputation_points + power
    } else {
        l.profiles[target].reputation_points - power
    };
    if is_upvote {
        l.profiles[target].upvotes_received = l.profiles[target].upvotes_received + 1;
    } else {
        l.profiles[target].downvotes_received = l.profiles[target].downvotes_received + 1;
    }
    l.profiles[target].reputation_points = points;
    l.profiles[target].role_level = rank_for_points(points);
    l.votes.push(record);
    proof {
        let t = before.profiles@[target as int];
        let q = voted(t, is_upvote, before.config->0.vote_power);
        assert(l.profiles@ =~= before.profiles@.update(target as int, q));
        lemma_update_profile(before.profiles@, target as int, q);
        assert(forall|i: int|
            0 <= i < l.profiles@.len() ==> l.profiles@[i].username@
                == before.profiles@[i].username@);
        assert(forall|i: int|
            0 <= i < l.profiles@.len() ==> l.profiles@[i].stake_amount
                == before.profiles@[i].stake_amount);
    }
    Ok(())
}

/// Casts an upvote from profile `voter` on profile `target`; see
/// [`cast_vote`].
pub fn upvote(l: &mut Ledger, caller: Identity, voter: usize, target: usize) -> (r: Result<
    (),
    ReputeDaoError,
>)
    requires
        old(l).wf(),
    ensures
        final(l).wf(),
        r == outcome(vote_refusal(*old(l), caller, voter as int, target as int, true)),
        r is Err ==> *final(l) == *old(l),
        r is Ok ==> vote_applied(*old(l), *final(l), voter as int, target as int, true),
{
    cast_vote(l, caller, voter, target, true)
}

/// Casts a downvote from profile `voter` on profile `target`; see
/// [`cast_vote`].
pub fn downvote(l: &mut Ledger, caller: Identity, voter: usize, target: usize) -> (r: Result<
    (),
    ReputeDaoError,
>)
    requires
        old(l).wf(),
    ensures
        final(l).wf(),
        r == outcome(vote_refusal(*old(l), caller, voter as int, target as int, false)),
        r is Err ==> *final(l) == *old(l),
        r is Ok ==> vote_applied(*old(l), *final(l), voter as int, target as int, false),
{
    cast_vote(l, caller, voter, target, false)
}

} // verus!
