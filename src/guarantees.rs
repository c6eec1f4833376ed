//! Facts that relate several operations of the ledger.
use vstd::prelude::*;

use crate::error::ReputeDaoError;
use crate::ledger::{lemma_part_of_total, total_stake, Ledger};
use crate::repute_dao::{
    admin_refusal, create_refusal, reset_refusal, stake_applied, stake_refusal, unstake_applied,
    unstake_refusal, vote_applied, vote_refusal,
};
use crate::state::Identity;

verus! {

/// On a well-formed ledger a withdrawal is never refused for an underflow of
/// the treasury: every stake is part of the treasury's total and counted
/// among its stakers.
pub proof fn lemma_unstake_never_underflows(l: Ledger, caller: Identity, i: int, amount: u64)
    requires
        l.wf(),
    ensures
        unstake_refusal(l, caller, i, amount) != Some(ReputeDaoError::MathUnderflow),
{
    if l.config is Some && l.treasury is Some && l.has_profile(i) {
        lemma_part_of_total(l.profiles@, i);
    }
}

/// The sum of a sequence of signed stake changes.
pub open spec fn net_change(changes: Seq<int>) -> int
    decreases changes.len(),
{
    if changes.len() == 0 {
        0
    } else {
        net_change(changes.drop_last()) + changes.last()
    }
}

/// `after` follows `before` by a step that changes the stake of profile `i`
/// by `change`: a successful stake of `change`, a successful withdrawal of
/// `-change`, or a step that leaves the profiles alone (a refused operation,
/// or one on other records).
pub open spec fn stake_step(before: Ledger, after: Ledger, i: int, change: int) -> bool {
    let s = before.profiles@[i].stake_amount;
    ||| 0 < change && s + change <= u64::MAX && stake_applied(before, after, i, change as u64)
    ||| change <= 0 && -change <= s && unstake_applied(before, after, i, (-change) as u64)
    ||| change == 0 && after.profiles@ == before.profiles@
}

/// Over any history of stakes and withdrawals, a profile's stake is its
/// first stake plus the net sum of the changes, and never negative; on each
/// well-formed ledger of the history the treasury's total is the sum of all
/// stakes.
pub proof fn lemma_stake_history(ls: Seq<Ledger>, i: int, changes: Seq<int>)
    requires
        ls.len() == changes.len() + 1,
        0 <= i < ls[0].profiles@.len(),
        forall|k: int| 0 <= k < changes.len() ==> stake_step(ls[k], ls[k + 1], i, #[trigger] changes[k]),
    ensures
        ls.last().profiles@.len() == ls[0].profiles@.len(),
        ls.last().profiles@[i].stake_amount == ls[0].profiles@[i].stake_amount + net_change(changes),
        forall|k: int|
            0 <= k < ls.len() && (#[trigger] ls[k]).wf() && ls[k].treasury is Some
                ==> ls[k].treasury->0.total_staked == total_stake(ls[k].profiles@),
    decreases changes.len(),
{
    if changes.len() > 0 {
        let n = changes.len() - 1;
        let front = ls.drop_last();
        assert forall|k: int| 0 <= k < changes.drop_last().len() implies stake_step(
            front[k],
            front[k + 1],
            i,
            #[trigger] changes.drop_last()[k],
        ) by {
            assert(stake_step(ls[k], ls[k + 1], i, changes[k]));
        }
        lemma_stake_history(front, i, changes.drop_last());
        assert(stake_step(ls[n], ls[n + 1], i, changes[n]));
    }
}

/// Staking an amount and then withdrawing the same amount from the same
/// profile is always allowed and restores every profile's stake and the
/// treasury exactly: the stake is the net sum of what went in and out.
pub proof fn lemma_stake_then_unstake(
    l1: Ledger,
    l2: Ledger,
    l3: Ledger,
    caller: Identity,
    i: int,
    amount: u64,
)
    requires
        l1.wf(),
        l2.wf(),
        stake_refusal(l1, caller, i, amount) is None,
        stake_applied(l1, l2, i, amount),
        unstake_applied(l2, l3, i, amount),
    ensures
        unstake_refusal(l2, caller, i, amount) is None,
        l3.profiles@ == l1.profiles@,
        l3.treasury == l1.treasury,
        l3.config == l1.config,
        l3.votes == l1.votes,
{
    lemma_part_of_total(l2.profiles@, i);
    assert(l3.profiles@ =~= l1.profiles@);
}

/// After a vote from one profile on another has gone through, any second
/// vote, up or down, from the same profile on the same target is refused as
/// a duplicate.
pub proof fn lemma_vote_once(
    l1: Ledger,
    l2: Ledger,
    caller: Identity,
    voter: int,
    target: int,
    first_is_upvote: bool,
    second_is_upvote: bool,
)
    requires
        l1.wf(),
        vote_refusal(l1, caller, voter, target, first_is_upvote) is None,
        vote_applied(l1, l2, voter, target, first_is_upvote),
    ensures
        vote_refusal(l2, caller, voter, target, second_is_upvote) == Some(
            ReputeDaoError::DuplicateVote,
        ),
{
    let v = l1.profiles@[voter];
    let t = l1.profiles@[target];
    let record = crate::state::VoteRecord { voter: v.owner, target: t.owner };
    assert(l2.votes@[l1.votes@.len() as int] == record);
    assert(l2.has_voted(v.owner, t.owner));
}

/// A vote on one's own profile, or on a profile of the same owner, is
/// always refused; once the caller owns the voting profile and the system
/// runs, the refusal is for the self-vote, whatever the stake.
pub proof fn lemma_self_vote_rejected(
    l: Ledger,
    caller: Identity,
    voter: int,
    target: int,
    is_upvote: bool,
)
    requires
        voter == target || (l.has_profile(voter) && l.has_profile(target)
            && l.profiles@[voter].owner == l.profiles@[target].owner),
    ensures
        vote_refusal(l, caller, voter, target, is_upvote) is Some,
        l.config is Some && l.has_profile(voter) && l.profiles@[voter].owner == caller
            && !l.config->0.is_paused ==> vote_refusal(l, caller, voter, target, is_upvote)
            == Some(ReputeDaoError::SelfVoteNotAllowed),
{
}

/// A voter whose stake is below the configured minimum is refused for
/// insufficient stake, once the earlier checks pass.
pub proof fn lemma_low_stake_rejected(
    l: Ledger,
    caller: Identity,
    voter: int,
    target: int,
    is_upvote: bool,
)
    requires
        l.config is Some,
        l.has_profile(voter),
        l.has_profile(target),
        l.profiles@[voter].owner == caller,
        !l.config->0.is_paused,
        voter != target,
        l.profiles@[voter].owner != l.profiles@[target].owner,
        l.profiles@[voter].stake_amount < l.config->0.minimum_stake,
    ensures
        vote_refusal(l, caller, voter, target, is_upvote) == Some(
            ReputeDaoError::InsufficientStake,
        ),
{
}

/// While the system is paused every mutating operation but the pause switch
/// itself is refused: staking, withdrawing, voting, creating a profile,
/// resetting a profile and creating the treasury. Where the records exist
/// and the caller is entitled to act, the refusal is for the pause.
pub proof fn lemma_pause_blocks_all(
    l: Ledger,
    caller: Identity,
    i: int,
    j: int,
    amount: u64,
    is_upvote: bool,
    name: Seq<char>,
)
    requires
        l.config is Some,
        l.config->0.is_paused,
    ensures
        stake_refusal(l, caller, i, amount) is Some,
        unstake_refusal(l, caller, i, amount) is Some,
        vote_refusal(l, caller, i, j, is_upvote) is Some,
        create_refusal(l, name) == Some(ReputeDaoError::SystemPaused),
        reset_refusal(l, caller, i) is Some,
        admin_refusal(l, caller) is Some,
        l.treasury is Some && l.has_profile(i) && l.profiles@[i].owner == caller ==> {
            &&& stake_refusal(l, caller, i, amount) == Some(ReputeDaoError::SystemPaused)
            &&& unstake_refusal(l, caller, i, amount) == Some(ReputeDaoError::SystemPaused)
        },
        l.has_profile(i) && l.has_profile(j) && l.profiles@[i].owner == caller ==> vote_refusal(
            l,
            caller,
            i,
            j,
            is_upvote,
        ) == Some(ReputeDaoError::SystemPaused),
        l.config->0.admin == caller ==> admin_refusal(l, caller) == Some(
            ReputeDaoError::SystemPaused,
        ),
        l.has_profile(i) && l.config->0.admin == caller ==> reset_refusal(l, caller, i) == Some(
            ReputeDaoError::SystemPaused,
        ),
{
}

} // verus!
