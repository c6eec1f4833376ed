use repute_dao::error::{ReputeDaoError, TransferError};
use repute_dao::instructions::{InitializeDao, ResetUserReputation};
use repute_dao::ledger::Ledger;
use repute_dao::repute_dao::{
    check_stake, check_unstake, check_vote, create_profile, downvote, initialize_dao,
    initialize_treasury, reset_user_reputation, set_paused, stake_tokens, unstake_tokens, upvote,
};
use repute_dao::state::{rank_for_points, Config, Identity, MemberRanks, UserProfile, VoteRecord};

fn id(n: u64) -> Identity {
    Identity { w0: n, w1: 7, w2: 0, w3: n }
}

const ADMIN: u64 = 1;
const ALICE: u64 = 2;
const BOB: u64 = 3;
const CAROL: u64 = 4;

/// A ledger with minimum stake 100, vote power 5, a treasury, and the
/// profiles alice (0), bob (1) and carol (2).
fn setup() -> Ledger {
    let mut l = Ledger::new();
    assert_eq!(initialize_dao(&mut l, id(9), id(ADMIN), 100, id(50), 5, 254), Ok(()));
    assert_eq!(initialize_treasury(&mut l, id(ADMIN)), Ok(()));
    assert_eq!(create_profile(&mut l, id(ALICE), String::from("alice")), Ok(()));
    assert_eq!(create_profile(&mut l, id(BOB), String::from("bob")), Ok(()));
    assert_eq!(create_profile(&mut l, id(CAROL), String::from("carol")), Ok(()));
    l
}

fn totals(l: &Ledger) -> (u64, u64) {
    let t = l.treasury.unwrap();
    (t.total_staked, t.stakers_count)
}

#[test]
fn initialize_sets_config_unpaused() {
    let mut l = Ledger::new();
    assert_eq!(initialize_dao(&mut l, id(9), id(ADMIN), 100, id(50), 5, 254), Ok(()));
    let c = l.config.unwrap();
    assert_eq!(c.admin, id(ADMIN));
    assert_eq!(c.minimum_stake, 100);
    assert_eq!(c.token_mint, id(50));
    assert_eq!(c.vote_power, 5);
    assert_eq!(c.config_bump, 254);
    assert!(!c.is_paused);
    assert_eq!(
        initialize_dao(&mut l, id(9), id(ALICE), 1, id(51), 1, 1),
        Err(ReputeDaoError::AlreadyInitialized)
    );
    assert_eq!(l.config.unwrap().admin, id(ADMIN));
}

#[test]
fn initialize_dao_context_refuses_second_config() {
    let mut ctx = InitializeDao { signer: id(9), config: None };
    assert_eq!(ctx.initialize_dao(10, id(ADMIN), id(50), 3, 7), Ok(()));
    assert_eq!(ctx.config.unwrap().vote_power, 3);
    assert_eq!(
        ctx.initialize_dao(20, id(ADMIN), id(50), 4, 7),
        Err(ReputeDaoError::AlreadyInitialized)
    );
    assert_eq!(ctx.config.unwrap().minimum_stake, 10);
}

#[test]
fn treasury_needs_config_admin_and_is_created_once() {
    let mut l = Ledger::new();
    assert_eq!(initialize_treasury(&mut l, id(ADMIN)), Err(ReputeDaoError::NotFound));
    initialize_dao(&mut l, id(9), id(ADMIN), 100, id(50), 5, 0).unwrap();
    assert_eq!(initialize_treasury(&mut l, id(ALICE)), Err(ReputeDaoError::UnauthorizedAdmin));
    assert_eq!(initialize_treasury(&mut l, id(ADMIN)), Ok(()));
    assert_eq!(totals(&l), (0, 0));
    assert_eq!(initialize_treasury(&mut l, id(ADMIN)), Err(ReputeDaoError::AlreadyInitialized));
}

#[test]
fn create_profile_ix_success() {
    let l = setup();
    assert_eq!(l.profiles.len(), 3);
    let p = &l.profiles[0];
    assert_eq!(p.owner, id(ALICE));
    assert_eq!(p.username, "alice");
    assert_eq!(p.stake_amount, 0);
    assert_eq!(p.reputation_points, 0);
    assert_eq!(p.upvotes_received, 0);
    assert_eq!(p.downvotes_received, 0);
    assert_eq!(p.role_level, MemberRanks::Member);
}

#[test]
fn create_profile_rejects_taken_username() {
    let mut l = setup();
    assert_eq!(
        create_profile(&mut l, id(CAROL + 10), String::from("bob")),
        Err(ReputeDaoError::UsernameAlreadyTaken)
    );
    assert_eq!(l.profiles.len(), 3);
}

#[test]
fn create_profile_needs_config() {
    let mut l = Ledger::new();
    assert_eq!(create_profile(&mut l, id(ALICE), String::from("alice")), Err(ReputeDaoError::NotFound));
}

#[test]
fn stake_updates_profile_and_treasury() {
    let mut l = setup();
    assert_eq!(stake_tokens(&mut l, id(ALICE), 0, 150, Ok(())), Ok(()));
    assert_eq!(l.profiles[0].stake_amount, 150);
    assert_eq!(totals(&l), (150, 1));
    // a top-up does not count the staker again
    assert_eq!(stake_tokens(&mut l, id(ALICE), 0, 50, Ok(())), Ok(()));
    assert_eq!(l.profiles[0].stake_amount, 200);
    assert_eq!(totals(&l), (200, 1));
    assert_eq!(stake_tokens(&mut l, id(BOB), 1, 30, Ok(())), Ok(()));
    assert_eq!(totals(&l), (230, 2));
}

#[test]
fn stake_rejects_zero_amount() {
    let mut l = setup();
    assert_eq!(check_stake(&l, id(ALICE), 0, 0), Err(ReputeDaoError::InvalidStakeAmount));
    assert_eq!(stake_tokens(&mut l, id(ALICE), 0, 0, Ok(())), Err(ReputeDaoError::InvalidStakeAmount));
    assert_eq!(totals(&l), (0, 0));
}

#[test]
fn stake_rejects_other_owner() {
    let mut l = setup();
    assert_eq!(stake_tokens(&mut l, id(BOB), 0, 10, Ok(())), Err(ReputeDaoError::UnauthorizedOwner));
    assert_eq!(l.profiles[0].stake_amount, 0);
}

#[test]
fn stake_rejects_missing_profile() {
    let mut l = setup();
    assert_eq!(stake_tokens(&mut l, id(ALICE), 3, 10, Ok(())), Err(ReputeDaoError::NotFound));
}

#[test]
fn stake_overflow_changes_nothing() {
    let mut l = setup();
    assert_eq!(stake_tokens(&mut l, id(ALICE), 0, u64::MAX, Ok(())), Ok(()));
    assert_eq!(check_stake(&l, id(BOB), 1, 1), Err(ReputeDaoError::MathOverflow));
    assert_eq!(stake_tokens(&mut l, id(BOB), 1, 1, Ok(())), Err(ReputeDaoError::MathOverflow));
    assert_eq!(l.profiles[1].stake_amount, 0);
    assert_eq!(totals(&l), (u64::MAX, 1));
}

#[test]
fn stake_failed_transfer_changes_nothing() {
    let mut l = setup();
    assert_eq!(
        stake_tokens(&mut l, id(ALICE), 0, 10, Err(TransferError::InsufficientFunds)),
        Err(ReputeDaoError::TransferFailed)
    );
    assert_eq!(l.profiles[0].stake_amount, 0);
    assert_eq!(totals(&l), (0, 0));
}

#[test]
fn unstake_tokens_ix_success() {
    let mut l = setup();
    stake_tokens(&mut l, id(ALICE), 0, 1000000000000, Ok(())).unwrap();
    assert_eq!(check_unstake(&l, id(ALICE), 0, 400000000000), Ok(()));
    assert_eq!(unstake_tokens(&mut l, id(ALICE), 0, 400000000000, Ok(())), Ok(()));
    assert_eq!(l.profiles[0].stake_amount, 600000000000);
    assert_eq!(totals(&l), (600000000000, 1));
    assert_eq!(unstake_tokens(&mut l, id(ALICE), 0, 600000000000, Ok(())), Ok(()));
    assert_eq!(l.profiles[0].stake_amount, 0);
    assert_eq!(totals(&l), (0, 0));
}

#[test]
fn unstake_more_than_stake_is_refused() {
    let mut l = setup();
    stake_tokens(&mut l, id(ALICE), 0, 100, Ok(())).unwrap();
    stake_tokens(&mut l, id(BOB), 1, 40, Ok(())).unwrap();
    assert_eq!(unstake_tokens(&mut l, id(ALICE), 0, 101, Ok(())), Err(ReputeDaoError::InsufficientStake));
    assert_eq!(l.profiles[0].stake_amount, 100);
    assert_eq!(totals(&l), (140, 2));
}

#[test]
fn unstake_failed_transfer_changes_nothing() {
    let mut l = setup();
    stake_tokens(&mut l, id(ALICE), 0, 100, Ok(())).unwrap();
    assert_eq!(
        unstake_tokens(&mut l, id(ALICE), 0, 100, Err(TransferError::Other)),
        Err(ReputeDaoError::TransferFailed)
    );
    assert_eq!(totals(&l), (100, 1));
}

#[test]
fn unstake_rejects_other_owner() {
    let mut l = setup();
    stake_tokens(&mut l, id(ALICE), 0, 100, Ok(())).unwrap();
    assert_eq!(unstake_tokens(&mut l, id(BOB), 0, 10, Ok(())), Err(ReputeDaoError::UnauthorizedOwner));
}

#[test]
fn stake_then_unstake_restores_everything() {
    let mut l = setup();
    stake_tokens(&mut l, id(BOB), 1, 70, Ok(())).unwrap();
    stake_tokens(&mut l, id(ALICE), 0, 25, Ok(())).unwrap();
    unstake_tokens(&mut l, id(ALICE), 0, 25, Ok(())).unwrap();
    assert_eq!(l.profiles[0].stake_amount, 0);
    assert_eq!(l.profiles[1].stake_amount, 70);
    assert_eq!(totals(&l), (70, 1));
}

#[test]
fn vote_ix_success() {
    let mut l = setup();
    stake_tokens(&mut l, id(ALICE), 0, 150, Ok(())).unwrap();
    assert_eq!(check_vote(&l, id(ALICE), 0, 1, true), Ok(()));
    assert_eq!(upvote(&mut l, id(ALICE), 0, 1), Ok(()));
    assert_eq!(l.profiles[1].reputation_points, 5);
    assert_eq!(l.profiles[1].upvotes_received, 1);
    assert_eq!(l.votes.len(), 1);
    assert_eq!(l.votes[0], VoteRecord { voter: id(ALICE), target: id(BOB) });
}

#[test]
fn second_vote_on_same_target_is_duplicate() {
    let mut l = setup();
    stake_tokens(&mut l, id(ALICE), 0, 150, Ok(())).unwrap();
    assert_eq!(upvote(&mut l, id(ALICE), 0, 1), Ok(()));
    assert_eq!(upvote(&mut l, id(ALICE), 0, 1), Err(ReputeDaoError::DuplicateVote));
    assert_eq!(downvote(&mut l, id(ALICE), 0, 1), Err(ReputeDaoError::DuplicateVote));
    assert_eq!(l.profiles[1].reputation_points, 5);
    assert_eq!(l.profiles[1].upvotes_received, 1);
    assert_eq!(l.profiles[1].downvotes_received, 0);
    assert_eq!(l.votes.len(), 1);
    // another target is still open to the same voter
    assert_eq!(downvote(&mut l, id(ALICE), 0, 2), Ok(()));
    assert_eq!(l.profiles[2].reputation_points, -5);
    assert_eq!(l.profiles[2].downvotes_received, 1);
}

#[test]
fn self_vote_is_rejected_regardless_of_stake() {
    let mut l = setup();
    assert_eq!(upvote(&mut l, id(ALICE), 0, 0), Err(ReputeDaoError::SelfVoteNotAllowed));
    stake_tokens(&mut l, id(ALICE), 0, 1000, Ok(())).unwrap();
    assert_eq!(upvote(&mut l, id(ALICE), 0, 0), Err(ReputeDaoError::SelfVoteNotAllowed));
    // a second profile of the same owner counts as the same voter
    create_profile(&mut l, id(ALICE), String::from("alice2")).unwrap();
    assert_eq!(downvote(&mut l, id(ALICE), 0, 3), Err(ReputeDaoError::SelfVoteNotAllowed));
    assert_eq!(l.votes.len(), 0);
}

#[test]
fn vote_below_minimum_stake_is_rejected() {
    let mut l = setup();
    stake_tokens(&mut l, id(ALICE), 0, 99, Ok(())).unwrap();
    assert_eq!(upvote(&mut l, id(ALICE), 0, 1), Err(ReputeDaoError::InsufficientStake));
    assert_eq!(l.profiles[1].reputation_points, 0);
    assert_eq!(l.profiles[1].upvotes_received, 0);
    assert_eq!(l.votes.len(), 0);
    stake_tokens(&mut l, id(ALICE), 0, 1, Ok(())).unwrap();
    assert_eq!(upvote(&mut l, id(ALICE), 0, 1), Ok(()));
}

#[test]
fn vote_needs_voter_owner() {
    let mut l = setup();
    stake_tokens(&mut l, id(ALICE), 0, 150, Ok(())).unwrap();
    assert_eq!(upvote(&mut l, id(CAROL), 0, 1), Err(ReputeDaoError::UnauthorizedOwner));
    assert_eq!(upvote(&mut l, id(ALICE), 0, 7), Err(ReputeDaoError::NotFound));
}

#[test]
fn minimum_stake_scenario() {
    // minimum stake 100, vote power 5: stake 150, vote up, then vote down
    let mut l = setup();
    assert_eq!(stake_tokens(&mut l, id(ALICE), 0, 150, Ok(())), Ok(()));
    assert_eq!(upvote(&mut l, id(ALICE), 0, 1), Ok(()));
    assert_eq!(l.profiles[1].reputation_points, 5);
    assert_eq!(l.profiles[1].upvotes_received, 1);
    assert_eq!(l.votes.len(), 1);
    assert_eq!(downvote(&mut l, id(ALICE), 0, 1), Err(ReputeDaoError::DuplicateVote));
    assert_eq!(l.profiles[1].reputation_points, 5);
}

#[test]
fn unstake_above_stake_scenario() {
    let mut l = setup();
    stake_tokens(&mut l, id(ALICE), 0, 10, Ok(())).unwrap();
    assert_eq!(check_unstake(&l, id(ALICE), 0, 11), Err(ReputeDaoError::InsufficientStake));
    assert_eq!(unstake_tokens(&mut l, id(ALICE), 0, 11, Ok(())), Err(ReputeDaoError::InsufficientStake));
    assert_eq!(totals(&l), (10, 1));
}

#[test]
fn votes_move_the_tier() {
    let mut l = Ledger::new();
    initialize_dao(&mut l, id(9), id(ADMIN), 0, id(50), 100, 0).unwrap();
    initialize_treasury(&mut l, id(ADMIN)).unwrap();
    create_profile(&mut l, id(ALICE), String::from("alice")).unwrap();
    create_profile(&mut l, id(BOB), String::from("bob")).unwrap();
    assert_eq!(upvote(&mut l, id(BOB), 1, 0), Ok(()));
    assert_eq!(l.profiles[0].reputation_points, 100);
    assert_eq!(l.profiles[0].role_level, MemberRanks::Contributor);
}

#[test]
fn rank_thresholds() {
    assert_eq!(rank_for_points(i64::MIN), MemberRanks::Member);
    assert_eq!(rank_for_points(-5), MemberRanks::Member);
    assert_eq!(rank_for_points(99), MemberRanks::Member);
    assert_eq!(rank_for_points(100), MemberRanks::Contributor);
    assert_eq!(rank_for_points(499), MemberRanks::Contributor);
    assert_eq!(rank_for_points(500), MemberRanks::Trusted);
    assert_eq!(rank_for_points(999), MemberRanks::Trusted);
    assert_eq!(rank_for_points(1000), MemberRanks::Elder);
    assert_eq!(rank_for_points(i64::MAX), MemberRanks::Elder);
}

#[test]
fn reputation_overflow_and_underflow_are_refused() {
    let mut l = setup();
    stake_tokens(&mut l, id(ALICE), 0, 150, Ok(())).unwrap();
    l.profiles[1].reputation_points = i64::MAX - 4;
    l.profiles[1].role_level = MemberRanks::Elder;
    assert_eq!(upvote(&mut l, id(ALICE), 0, 1), Err(ReputeDaoError::MathOverflow));
    l.profiles[2].reputation_points = i64::MIN + 4;
    assert_eq!(downvote(&mut l, id(ALICE), 0, 2), Err(ReputeDaoError::MathUnderflow));
    assert_eq!(l.votes.len(), 0);
}

#[test]
fn reset_clears_reputation_and_reopens_votes() {
    let mut l = setup();
    stake_tokens(&mut l, id(ALICE), 0, 150, Ok(())).unwrap();
    stake_tokens(&mut l, id(BOB), 1, 120, Ok(())).unwrap();
    upvote(&mut l, id(ALICE), 0, 1).unwrap();
    downvote(&mut l, id(BOB), 1, 0).unwrap();
    upvote(&mut l, id(ALICE), 0, 2).unwrap();
    assert_eq!(reset_user_reputation(&mut l, id(ADMIN), 1), Ok(()));
    let p = &l.profiles[1];
    assert_eq!(p.reputation_points, 0);
    assert_eq!(p.upvotes_received, 0);
    assert_eq!(p.downvotes_received, 0);
    assert_eq!(p.role_level, MemberRanks::Member);
    assert_eq!(p.stake_amount, 120);
    assert_eq!(p.owner, id(BOB));
    assert_eq!(p.username, "bob");
    // only the records on bob are gone
    assert_eq!(
        l.votes,
        vec![
            VoteRecord { voter: id(BOB), target: id(ALICE) },
            VoteRecord { voter: id(ALICE), target: id(CAROL) }
        ]
    );
    assert_eq!(totals(&l), (270, 2));
    assert_eq!(upvote(&mut l, id(ALICE), 0, 1), Ok(()));
    assert_eq!(l.profiles[1].reputation_points, 5);
}

#[test]
fn reset_only_by_admin() {
    let mut l = setup();
    stake_tokens(&mut l, id(ALICE), 0, 150, Ok(())).unwrap();
    upvote(&mut l, id(ALICE), 0, 1).unwrap();
    assert_eq!(reset_user_reputation(&mut l, id(BOB), 1), Err(ReputeDaoError::UnauthorizedAdmin));
    assert_eq!(l.profiles[1].reputation_points, 5);
    assert_eq!(reset_user_reputation(&mut l, id(ADMIN), 9), Err(ReputeDaoError::NotFound));
}

#[test]
fn reset_context_checks_admin_and_pause() {
    let config = Config {
        admin: id(ADMIN),
        minimum_stake: 1,
        token_mint: id(50),
        vote_power: 1,
        is_paused: false,
        config_bump: 0,
    };
    let mut profile = UserProfile::new(id(BOB), String::from("bob"));
    profile.stake_amount = 9;
    profile.reputation_points = 600;
    profile.upvotes_received = 4;
    profile.downvotes_received = 2;
    profile.role_level = MemberRanks::Trusted;
    let mut ctx = ResetUserReputation { admin: id(ALICE), config, user_profile: profile };
    assert_eq!(ctx.reset_user_reputation(), Err(ReputeDaoError::UnauthorizedAdmin));
    assert_eq!(ctx.user_profile.reputation_points, 600);
    ctx.admin = id(ADMIN);
    ctx.config.is_paused = true;
    assert_eq!(ctx.reset_user_reputation(), Err(ReputeDaoError::SystemPaused));
    assert_eq!(ctx.user_profile.upvotes_received, 4);
    ctx.config.is_paused = false;
    assert_eq!(ctx.reset_user_reputation(), Ok(()));
    assert_eq!(ctx.user_profile.reputation_points, 0);
    assert_eq!(ctx.user_profile.upvotes_received, 0);
    assert_eq!(ctx.user_profile.downvotes_received, 0);
    assert_eq!(ctx.user_profile.role_level, MemberRanks::Member);
    assert_eq!(ctx.user_profile.stake_amount, 9);
}

#[test]
fn pause_blocks_every_mutation() {
    let mut l = setup();
    stake_tokens(&mut l, id(ALICE), 0, 150, Ok(())).unwrap();
    assert_eq!(set_paused(&mut l, id(ALICE), true), Err(ReputeDaoError::UnauthorizedAdmin));
    assert_eq!(set_paused(&mut l, id(ADMIN), true), Ok(()));
    assert!(l.config.unwrap().is_paused);
    let paused = Err(ReputeDaoError::SystemPaused);
    assert_eq!(stake_tokens(&mut l, id(ALICE), 0, 10, Ok(())), paused);
    assert_eq!(unstake_tokens(&mut l, id(ALICE), 0, 10, Ok(())), paused);
    assert_eq!(upvote(&mut l, id(ALICE), 0, 1), paused);
    assert_eq!(downvote(&mut l, id(ALICE), 0, 1), paused);
    assert_eq!(create_profile(&mut l, id(70), String::from("dave")), paused);
    assert_eq!(reset_user_reputation(&mut l, id(ADMIN), 1), paused);
    assert_eq!(initialize_treasury(&mut l, id(ADMIN)), paused);
    assert_eq!(l.profiles[0].stake_amount, 150);
    assert_eq!(l.profiles.len(), 3);
    assert_eq!(l.votes.len(), 0);
    assert_eq!(totals(&l), (150, 1));
    // unpausing is still allowed
    assert_eq!(set_paused(&mut l, id(ADMIN), false), Ok(()));
    assert_eq!(upvote(&mut l, id(ALICE), 0, 1), Ok(()));
}
