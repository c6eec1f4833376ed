use vstd::prelude::*;

use crate::error::ReputeDaoError;
use crate::state::{Config, Identity, MemberRanks, UserProfile};

verus! {

/// `p` with its reputation, vote tallies and tier cleared.
pub open spec fn reset_of(p: UserProfile) -> UserProfile {
    UserProfile {
        owner: p.owner,
        username: p.username,
        stake_amount: p.stake_amount,
        reputation_points: 0,
        upvotes_received: 0,
        downvotes_received: 0,
        role_level: MemberRanks::Member,
    }
}

/// The configuration that `initialize_dao` writes.
pub open spec fn fresh_config(
    admin: Identity,
    minimum_stake: u64,
    token_mint: Identity,
    vote_power: u8,
    config_bump: u8,
) -> Config {
    Config { admin, minimum_stake, token_mint, vote_power, is_paused: false, config_bump }
}

/// The records that creating the configuration touches: the paying signer
/// and the configuration slot, empty until initialized.
pub struct InitializeDao {
    pub signer: Identity,
    pub config: Option<Config>,
}

impl InitializeDao {
    /// Writes the configuration, unpaused, unless one exists already.
    pub fn initialize_dao(
        &mut self,
        minimum_stake: u64,
        admin: Identity,
        token_mint: Identity,
        vote_power: u8,
        config_bump: u8,
    ) -> (r: Result<(), ReputeDaoError>)
        ensures
            final(self).signer == old(self).signer,
            old(self).config is Some ==> r == Err::<(), ReputeDaoError>(
                ReputeDaoError::AlreadyInitialized,
            ) && final(self).config == old(self).config,
            old(self).config is None ==> r is Ok && final(self).config == Some(
                fresh_config(admin, minimum_stake, token_mint, vote_power, config_bump),
            ),
    {
        if self.config.is_some() {
            return Err(ReputeDaoError::AlreadyInitialized);
        }
        self.config = Some(
            Config { admin, minimum_stake, token_mint, vote_power, is_paused: false, config_bump },
        );
        Ok(())
    }
}

/// The records that resetting a profile touches: the calling admin, the
/// configuration that names the admin, and the profile.
pub struct ResetUserReputation {
    pub admin: Identity,
    pub config: Config,
    pub user_profile: UserProfile,
}

impl ResetUserReputation {
    /// Clears the profile's reputation, tallies and tier, if the caller is
    /// the configured admin and the system is not paused; stake, owner and
    /// username are kept.
    pub fn reset_user_reputation(&mut self) -> (r: Result<(), ReputeDaoError>)
        ensures
            r == if old(self).admin != old(self).config.admin {
                Err::<(), ReputeDaoError>(ReputeDaoError::UnauthorizedAdmin)
            } else if old(self).config.is_paused {
                Err(ReputeDaoError::SystemPaused)
            } else {
                Ok(())
            },
            final(self).admin == old(self).admin,
            final(self).config == old(self).config,
            r is Err ==> final(self).user_profile == old(self).user_profile,
            r is Ok ==> final(self).user_profile == reset_of(old(self).user_profile),
    {
        if self.admin != self.config.admin {
            return Err(ReputeDaoError::UnauthorizedAdmin);
        }
        if self.config.is_paused {
            return Err(ReputeDaoError::SystemPaused);
        }
        self.user_profile.reset_reputation();
        Ok(())
    }
}

} // verus!
