use vstd::prelude::*;

verus! {

/// Reputation at which a member becomes a contributor.
pub const CONTRIBUTOR_THRESHOLD: i64 = 100;

/// Reputation at which a contributor becomes trusted.
pub const TRUSTED_THRESHOLD: i64 = 500;

/// Reputation at which a trusted member becomes an elder.
pub const ELDER_THRESHOLD: i64 = 1000;

} // verus!
