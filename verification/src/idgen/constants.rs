//! Lengths and durations of a generated identity.

use vstd::prelude::*;

verus! {

/// Characters in a device identifier.
pub const DEVICE_ID_LENGTH: usize = 64;

/// Characters in a user identifier.
pub const USER_ID_LENGTH: usize = 32;

/// Characters in a session identifier.
pub const SESSION_ID_LENGTH: usize = 32;

/// Characters in the random part of an e-mail address, at most.
pub const EMAIL_RANDOM_LENGTH: usize = 16;

/// Characters in the token of an e-mail address.
pub const EMAIL_TOKEN_LENGTH: usize = 6;

/// Days that a trial lasts.
pub const TRIAL_DURATION_DAYS: u32 = 14;

} // verus!
