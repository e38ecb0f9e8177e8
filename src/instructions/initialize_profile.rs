use crate::events::ProfileInitialized;
use crate::key::Pubkey;
use crate::state::ProfileAccount;
use vstd::prelude::*;

verus! {

/// The accounts of a profile creation: the signing author.
pub struct InitializeProfile {
    pub author: Pubkey,
}

/// A new profile of the author with the given texts, joined at `now`.
pub fn handler(
    ctx: &InitializeProfile,
    display_name: String,
    bio: String,
    avatar_url: String,
    now: i64,
) -> (r: (ProfileAccount, ProfileInitialized))
    ensures
        r.0 == (ProfileAccount { author: ctx.author, display_name, bio, avatar_url, joined_at: now }),
        r.1 == (ProfileInitialized { author: ctx.author }),
{
    let profile = ProfileAccount { author: ctx.author, display_name, bio, avatar_url, joined_at: now };
    let event = ProfileInitialized { author: profile.author };
    (profile, event)
}

} // verus!
