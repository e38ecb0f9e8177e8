use crate::events::BlogInitialized;
use crate::key::Pubkey;
use crate::state::BlogAccount;
use vstd::prelude::*;

verus! {

/// The accounts of a blog creation: the signing author.
pub struct InitializeBlog {
    pub author: Pubkey,
}

/// A new, empty blog of the author.
pub fn handler(ctx: &InitializeBlog) -> (r: (BlogAccount, BlogInitialized))
    ensures
        r.0 == (BlogAccount { author: ctx.author, post_count: 0 }),
        r.1 == (BlogInitialized { author: ctx.author }),
{
    let blog = BlogAccount { author: ctx.author, post_count: 0 };
    (blog, BlogInitialized { author: blog.author })
}

} // verus!
