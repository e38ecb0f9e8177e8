use crate::errors::BlogError;
use crate::events::PostDeleted;
use crate::key::Pubkey;
use crate::state::PostAccount;
use vstd::prelude::*;

verus! {

/// The accounts of a post deletion: the post and the signer.
pub struct DeletePost {
    pub post_account: PostAccount,
    pub author: Pubkey,
}

/// Allows the deletion of the post only to its author.
pub fn handler(ctx: &DeletePost) -> (r: Result<PostDeleted, BlogError>)
    ensures
        ctx.post_account.author == ctx.author ==> r == Ok::<PostDeleted, BlogError>(
            PostDeleted { author: ctx.post_account.author, post_id: ctx.post_account.post_id },
        ),
        ctx.post_account.author != ctx.author ==> r == Err::<PostDeleted, BlogError>(
            BlogError::Unauthorized,
        ),
{
    let post = &ctx.post_account;
    let same = post.author == ctx.author;
    proof { crate::key::lemma_key_view_injective(post.author, ctx.author); }
    if !same {
        return Err(BlogError::Unauthorized);
    }
    Ok(PostDeleted { author: post.author, post_id: post.post_id })
}

} // verus!
