use crate::errors::BlogError;
use crate::events::PostCreated;
use crate::key::Pubkey;
use crate::state::{text_len, byte_len, BlogAccount, PostAccount};
use vstd::prelude::*;

verus! {

/// Longest title a new post may have, in bytes.
pub const MAX_TITLE_LEN: usize = 128;

/// Longest content a new post may have, in bytes.
pub const MAX_CONTENT_LEN: usize = 2048;

/// The accounts of a post creation: the author's blog and the signer.
pub struct CreatePost {
    pub blog_account: BlogAccount,
    pub author: Pubkey,
}

/// The first check that a post creation fails, if any.
pub open spec fn create_post_error(ctx: CreatePost, title: Seq<char>, content: Seq<char>) -> Option<BlogError> {
    if ctx.blog_account.author != ctx.author {
        Some(BlogError::Unauthorized)
    } else if text_len(title) > MAX_TITLE_LEN {
        Some(BlogError::TitleTooLong)
    } else if text_len(content) > MAX_CONTENT_LEN {
        Some(BlogError::ContentTooLong)
    } else if ctx.blog_account.post_count == u64::MAX {
        Some(BlogError::NumericalOverflow)
    } else {
        None
    }
}

/// Creates the blog's next post, with id the blog's post count, and counts
/// it. On failure nothing changes.
pub fn handler(ctx: &mut CreatePost, title: String, content: String, now: i64) -> (r: Result<
    (PostAccount, PostCreated),
    BlogError,
>)
    ensures
        match create_post_error(*old(ctx), title@, content@) {
            Some(e) => r == Err::<(PostAccount, PostCreated), BlogError>(e) && *final(ctx) == *old(ctx),
            None => {
                let n = old(ctx).blog_account.post_count;
                &&& r matches Ok((post, event))
                &&& post == (PostAccount {
                    author: old(ctx).author,
                    post_id: n,
                    title,
                    content,
                    created_at: now,
                    updated_at: now,
                    comment_count: 0,
                })
                &&& event == (PostCreated { author: old(ctx).author, post_id: n })
                &&& final(ctx).blog_account == (BlogAccount {
                    author: old(ctx).blog_account.author,
                    post_count: (n + 1) as u64,
                })
                &&& final(ctx).author == old(ctx).author
            },
        },
{
    let same = ctx.blog_account.author == ctx.author;
    proof { crate::key::lemma_key_view_injective(ctx.blog_account.author, ctx.author); }
    if !same {
        return Err(BlogError::Unauthorized);
    }
    if byte_len(&title) > MAX_TITLE_LEN {
        return Err(BlogError::TitleTooLong);
    }
    if byte_len(&content) > MAX_CONTENT_LEN {
        return Err(BlogError::ContentTooLong);
    }
    let post_id = ctx.blog_account.post_count;
    let next = match post_id.checked_add(1) {
        Some(v) => v,
        None => return Err(BlogError::NumericalOverflow),
    };
    let post = PostAccount {
        author: ctx.author,
        post_id,
        title,
        content,
        created_at: now,
        updated_at: now,
        comment_count: 0,
    };
    ctx.blog_account.post_count = next;
    let event = PostCreated { author: post.author, post_id: post.post_id };
    Ok((post, event))
}

} // verus!
