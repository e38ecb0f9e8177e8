use crate::errors::BlogError;
use crate::events::PostUpdated;
use crate::key::Pubkey;
use crate::state::{text_len, byte_len, post_space, PostAccount};
use vstd::prelude::*;

verus! {

/// Longest title a post may be given by an update, in bytes.
pub const MAX_NEW_TITLE_LEN: usize = 100;

/// Longest content a post may be given by an update, in bytes.
pub const MAX_NEW_CONTENT_LEN: usize = 5000;

/// The accounts of a post update: the post, the space it was allocated
/// with, and the signer.
pub struct UpdatePost {
    pub post_account: PostAccount,
    pub space: usize,
    pub author: Pubkey,
}

/// The text a field holds after an update that may replace it.
pub open spec fn replaced(current: Seq<char>, new: Option<String>) -> Seq<char> {
    match new {
        Some(s) => s@,
        None => current,
    }
}

/// The first check that an update fails, if any.
pub open spec fn update_post_error(
    ctx: UpdatePost,
    title: Option<String>,
    content: Option<String>,
) -> Option<BlogError> {
    if ctx.post_account.author != ctx.author {
        Some(BlogError::Unauthorized)
    } else if title matches Some(t) && text_len(t@) > MAX_NEW_TITLE_LEN {
        Some(BlogError::TitleTooLong)
    } else if content matches Some(c) && text_len(c@) > MAX_NEW_CONTENT_LEN {
        Some(BlogError::ContentTooLong)
    } else if post_space(
        replaced(ctx.post_account.title@, title),
        replaced(ctx.post_account.content@, content),
    ) > ctx.space {
        Some(BlogError::CapacityExceeded)
    } else {
        None
    }
}

/// The post after an update: each supplied text replaces its field, and the
/// update time is `now`.
pub open spec fn updated_post(
    post: PostAccount,
    title: Option<String>,
    content: Option<String>,
    now: i64,
) -> PostAccount {
    PostAccount {
        title: match title {
            Some(t) => t,
            None => post.title,
        },
        content: match content {
            Some(c) => c,
            None => post.content,
        },
        updated_at: now,
        ..post
    }
}

/// Whether a post with texts of `t` and `c` bytes fits in `space` bytes.
fn post_fits(t: usize, c: usize, space: usize) -> (r: bool)
    ensures
        r == (80 + t + c <= space),
{
    t <= space && c <= space - t && 80 <= space - t - c
}

/// Lets the author replace the title, the content or both, within the
/// update limits and the space the post was allocated with, and stamps the
/// update time. On failure nothing changes.
pub fn handler(ctx: &mut UpdatePost, title: Option<String>, content: Option<String>, now: i64) -> (r:
    Result<PostUpdated, BlogError>)
    ensures
        final(ctx).author == old(ctx).author,
        final(ctx).space == old(ctx).space,
        match update_post_error(*old(ctx), title, content) {
            Some(e) => r == Err::<PostUpdated, BlogError>(e) && *final(ctx) == *old(ctx),
            None => r == Ok::<PostUpdated, BlogError>(
                PostUpdated { author: old(ctx).post_account.author, post_id: old(ctx).post_account.post_id },
            ) && final(ctx).post_account == updated_post(old(ctx).post_account, title, content, now),
        },
{
    let same = ctx.post_account.author == ctx.author;
    proof { crate::key::lemma_key_view_injective(ctx.post_account.author, ctx.author); }
    if !same {
        return Err(BlogError::Unauthorized);
    }
    let t = match &title {
        Some(s) => {
            let n = byte_len(s);
            if n > MAX_NEW_TITLE_LEN {
                return Err(BlogError::TitleTooLong);
            }
            n
        },
        None => byte_len(&ctx.post_account.title),
    };
    let c = match &content {
        Some(s) => {
            let n = byte_len(s);
            if n > MAX_NEW_CONTENT_LEN {
                return Err(BlogError::ContentTooLong);
            }
            n
        },
        None => byte_len(&ctx.post_account.content),
    };
    if !post_fits(t, c, ctx.space) {
        return Err(BlogError::CapacityExceeded);
    }
    match title {
        Some(s) => {
            ctx.post_account.title = s;
        },
        None => {},
    }
    match content {
        Some(s) => {
            ctx.post_account.content = s;
        },
        None => {},
    }
    ctx.post_account.updated_at = now;
    Ok(PostUpdated { author: ctx.post_account.author, post_id: ctx.post_account.post_id })
}

} // verus!
