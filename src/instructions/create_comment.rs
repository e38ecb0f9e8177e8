use crate::errors::BlogError;
use crate::events::CommentCreated;
use crate::key::Pubkey;
use crate::state::{text_len, byte_len, CommentAccount, PostAccount};
use vstd::prelude::*;

verus! {

/// Longest content a comment may have, in bytes.
pub const MAX_COMMENT_LEN: usize = 1024;

/// The accounts of a comment creation: the post and the signing commenter.
pub struct CreateComment {
    pub post_account: PostAccount,
    pub commenter: Pubkey,
}

/// The first check that a comment creation fails, if any.
pub open spec fn create_comment_error(post: PostAccount, content: Seq<char>) -> Option<BlogError> {
    if text_len(content) > MAX_COMMENT_LEN {
        Some(BlogError::CommentTooLong)
    } else if post.comment_count == u64::MAX {
        Some(BlogError::NumericalOverflow)
    } else {
        None
    }
}

/// The post as it stands once it has counted one more comment.
pub open spec fn post_with_comment(post: PostAccount) -> PostAccount {
    PostAccount { comment_count: (post.comment_count + 1) as u64, ..post }
}

/// Creates the post's next comment, with id the post's comment count, and
/// counts it. On failure nothing changes.
pub fn handler(ctx: &mut CreateComment, content: String, now: i64) -> (r: Result<
    (CommentAccount, CommentCreated),
    BlogError,
>)
    ensures
        match create_comment_error(old(ctx).post_account, content@) {
            Some(e) => r == Err::<(CommentAccount, CommentCreated), BlogError>(e) && *final(ctx)
                == *old(ctx),
            None => {
                let post = old(ctx).post_account;
                &&& r matches Ok((comment, event))
                &&& comment == (CommentAccount {
                    commenter: old(ctx).commenter,
                    post_author: post.author,
                    post_id: post.post_id,
                    comment_id: post.comment_count,
                    content,
                    created_at: now,
                })
                &&& event == (CommentCreated {
                    commenter: old(ctx).commenter,
                    post_author: post.author,
                    post_id: post.post_id,
                    comment_id: post.comment_count,
                })
                &&& final(ctx).post_account == post_with_comment(post)
                &&& final(ctx).commenter == old(ctx).commenter
            },
        },
{
    if byte_len(&content) > MAX_COMMENT_LEN {
        return Err(BlogError::CommentTooLong);
    }
    let comment_id = ctx.post_account.comment_count;
    let next = match comment_id.checked_add(1) {
        Some(v) => v,
        None => return Err(BlogError::NumericalOverflow),
    };
    let comment = CommentAccount {
        commenter: ctx.commenter,
        post_author: ctx.post_account.author,
        post_id: ctx.post_account.post_id,
        comment_id,
        content,
        created_at: now,
    };
    ctx.post_account.comment_count = next;
    let event = CommentCreated {
        commenter: comment.commenter,
        post_author: comment.post_author,
        post_id: comment.post_id,
        comment_id: comment.comment_id,
    };
    Ok((comment, event))
}

} // verus!
