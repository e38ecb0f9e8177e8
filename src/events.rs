use crate::key::Pubkey;
use vstd::prelude::*;

verus! {

/// Emitted when a blog is created.
#[derive(Clone, Copy, Debug, PartialEq, Eq)]
pub struct BlogInitialized {
    pub author: Pubkey,
}

/// Emitted when a post is created.
#[derive(Clone, Copy, Debug, PartialEq, Eq)]
pub struct PostCreated {
    pub author: Pubkey,
    pub post_id: u64,
}

/// Emitted when a post is updated.
#[derive(Clone, Copy, Debug, PartialEq, Eq)]
pub struct PostUpdated {
    pub author: Pubkey,
    pub post_id: u64,
}

/// Emitted when a post is deleted.
#[derive(Clone, Copy, Debug, PartialEq, Eq)]
pub struct PostDeleted {
    pub author: Pubkey,
    pub post_id: u64,
}

/// Emitted when a profile is created.
#[derive(Clone, Copy, Debug, PartialEq, Eq)]
pub struct ProfileInitialized {
    pub author: Pubkey,
}

/// Emitted when a comment is created.
#[derive(Clone, Copy, Debug, PartialEq, Eq)]
pub struct CommentCreated {
    pub commenter: Pubkey,
    pub post_author: Pubkey,
    pub post_id: u64,
    pub comment_id: u64,
}

} // verus!
