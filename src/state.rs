use crate::key::Pubkey;
use vstd::prelude::*;
use vstd::utf8::encode_utf8;

verus! {

/// Bytes that tag a stored record with its kind.
pub const DISCRIMINATOR_LEN: usize = 8;

/// Bytes of a public key field.
pub const KEY_LEN: usize = 32;

/// Bytes of the length prefix in front of a text field.
pub const LEN_PREFIX: usize = 4;

/// Bytes of a `u64` or `i64` field.
pub const WORD_LEN: usize = 8;

/// Length in bytes of a text, as stored (its UTF-8 encoding).
pub open spec fn text_len(s: Seq<char>) -> int {
    encode_utf8(s).len() as usize as int
}

/// Length in bytes of a text, as stored.
pub fn byte_len(s: &String) -> (r: usize)
    ensures
        r as int == text_len(s@),
{
    s.as_str().len()
}

/// A blog: its author and how many posts it has handed out ids for.
#[derive(Clone, Copy, Debug)]
pub struct BlogAccount {
    pub author: Pubkey,
    pub post_count: u64,
}

impl BlogAccount {
    /// Stored size: tag, author, post count.
    pub const SPACE: usize = 48;
}

/// Stored size of a post with the given title and content.
pub open spec fn post_space(title: Seq<char>, content: Seq<char>) -> int {
    DISCRIMINATOR_LEN + KEY_LEN + WORD_LEN + LEN_PREFIX + text_len(title) + LEN_PREFIX + text_len(
        content,
    ) + 3 * WORD_LEN
}

/// Stored size of a comment with the given content.
pub open spec fn comment_space(content: Seq<char>) -> int {
    DISCRIMINATOR_LEN + 2 * KEY_LEN + 2 * WORD_LEN + LEN_PREFIX + text_len(content) + WORD_LEN
}

/// Stored size of a profile with the given texts.
pub open spec fn profile_space(display_name: Seq<char>, bio: Seq<char>, avatar_url: Seq<char>) -> int {
    DISCRIMINATOR_LEN + KEY_LEN + LEN_PREFIX + text_len(display_name) + LEN_PREFIX + text_len(bio)
        + LEN_PREFIX + text_len(avatar_url) + WORD_LEN
}

/// A post of a blog, identified by its author and `post_id`.
#[derive(Debug)]
pub struct PostAccount {
    pub author: Pubkey,
    pub post_id: u64,
    pub title: String,
    pub content: String,
    pub created_at: i64,
    pub updated_at: i64,
    pub comment_count: u64,
}

impl PostAccount {
    /// Stored size of a post with this title and content.
    pub fn space(title: &String, content: &String) -> (r: usize)
        requires
            post_space(title@, content@) <= usize::MAX,
        ensures
            r as int == post_space(title@, content@),
    {
        let t = byte_len(title);
        let c = byte_len(content);
        DISCRIMINATOR_LEN + KEY_LEN + WORD_LEN + LEN_PREFIX + t + LEN_PREFIX + c + 3 * WORD_LEN
    }

    /// A field-for-field copy.
    pub fn duplicate(&self) -> (r: PostAccount)
        ensures
            r == *self,
    {
        PostAccount {
            author: self.author,
            post_id: self.post_id,
            title: self.title.clone(),
            content: self.content.clone(),
            created_at: self.created_at,
            updated_at: self.updated_at,
            comment_count: self.comment_count,
        }
    }
}

/// A comment on a post, identified by the post and `comment_id`.
#[derive(Debug)]
pub struct CommentAccount {
    pub commenter: Pubkey,
    pub post_author: Pubkey,
    pub post_id: u64,
    pub comment_id: u64,
    pub content: String,
    pub created_at: i64,
}

impl CommentAccount {
    /// Stored size of a comment with this content.
    pub fn space(content: &String) -> (r: usize)
        requires
            comment_space(content@) <= usize::MAX,
        ensures
            r as int == comment_space(content@),
    {
        let c = byte_len(content);
        DISCRIMINATOR_LEN + 2 * KEY_LEN + 2 * WORD_LEN + LEN_PREFIX + c + WORD_LEN
    }

    /// A field-for-field copy.
    pub fn duplicate(&self) -> (r: CommentAccount)
        ensures
            r == *self,
    {
        CommentAccount {
            commenter: self.commenter,
            post_author: self.post_author,
            post_id: self.post_id,
            comment_id: self.comment_id,
            content: self.content.clone(),
            created_at: self.created_at,
        }
    }
}

/// The public profile of an author.
#[derive(Debug)]
pub struct ProfileAccount {
    pub author: Pubkey,
    pub display_name: String,
    pub bio: String,
    pub avatar_url: String,
    pub joined_at: i64,
}

impl ProfileAccount {
    /// Stored size of a profile with these texts.
    pub fn space(display_name: &String, bio: &String, avatar_url: &String) -> (r: usize)
        requires
            profile_space(display_name@, bio@, avatar_url@) <= usize::MAX,
        ensures
            r as int == profile_space(display_name@, bio@, avatar_url@),
    {
        let d = byte_len(display_name);
        let b = byte_len(bio);
        let a = byte_len(avatar_url);
        DISCRIMINATOR_LEN + KEY_LEN + LEN_PREFIX + d + LEN_PREFIX + b + LEN_PREFIX + a + WORD_LEN
    }

    /// A field-for-field copy.
    pub fn duplicate(&self) -> (r: ProfileAccount)
        ensures
            r == *self,
    {
        ProfileAccount {
            author: self.author,
            display_name: self.display_name.clone(),
            bio: self.bio.clone(),
            avatar_url: self.avatar_url.clone(),
            joined_at: self.joined_at,
        }
    }
}

/// A stored record of any kind.
#[derive(Debug)]
pub enum Record {
    Blog(BlogAccount),
    Post(PostAccount),
    Comment(CommentAccount),
    Profile(ProfileAccount),
}

impl Record {
    /// A copy of the record.
    pub fn duplicate(&self) -> (r: Record)
        ensures
            r == *self,
    {
        match self {
            Record::Blog(b) => Record::Blog(*b),
            Record::Post(p) => Record::Post(p.duplicate()),
            Record::Comment(c) => Record::Comment(c.duplicate()),
            Record::Profile(p) => Record::Profile(p.duplicate()),
        }
    }
}

} // verus!
