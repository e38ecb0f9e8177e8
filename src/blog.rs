use crate::address::{
    blog_seed_vec, blog_seeds, check_address, comment_seed_vec, comment_seeds,
    find_address, found_program_address, post_seed_vec, post_seeds, profile_seed_vec,
    profile_seeds,
};
use crate::errors::BlogError;
use crate::events::{
    BlogInitialized, CommentCreated, PostCreated, PostDeleted, PostUpdated, ProfileInitialized,
};
use crate::instructions::create_comment::{self, create_comment_error, post_with_comment, CreateComment};
use crate::instructions::create_post::{self, create_post_error, CreatePost};
use crate::instructions::delete_post::{self, DeletePost};
use crate::instructions::initialize_blog::{self, InitializeBlog};
use crate::instructions::initialize_profile::{self, InitializeProfile};
use crate::instructions::update_post::{self, update_post_error, updated_post, UpdatePost};
use crate::key::Pubkey;
use crate::ledger::{Ledger, Slot};
use crate::state::{
    comment_space, post_space, profile_space, BlogAccount, CommentAccount, PostAccount,
    ProfileAccount, Record,
};
use vstd::prelude::*;

verus! {

/// The stored records, by address.
pub type Store = Map<Seq<u8>, Slot>;

/// The blog stored at `a`, if a blog is stored there.
pub open spec fn blog_at(m: Store, a: Seq<u8>) -> Option<BlogAccount> {
    if m.contains_key(a) {
        match m[a].record {
            Record::Blog(b) => Some(b),
            _ => None,
        }
    } else {
        None
    }
}

/// The post stored at `a`, if a post is stored there.
pub open spec fn post_at(m: Store, a: Seq<u8>) -> Option<PostAccount> {
    if m.contains_key(a) {
        match m[a].record {
            Record::Post(p) => Some(p),
            _ => None,
        }
    } else {
        None
    }
}

/// The canonical address of the author's blog.
pub open spec fn blog_address(program: Seq<u8>, author: Seq<u8>) -> Option<(Seq<u8>, u8)> {
    found_program_address(blog_seeds(author), program)
}

/// The canonical address of the author's profile.
pub open spec fn profile_address(program: Seq<u8>, author: Seq<u8>) -> Option<(Seq<u8>, u8)> {
    found_program_address(profile_seeds(author), program)
}

/// The canonical address of the author's post with this id.
pub open spec fn post_address(program: Seq<u8>, author: Seq<u8>, post_id: u64) -> Option<(Seq<u8>, u8)> {
    found_program_address(post_seeds(author, post_id), program)
}

/// The canonical address of the comment with this id on the post.
pub open spec fn comment_address(
    program: Seq<u8>,
    post_author: Seq<u8>,
    post_id: u64,
    comment_id: u64,
) -> Option<(Seq<u8>, u8)> {
    found_program_address(comment_seeds(post_author, post_id, comment_id), program)
}

/// What creating the author's blog does: the new store and the event, or
/// the error.
pub open spec fn initialize_blog_spec(m: Store, program: Seq<u8>, author: Pubkey) -> Result<
    (Store, BlogInitialized),
    BlogError,
> {
    match blog_address(program, author@) {
        None => Err(BlogError::InvalidAddress),
        Some((a, _)) => if m.contains_key(a) {
            Err(BlogError::AlreadyExists)
        } else {
            Ok(
                (
                    m.insert(
                        a,
                        Slot {
                            space: BlogAccount::SPACE,
                            record: Record::Blog(BlogAccount { author, post_count: 0 }),
                        },
                    ),
                    BlogInitialized { author },
                ),
            )
        },
    }
}

/// Creates the author's blog, with no posts, at the address derived from
/// the author alone.
pub fn initialize_blog(ledger: &mut Ledger, program_id: &Pubkey, author: &Pubkey) -> (r: Result<
    BlogInitialized,
    BlogError,
>)
    requires
        old(ledger).wf(),
    ensures
        final(ledger).wf(),
        match initialize_blog_spec(old(ledger)@, program_id@, *author) {
            Ok((m, ev)) => r == Ok::<BlogInitialized, BlogError>(ev) && final(ledger)@ == m,
            Err(e) => r == Err::<BlogInitialized, BlogError>(e) && final(ledger)@ == old(ledger)@,
        },
{
    let address = match find_address(&blog_seed_vec(author), program_id) {
        Some((a, _)) => a,
        None => return Err(BlogError::InvalidAddress),
    };
    let (blog, event) = initialize_blog::handler(&InitializeBlog { author: *author });
    ledger.create(&address, Slot { space: BlogAccount::SPACE, record: Record::Blog(blog) })?;
    Ok(event)
}

/// What a post creation does: the new store and the event, or the error.
pub open spec fn create_post_spec(
    m: Store,
    program: Seq<u8>,
    author: Pubkey,
    title: String,
    content: String,
    now: i64,
) -> Result<(Store, PostCreated), BlogError> {
    match blog_address(program, author@) {
        None => Err(BlogError::InvalidAddress),
        Some((ba, _)) => match blog_at(m, ba) {
            None => Err(BlogError::AccountNotFound),
            Some(blog) => match create_post_error(
                CreatePost { blog_account: blog, author },
                title@,
                content@,
            ) {
                Some(e) => Err(e),
                None => match post_address(program, author@, blog.post_count) {
                    None => Err(BlogError::InvalidAddress),
                    Some((pa, _)) => if m.contains_key(pa) {
                        Err(BlogError::AlreadyExists)
                    } else {
                        let post = PostAccount {
                            author,
                            post_id: blog.post_count,
                            title,
                            content,
                            created_at: now,
                            updated_at: now,
                            comment_count: 0,
                        };
                        let next = BlogAccount {
                            author: blog.author,
                            post_count: (blog.post_count + 1) as u64,
                        };
                        Ok(
                            (
                                m.insert(
                                    pa,
                                    Slot {
                                        space: post_space(title@, content@) as usize,
                                        record: Record::Post(post),
                                    },
                                ).insert(ba, Slot { space: m[ba].space, record: Record::Blog(next) }),
                                PostCreated { author, post_id: blog.post_count },
                            ),
                        )
                    },
                },
            },
        },
    }
}

/// Creates the author's next post, stored at the address derived from the
/// author and the blog's post count, and advances that count.
pub fn create_post(
    ledger: &mut Ledger,
    program_id: &Pubkey,
    author: &Pubkey,
    title: String,
    content: String,
    now: i64,
) -> (r: Result<PostCreated, BlogError>)
    requires
        old(ledger).wf(),
    ensures
        final(ledger).wf(),
        match create_post_spec(old(ledger)@, program_id@, *author, title, content, now) {
            Ok((m, ev)) => r == Ok::<PostCreated, BlogError>(ev) && final(ledger)@ == m,
            Err(e) => r == Err::<PostCreated, BlogError>(e) && final(ledger)@ == old(ledger)@,
        },
{
    let blog_addr = match find_address(&blog_seed_vec(author), program_id) {
        Some((a, _)) => a,
        None => return Err(BlogError::InvalidAddress),
    };
    let blog = match ledger.get(&blog_addr) {
        Some(slot) => match &slot.record {
            Record::Blog(b) => *b,
            _ => return Err(BlogError::AccountNotFound),
        },
        None => return Err(BlogError::AccountNotFound),
    };
    let mut ctx = CreatePost { blog_account: blog, author: *author };
    let (post, event) = create_post::handler(&mut ctx, title, content, now)?;
    let post_addr = match find_address(&post_seed_vec(author, post.post_id), program_id) {
        Some((a, _)) => a,
        None => return Err(BlogError::InvalidAddress),
    };
    let space = PostAccount::space(&post.title, &post.content);
    ledger.create(&post_addr, Slot { space, record: Record::Post(post) })?;
    ledger.write(&blog_addr, Record::Blog(ctx.blog_account));
    Ok(event)
}

/// The post stored at `address`, where `address` and `bump` are the
/// canonical ones derived from the post's author and id; else the error.
pub open spec fn checked_post(m: Store, program: Seq<u8>, address: Seq<u8>, bump: u8) -> Result<
    PostAccount,
    BlogError,
> {
    match post_at(m, address) {
        None => Err(BlogError::AccountNotFound),
        Some(post) => if post_address(program, post.author@, post.post_id) == Some((address, bump)) {
            Ok(post)
        } else {
            Err(BlogError::InvalidAddress)
        },
    }
}

/// Loads the post stored at `address` and checks that the address and
/// `bump` are the canonical ones for the post's author and id.
fn load_post(ledger: &Ledger, program_id: &Pubkey, address: &Pubkey, bump: u8) -> (r: Result<
    PostAccount,
    BlogError,
>)
    requires
        ledger.wf(),
    ensures
        r == checked_post(ledger@, program_id@, address@, bump),
{
    let post = match ledger.get(address) {
        Some(slot) => match &slot.record {
            Record::Post(p) => p.duplicate(),
            _ => return Err(BlogError::AccountNotFound),
        },
        None => return Err(BlogError::AccountNotFound),
    };
    if !check_address(&post_seed_vec(&post.author, post.post_id), program_id, address, bump) {
        return Err(BlogError::InvalidAddress);
    }
    Ok(post)
}

/// What an update of the post at `address` does: the new store and the
/// event, or the error.
pub open spec fn update_post_spec(
    m: Store,
    program: Seq<u8>,
    author: Pubkey,
    address: Seq<u8>,
    bump: u8,
    new_title: Option<String>,
    new_content: Option<String>,
    now: i64,
) -> Result<(Store, PostUpdated), BlogError> {
    match checked_post(m, program, address, bump) {
        Err(e) => Err(e),
        Ok(post) => match update_post_error(
            UpdatePost { post_account: post, space: m[address].space, author },
            new_title,
            new_content,
        ) {
            Some(e) => Err(e),
            None => Ok(
                (
                    m.insert(
                        address,
                        Slot {
                            space: m[address].space,
                            record: Record::Post(updated_post(post, new_title, new_content, now)),
                        },
                    ),
                    PostUpdated { author: post.author, post_id: post.post_id },
                ),
            ),
        },
    }
}

/// Lets the post's author replace its title, its content or both, and
/// stamps the update time; the post keeps the space it was created with.
pub fn update_post(
    ledger: &mut Ledger,
    program_id: &Pubkey,
    author: &Pubkey,
    address: &Pubkey,
    bump: u8,
    new_title: Option<String>,
    new_content: Option<String>,
    now: i64,
) -> (r: Result<PostUpdated, BlogError>)
    requires
        old(ledger).wf(),
    ensures
        final(ledger).wf(),
        match update_post_spec(
            old(ledger)@,
            program_id@,
            *author,
            address@,
            bump,
            new_title,
            new_content,
            now,
        ) {
            Ok((m, ev)) => r == Ok::<PostUpdated, BlogError>(ev) && final(ledger)@ == m,
            Err(e) => r == Err::<PostUpdated, BlogError>(e) && final(ledger)@ == old(ledger)@,
        },
{
    let post = load_post(ledger, program_id, address, bump)?;
    let space = match ledger.get(address) {
        Some(slot) => slot.space,
        None => 0,
    };
    let mut ctx = UpdatePost { post_account: post, space, author: *author };
    let event = update_post::handler(&mut ctx, new_title, new_content, now)?;
    ledger.write(address, Record::Post(ctx.post_account));
    Ok(event)
}

/// What a deletion of the post at `address` does: the new store and the
/// event, or the error.
pub open spec fn delete_post_spec(
    m: Store,
    program: Seq<u8>,
    author: Pubkey,
    address: Seq<u8>,
    bump: u8,
) -> Result<(Store, PostDeleted), BlogError> {
    match checked_post(m, program, address, bump) {
        Err(e) => Err(e),
        Ok(post) => if post.author != author {
            Err(BlogError::Unauthorized)
        } else {
            Ok((m.remove(address), PostDeleted { author: post.author, post_id: post.post_id }))
        },
    }
}

/// Lets the post's author delete it, which frees its address.
pub fn delete_post(
    ledger: &mut Ledger,
    program_id: &Pubkey,
    author: &Pubkey,
    address: &Pubkey,
    bump: u8,
) -> (r: Result<PostDeleted, BlogError>)
    requires
        old(ledger).wf(),
    ensures
        final(ledger).wf(),
        match delete_post_spec(old(ledger)@, program_id@, *author, address@, bump) {
            Ok((m, ev)) => r == Ok::<PostDeleted, BlogError>(ev) && final(ledger)@ == m,
            Err(e) => r == Err::<PostDeleted, BlogError>(e) && final(ledger)@ == old(ledger)@,
        },
{
    let post = load_post(ledger, program_id, address, bump)?;
    let ctx = DeletePost { post_account: post, author: *author };
    let event = delete_post::handler(&ctx)?;
    ledger.close(address);
    Ok(event)
}

/// What a profile creation does: the new store and the event, or the error.
pub open spec fn initialize_profile_spec(
    m: Store,
    program: Seq<u8>,
    author: Pubkey,
    display_name: String,
    bio: String,
    avatar_url: String,
    now: i64,
) -> Result<(Store, ProfileInitialized), BlogError> {
    match profile_address(program, author@) {
        None => Err(BlogError::InvalidAddress),
        Some((a, _)) => if m.contains_key(a) {
            Err(BlogError::AlreadyExists)
        } else {
            Ok(
                (
                    m.insert(
                        a,
                        Slot {
                            space: profile_space(display_name@, bio@, avatar_url@) as usize,
                            record: Record::Profile(
                                ProfileAccount { author, display_name, bio, avatar_url, joined_at: now },
                            ),
                        },
                    ),
                    ProfileInitialized { author },
                ),
            )
        },
    }
}

/// Creates the author's profile, joined at `now`, at the address derived
/// from the author alone.
pub fn initialize_profile(
    ledger: &mut Ledger,
    program_id: &Pubkey,
    author: &Pubkey,
    display_name: String,
    bio: String,
    avatar_url: String,
    now: i64,
) -> (r: Result<ProfileInitialized, BlogError>)
    requires
        old(ledger).wf(),
        profile_space(display_name@, bio@, avatar_url@) <= usize::MAX,
    ensures
        final(ledger).wf(),
        match initialize_profile_spec(
            old(ledger)@,
            program_id@,
            *author,
            display_name,
            bio,
            avatar_url,
            now,
        ) {
            Ok((m, ev)) => r == Ok::<ProfileInitialized, BlogError>(ev) && final(ledger)@ == m,
            Err(e) => r == Err::<ProfileInitialized, BlogError>(e) && final(ledger)@ == old(
                ledger,
            )@,
        },
{
    let address = match find_address(&profile_seed_vec(author), program_id) {
        Some((a, _)) => a,
        None => return Err(BlogError::InvalidAddress),
    };
    let space = ProfileAccount::space(&display_name, &bio, &avatar_url);
    let (profile, event) = initialize_profile::handler(
        &InitializeProfile { author: *author },
        display_name,
        bio,
        avatar_url,
        now,
    );
    ledger.create(&address, Slot { space, record: Record::Profile(profile) })?;
    Ok(event)
}

/// What a comment creation on the post at `address` does: the new store and
/// the event, or the error.
pub open spec fn create_comment_spec(
    m: Store,
    program: Seq<u8>,
    commenter: Pubkey,
    address: Seq<u8>,
    bump: u8,
    content: String,
    now: i64,
) -> Result<(Store, CommentCreated), BlogError> {
    match checked_post(m, program, address, bump) {
        Err(e) => Err(e),
        Ok(post) => match create_comment_error(post, content@) {
            Some(e) => Err(e),
            None => match comment_address(program, post.author@, post.post_id, post.comment_count) {
                None => Err(BlogError::InvalidAddress),
                Some((ca, _)) => if m.contains_key(ca) {
                    Err(BlogError::AlreadyExists)
                } else {
                    let comment = CommentAccount {
                        commenter,
                        post_author: post.author,
                        post_id: post.post_id,
                        comment_id: post.comment_count,
                        content,
                        created_at: now,
                    };
                    Ok(
                        (
                            m.insert(
                                ca,
                                Slot {
                                    space: comment_space(content@) as usize,
                                    record: Record::Comment(comment),
                                },
                            ).insert(
                                address,
                                Slot { space: m[address].space, record: Record::Post(post_with_comment(post)) },
                            ),
                            CommentCreated {
                                commenter,
                                post_author: post.author,
                                post_id: post.post_id,
                                comment_id: post.comment_count,
                            },
                        ),
                    )
                },
            },
        },
    }
}

/// Adds the post's next comment, stored at the address derived from the
/// post and its comment count, and advances that count.
pub fn create_comment(
    ledger: &mut Ledger,
    program_id: &Pubkey,
    commenter: &Pubkey,
    address: &Pubkey,
    bump: u8,
    content: String,
    now: i64,
) -> (r: Result<CommentCreated, BlogError>)
    requires
        old(ledger).wf(),
    ensures
        final(ledger).wf(),
        match create_comment_spec(old(ledger)@, program_id@, *commenter, address@, bump, content, now) {
            Ok((m, ev)) => r == Ok::<CommentCreated, BlogError>(ev) && final(ledger)@ == m,
            Err(e) => r == Err::<CommentCreated, BlogError>(e) && final(ledger)@ == old(ledger)@,
        },
{
    let post = load_post(ledger, program_id, address, bump)?;
    let mut ctx = CreateComment { post_account: post, commenter: *commenter };
    let (comment, event) = create_comment::handler(&mut ctx, content, now)?;
    let comment_addr = match find_address(
        &comment_seed_vec(&comment.post_author, comment.post_id, comment.comment_id),
        program_id,
    ) {
        Some((a, _)) => a,
        None => return Err(BlogError::InvalidAddress),
    };
    let space = CommentAccount::space(&comment.content);
    ledger.create(&comment_addr, Slot { space, record: Record::Comment(comment) })?;
    ledger.write(address, Record::Post(ctx.post_account));
    Ok(event)
}

} // verus!
