use crate::blog::{
    create_comment_spec,
    blog_address, blog_at, checked_post, create_post_spec, delete_post_spec, initialize_blog_spec,
    initialize_profile_spec, post_address, post_at, profile_address, update_post_spec, Store,
};
use crate::instructions::create_post::{MAX_CONTENT_LEN, MAX_TITLE_LEN};
use crate::errors::BlogError;
use crate::events::{BlogInitialized, PostCreated, PostDeleted, PostUpdated, ProfileInitialized};
use crate::key::Pubkey;
use crate::ledger::Slot;
use crate::state::{text_len, BlogAccount, PostAccount, ProfileAccount, Record};
use vstd::prelude::*;

verus! {

/// A second blog for the same author is refused with `AlreadyExists`, and
/// the first stays readable at the address derived from the author alone.
pub proof fn blog_is_unique(m: Store, program: Seq<u8>, author: Pubkey)
    ensures
        initialize_blog_spec(m, program, author) matches Ok((m1, _)) ==> {
            &&& initialize_blog_spec(m1, program, author) == Err::<(Store, BlogInitialized), BlogError>(BlogError::AlreadyExists)
            &&& blog_address(program, author@) matches Some((a, _))
            &&& blog_at(m1, a) == Some(BlogAccount { author, post_count: 0 })
        },
{
}

/// A second profile for the same author is refused with `AlreadyExists`,
/// and the first stays readable at the address derived from the author
/// alone.
pub proof fn profile_is_unique(
    m: Store,
    program: Seq<u8>,
    author: Pubkey,
    display_name: String,
    bio: String,
    avatar_url: String,
    now: i64,
    display_name2: String,
    bio2: String,
    avatar_url2: String,
    now2: i64,
)
    ensures
        initialize_profile_spec(m, program, author, display_name, bio, avatar_url, now) matches Ok(
            (m1, _),
        ) ==> {
            &&& initialize_profile_spec(m1, program, author, display_name2, bio2, avatar_url2, now2)
                == Err::<(Store, ProfileInitialized), BlogError>(BlogError::AlreadyExists)
            &&& profile_address(program, author@) matches Some((a, _))
            &&& m1.contains_key(a)
            &&& m1[a].record == Record::Profile(
                ProfileAccount { author, display_name, bio, avatar_url, joined_at: now },
            )
        },
{
}

/// A post created on a blog with post count `n` gets id `n`, and leaves the
/// count at `n + 1`.
pub proof fn post_takes_next_id(
    m: Store,
    program: Seq<u8>,
    author: Pubkey,
    title: String,
    content: String,
    now: i64,
)
    ensures
        create_post_spec(m, program, author, title, content, now) matches Ok((m1, ev)) ==> {
            &&& blog_address(program, author@) matches Some((ba, _))
            &&& blog_at(m, ba) matches Some(b)
            &&& ev == (PostCreated { author, post_id: b.post_count })
            &&& blog_at(m1, ba) == Some(
                BlogAccount { author: b.author, post_count: (b.post_count + 1) as u64 },
            )
        },
{
}

/// Creating posts one after another on a blog that starts with no posts
/// hands out the ids `0, 1, ..., k - 1`, in order, and leaves the count at `k`.
pub proof fn posts_are_numbered_in_order(
    stores: Seq<Store>,
    program: Seq<u8>,
    author: Pubkey,
    titles: Seq<String>,
    contents: Seq<String>,
    times: Seq<i64>,
    events: Seq<PostCreated>,
)
    requires
        stores.len() == events.len() + 1,
        titles.len() == events.len(),
        contents.len() == events.len(),
        times.len() == events.len(),
        blog_address(program, author@) matches Some((ba, _)) && blog_at(stores[0], ba) matches Some(b)
            && b.post_count == 0,
        forall|i: int|
            0 <= i < events.len() ==> create_post_spec(
                #[trigger] stores[i],
                program,
                author,
                titles[i],
                contents[i],
                times[i],
            ) == Ok::<(Store, PostCreated), BlogError>((stores[i + 1], events[i])),
    ensures
        forall|i: int| 0 <= i < events.len() ==> (#[trigger] events[i]).post_id == i,
        blog_address(program, author@) matches Some((ba, _)) && blog_at(stores[events.len() as int], ba)
            matches Some(b) && b.post_count == events.len(),
    decreases events.len(),
{
    let k = events.len() as int;
    if k > 0 {
        let st = stores.take(k);
        let ti = titles.take(k - 1);
        let co = contents.take(k - 1);
        let tm = times.take(k - 1);
        let ev = events.take(k - 1);
        assert forall|i: int| 0 <= i < ev.len() implies create_post_spec(
            #[trigger] st[i],
            program,
            author,
            ti[i],
            co[i],
            tm[i],
        ) == Ok::<(Store, PostCreated), BlogError>((st[i + 1], ev[i])) by {
            assert(st[i] == stores[i]);
            assert(st[i + 1] == stores[i + 1]);
            assert(create_post_spec(stores[i], program, author, titles[i], contents[i], times[i])
                == Ok::<(Store, PostCreated), BlogError>((stores[i + 1], events[i])));
        }
        assert(st[0] == stores[0]);
        posts_are_numbered_in_order(
            stores.take(k),
            program,
            author,
            titles.take(k - 1),
            contents.take(k - 1),
            times.take(k - 1),
            events.take(k - 1),
        );
        assert forall|i: int| 0 <= i < k - 1 implies (#[trigger] events[i]).post_id == i by {
            assert(events.take(k - 1)[i] == events[i]);
        }
        assert(stores.take(k)[k - 1] == stores[k - 1]);
        post_takes_next_id(stores[k - 1], program, author, titles[k - 1], contents[k - 1], times[k - 1]);
    }
}

/// An update or a deletion of a post by anyone but its author is refused
/// with `Unauthorized` (and a refused operation leaves the store as it was).
pub proof fn only_author_may_change_post(
    m: Store,
    program: Seq<u8>,
    caller: Pubkey,
    address: Seq<u8>,
    bump: u8,
    new_title: Option<String>,
    new_content: Option<String>,
    now: i64,
)
    requires
        checked_post(m, program, address, bump) matches Ok(post) && post.author != caller,
    ensures
        update_post_spec(m, program, caller, address, bump, new_title, new_content, now) == Err::<
            (Store, PostUpdated),
            BlogError,
        >(BlogError::Unauthorized),
        delete_post_spec(m, program, caller, address, bump) == Err::<(Store, PostDeleted), BlogError>(
            BlogError::Unauthorized,
        ),
{
}

/// On the author's own blog, a title over the limit is refused with
/// `TitleTooLong`, and a content over the limit with a title within it is
/// refused with `ContentTooLong`.
pub proof fn post_lengths_are_enforced(
    m: Store,
    program: Seq<u8>,
    author: Pubkey,
    title: String,
    content: String,
    now: i64,
)
    requires
        blog_address(program, author@) matches Some((ba, _)) && blog_at(m, ba) matches Some(b)
            && b.author == author,
    ensures
        text_len(title@) > MAX_TITLE_LEN ==> create_post_spec(m, program, author, title, content, now)
            == Err::<(Store, PostCreated), BlogError>(BlogError::TitleTooLong),
        text_len(title@) <= MAX_TITLE_LEN && text_len(content@) > MAX_CONTENT_LEN ==> create_post_spec(
            m,
            program,
            author,
            title,
            content,
            now,
        ) == Err::<(Store, PostCreated), BlogError>(BlogError::ContentTooLong),
{
}

/// A blog whose post count is `u64::MAX` takes no more posts: creation with
/// texts within the limits is refused with `NumericalOverflow`.
pub proof fn full_blog_overflows(
    m: Store,
    program: Seq<u8>,
    author: Pubkey,
    title: String,
    content: String,
    now: i64,
)
    requires
        blog_address(program, author@) matches Some((ba, _)) && blog_at(m, ba) matches Some(b)
            && b.author == author && b.post_count == u64::MAX,
        text_len(title@) <= MAX_TITLE_LEN,
        text_len(content@) <= MAX_CONTENT_LEN,
    ensures
        create_post_spec(m, program, author, title, content, now) == Err::<(Store, PostCreated), BlogError>(
            BlogError::NumericalOverflow,
        ),
{
}

/// After a post is created, the post stored at the address derived from its
/// author and id holds the given title and content, created and updated at
/// the same time.
pub proof fn created_post_reads_back(
    m: Store,
    program: Seq<u8>,
    author: Pubkey,
    title: String,
    content: String,
    now: i64,
)
    ensures
        create_post_spec(m, program, author, title, content, now) matches Ok((m1, ev)) ==> {
            &&& post_address(program, author@, ev.post_id) matches Some((pa, _))
            &&& post_at(m1, pa) matches Some(p)
            &&& p.title == title
            &&& p.content == content
            &&& p.author == author
            &&& p.post_id == ev.post_id
            &&& p.created_at == p.updated_at
            &&& p.comment_count == 0
        },
{
    if let Ok((m1, ev)) = create_post_spec(m, program, author, title, content, now) {
        let (ba, _) = blog_address(program, author@).unwrap();
        let (pa, _) = post_address(program, author@, ev.post_id).unwrap();
        assert(m.contains_key(ba));
        assert(pa != ba);
    }
}

/// An update that supplies only a title replaces the title, keeps the
/// content and the creation time, and sets the update time to `now`: later
/// than before whenever the clock has advanced.
pub proof fn title_update_keeps_content(
    m: Store,
    program: Seq<u8>,
    author: Pubkey,
    address: Seq<u8>,
    bump: u8,
    new_title: String,
    now: i64,
)
    ensures
        update_post_spec(m, program, author, address, bump, Some(new_title), None, now) matches Ok(
            (m1, _),
        ) ==> {
            &&& post_at(m, address) matches Some(before)
            &&& post_at(m1, address) matches Some(after)
            &&& after.title == new_title
            &&& after.content == before.content
            &&& after.created_at == before.created_at
            &&& after.updated_at == now
            &&& now > before.updated_at ==> after.updated_at > before.updated_at
        },
{
}

/// Every post is behind its blog's counter: the blog derived from the
/// post's author exists, and its post count is past the post's id.
pub open spec fn counters_ahead(m: Store, program: Seq<u8>) -> bool {
    forall|a: Seq<u8>| #[trigger] post_at(m, a) is Some ==> behind_counter(m, program, post_at(m, a).unwrap())
}

/// The blog derived from the post's author exists, and its post count is
/// past the post's id.
pub open spec fn behind_counter(m: Store, program: Seq<u8>, p: PostAccount) -> bool {
    &&& blog_address(program, p.author@) matches Some((ba, _))
    &&& blog_at(m, ba) matches Some(b)
    &&& b.post_count > p.post_id
}

/// Deleting a post frees its address, and a post that its author creates
/// afterwards gets a larger id: the counter, not the address, keeps ids
/// from being handed out twice.
pub proof fn deleted_post_id_is_not_reused(
    m: Store,
    program: Seq<u8>,
    author: Pubkey,
    address: Seq<u8>,
    bump: u8,
    title: String,
    content: String,
    now: i64,
)
    requires
        counters_ahead(m, program),
    ensures
        delete_post_spec(m, program, author, address, bump) matches Ok((m1, ev)) ==> {
            &&& !m1.contains_key(address)
            &&& create_post_spec(m1, program, author, title, content, now) matches Ok((_, ev2))
                ==> ev2.post_id > ev.post_id
        },
{
    if let Ok((m1, ev)) = delete_post_spec(m, program, author, address, bump) {
        let p = post_at(m, address).unwrap();
        assert(post_at(m, address) matches Some(_));
        let (ba, _) = blog_address(program, p.author@).unwrap();
        assert(blog_at(m1, ba) == blog_at(m, ba));
    }
}

/// An empty store has no posts, so every counter is ahead.
pub proof fn empty_store_counters_ahead(program: Seq<u8>)
    ensures
        counters_ahead(Map::<Seq<u8>, Slot>::empty(), program),
{
}

/// Creating a blog keeps every counter ahead.
pub proof fn initialize_blog_keeps_counters_ahead(m: Store, program: Seq<u8>, author: Pubkey)
    requires
        counters_ahead(m, program),
    ensures
        initialize_blog_spec(m, program, author) matches Ok((m1, _)) ==> counters_ahead(m1, program),
{
    if let Ok((m1, _)) = initialize_blog_spec(m, program, author) {
        let (a, _) = blog_address(program, author@).unwrap();
        assert forall|x: Seq<u8>| #[trigger] post_at(m1, x) is Some implies behind_counter(
            m1,
            program,
            post_at(m1, x).unwrap(),
        ) by {
            assert(post_at(m, x) == post_at(m1, x));
            let p = post_at(m, x).unwrap();
            let (ba, _) = blog_address(program, p.author@).unwrap();
            assert(blog_at(m1, ba) == blog_at(m, ba));
        }
    }
}

/// Creating a profile keeps every counter ahead.
pub proof fn initialize_profile_keeps_counters_ahead(
    m: Store,
    program: Seq<u8>,
    author: Pubkey,
    display_name: String,
    bio: String,
    avatar_url: String,
    now: i64,
)
    requires
        counters_ahead(m, program),
    ensures
        initialize_profile_spec(m, program, author, display_name, bio, avatar_url, now) matches Ok(
            (m1, _),
        ) ==> counters_ahead(m1, program),
{
    if let Ok((m1, _)) = initialize_profile_spec(m, program, author, display_name, bio, avatar_url, now) {
        assert forall|x: Seq<u8>| #[trigger] post_at(m1, x) is Some implies behind_counter(
            m1,
            program,
            post_at(m1, x).unwrap(),
        ) by {
            assert(post_at(m, x) == post_at(m1, x));
            let p = post_at(m, x).unwrap();
            let (ba, _) = blog_address(program, p.author@).unwrap();
            assert(blog_at(m1, ba) == blog_at(m, ba));
        }
    }
}

/// Creating a post keeps every counter ahead.
pub proof fn create_post_keeps_counters_ahead(
    m: Store,
    program: Seq<u8>,
    author: Pubkey,
    title: String,
    content: String,
    now: i64,
)
    requires
        counters_ahead(m, program),
    ensures
        create_post_spec(m, program, author, title, content, now) matches Ok((m1, _))
            ==> counters_ahead(m1, program),
{
    if let Ok((m1, _)) = create_post_spec(m, program, author, title, content, now) {
        let (ba0, _) = blog_address(program, author@).unwrap();
        let b0 = blog_at(m, ba0).unwrap();
        let (pa, _) = post_address(program, author@, b0.post_count).unwrap();
        assert forall|x: Seq<u8>| #[trigger] post_at(m1, x) is Some implies behind_counter(
            m1,
            program,
            post_at(m1, x).unwrap(),
        ) by {
            if x != pa {
                assert(post_at(m, x) == post_at(m1, x));
                let p = post_at(m, x).unwrap();
                let (ba, _) = blog_address(program, p.author@).unwrap();
                if ba != ba0 {
                    assert(blog_at(m1, ba) == blog_at(m, ba));
                }
            }
        }
    }
}

/// Updating a post keeps every counter ahead.
pub proof fn update_post_keeps_counters_ahead(
    m: Store,
    program: Seq<u8>,
    author: Pubkey,
    address: Seq<u8>,
    bump: u8,
    new_title: Option<String>,
    new_content: Option<String>,
    now: i64,
)
    requires
        counters_ahead(m, program),
    ensures
        update_post_spec(m, program, author, address, bump, new_title, new_content, now) matches Ok(
            (m1, _),
        ) ==> counters_ahead(m1, program),
{
    if let Ok((m1, _)) = update_post_spec(m, program, author, address, bump, new_title, new_content, now) {
        assert(post_at(m, address) matches Some(_));
        assert forall|x: Seq<u8>| #[trigger] post_at(m1, x) is Some implies behind_counter(
            m1,
            program,
            post_at(m1, x).unwrap(),
        ) by {
            assert(post_at(m, x) matches Some(_));
            let p = post_at(m, x).unwrap();
            let (ba, _) = blog_address(program, p.author@).unwrap();
            assert(blog_at(m1, ba) == blog_at(m, ba));
        }
    }
}

/// Deleting a post keeps every counter ahead.
pub proof fn delete_post_keeps_counters_ahead(
    m: Store,
    program: Seq<u8>,
    author: Pubkey,
    address: Seq<u8>,
    bump: u8,
)
    requires
        counters_ahead(m, program),
    ensures
        delete_post_spec(m, program, author, address, bump) matches Ok((m1, _)) ==> counters_ahead(
            m1,
            program,
        ),
{
    if let Ok((m1, _)) = delete_post_spec(m, program, author, address, bump) {
        assert(post_at(m, address) matches Some(_));
        assert forall|x: Seq<u8>| #[trigger] post_at(m1, x) is Some implies behind_counter(
            m1,
            program,
            post_at(m1, x).unwrap(),
        ) by {
            assert(post_at(m, x) == post_at(m1, x));
            let p = post_at(m, x).unwrap();
            let (ba, _) = blog_address(program, p.author@).unwrap();
            assert(blog_at(m1, ba) == blog_at(m, ba));
        }
    }
}

/// Commenting on a post keeps every counter ahead.
pub proof fn create_comment_keeps_counters_ahead(
    m: Store,
    program: Seq<u8>,
    commenter: Pubkey,
    address: Seq<u8>,
    bump: u8,
    content: String,
    now: i64,
)
    requires
        counters_ahead(m, program),
    ensures
        create_comment_spec(m, program, commenter, address, bump, content, now) matches Ok((m1, _))
            ==> counters_ahead(m1, program),
{
    if let Ok((m1, _)) = create_comment_spec(m, program, commenter, address, bump, content, now) {
        assert(post_at(m, address) matches Some(_));
        assert forall|x: Seq<u8>| #[trigger] post_at(m1, x) is Some implies behind_counter(
            m1,
            program,
            post_at(m1, x).unwrap(),
        ) by {
            assert(post_at(m, x) matches Some(_));
            let p = post_at(m, x).unwrap();
            let (ba, _) = blog_address(program, p.author@).unwrap();
            assert(blog_at(m1, ba) == blog_at(m, ba));
        }
    }
}

/// Once a blog is stored at the author's derived address, creating another
/// for that author is refused with `AlreadyExists`, and the store stays as
/// it was.
pub proof fn existing_blog_blocks_another(m: Store, program: Seq<u8>, author: Pubkey)
    requires
        blog_address(program, author@) matches Some((a, _)) && m.contains_key(a),
    ensures
        initialize_blog_spec(m, program, author) == Err::<(Store, BlogInitialized), BlogError>(
            BlogError::AlreadyExists,
        ),
{
}

/// Once a profile is stored at the author's derived address, creating
/// another for that author, with any texts, is refused with `AlreadyExists`,
/// and the first profile keeps its fields.
pub proof fn existing_profile_blocks_another(
    m: Store,
    program: Seq<u8>,
    author: Pubkey,
    display_name: String,
    bio: String,
    avatar_url: String,
    now: i64,
)
    requires
        profile_address(program, author@) matches Some((a, _)) && m.contains_key(a),
    ensures
        initialize_profile_spec(m, program, author, display_name, bio, avatar_url, now) == Err::<
            (Store, ProfileInitialized),
            BlogError,
        >(BlogError::AlreadyExists),
{
}

/// The result of creating posts one after another, the `i`-th with
/// `titles[i]`, `contents[i]` at `times[i]`: the final store and the events
/// in order, or the first error.
pub open spec fn create_posts(
    m: Store,
    program: Seq<u8>,
    author: Pubkey,
    titles: Seq<String>,
    contents: Seq<String>,
    times: Seq<i64>,
) -> Result<(Store, Seq<PostCreated>), BlogError>
    decreases titles.len(),
{
    if titles.len() == 0 {
        Ok((m, seq![]))
    } else {
        let k = titles.len() - 1;
        match create_posts(m, program, author, titles.take(k), contents.take(k), times.take(k)) {
            Err(e) => Err(e),
            Ok((m1, events)) => match create_post_spec(m1, program, author, titles[k], contents[k], times[k]) {
                Err(e) => Err(e),
                Ok((m2, ev)) => Ok((m2, events.push(ev))),
            },
        }
    }
}

/// The derived addresses of the author's posts `0..n` all exist, are
/// pairwise distinct, and are free in `m`.
pub open spec fn post_addresses_free(m: Store, program: Seq<u8>, author: Pubkey, n: int) -> bool {
    &&& forall|i: int| 0 <= i < n ==> #[trigger] post_address(program, author@, i as u64) is Some
    &&& forall|i: int|
        0 <= i < n ==> !m.contains_key(#[trigger] post_address(program, author@, i as u64).unwrap().0)
    &&& forall|i: int, j: int|
        0 <= i < j < n ==> #[trigger] post_address(program, author@, i as u64).unwrap().0
            != #[trigger] post_address(program, author@, j as u64).unwrap().0
}

/// `k` creations in a row, with `n >= k` post addresses free at the start:
/// all succeed, the `i`-th with id `i`, and the remaining addresses stay
/// free.
proof fn create_posts_run(
    m: Store,
    program: Seq<u8>,
    author: Pubkey,
    titles: Seq<String>,
    contents: Seq<String>,
    times: Seq<i64>,
    n: int,
)
    requires
        contents.len() == titles.len(),
        times.len() == titles.len(),
        titles.len() <= n <= u64::MAX,
        blog_address(program, author@) matches Some((ba, _)) && blog_at(m, ba) == Some(
            BlogAccount { author, post_count: 0 },
        ),
        forall|i: int| 0 <= i < titles.len() ==> text_len((#[trigger] titles[i])@) <= MAX_TITLE_LEN,
        forall|i: int| 0 <= i < titles.len() ==> text_len((#[trigger] contents[i])@) <= MAX_CONTENT_LEN,
        post_addresses_free(m, program, author, n),
    ensures
        create_posts(m, program, author, titles, contents, times) matches Ok((m1, events)) && {
            &&& events.len() == titles.len()
            &&& forall|i: int| 0 <= i < titles.len() ==> #[trigger] events[i] == (PostCreated { author, post_id: i as u64 })
            &&& blog_address(program, author@) matches Some((ba, _))
            &&& blog_at(m1, ba) == Some(BlogAccount { author, post_count: titles.len() as u64 })
            &&& forall|i: int| 0 <= i < titles.len() ==> ((#[trigger] post_at(m1, post_address(program, author@, i as u64).unwrap().0)) matches Some(p) && p.post_id == i)
            &&& forall|i: int| titles.len() <= i < n ==> !m1.contains_key(#[trigger] post_address(program, author@, i as u64).unwrap().0)
        },
    decreases titles.len(),
{
    let k = titles.len() as int;
    let (ba, _) = blog_address(program, author@).unwrap();
    if k > 0 {
        let t = titles.take(k - 1);
        let c = contents.take(k - 1);
        assert forall|i: int| 0 <= i < t.len() implies text_len((#[trigger] t[i])@) <= MAX_TITLE_LEN by {
            assert(t[i] == titles[i]);
        }
        assert forall|i: int| 0 <= i < c.len() implies text_len((#[trigger] c[i])@) <= MAX_CONTENT_LEN by {
            assert(c[i] == contents[i]);
        }
        create_posts_run(m, program, author, t, c, times.take(k - 1), n);
        let (m1, events) = create_posts(m, program, author, t, c, times.take(k - 1)).unwrap();
        assert(text_len(titles[k - 1]@) <= MAX_TITLE_LEN);
        assert(text_len(contents[k - 1]@) <= MAX_CONTENT_LEN);
        let pa = post_address(program, author@, (k - 1) as u64).unwrap().0;
        assert(!m1.contains_key(pa));
        assert(m.contains_key(ba));
        let (m2, ev) = create_post_spec(m1, program, author, titles[k - 1], contents[k - 1], times[k - 1]).unwrap();
        assert(ba != pa);
        assert forall|i: int| 0 <= i < k implies ((#[trigger] post_at(m2, post_address(program, author@, i as u64).unwrap().0)) matches Some(p) && p.post_id == i) by {
            let q = post_address(program, author@, i as u64).unwrap().0;
            if i < k - 1 {
                assert(q != pa);
                assert(post_at(m1, q) matches Some(_));
                assert(m1.contains_key(q));
                assert(q != ba);
            }
        }
        assert forall|i: int| k <= i < n implies !m2.contains_key(#[trigger] post_address(program, author@, i as u64).unwrap().0) by {
            let q = post_address(program, author@, i as u64).unwrap().0;
            assert(q != pa);
            assert(!m.contains_key(q));
        }
        assert forall|i: int| 0 <= i < k implies #[trigger] events.push(ev)[i] == (PostCreated { author, post_id: i as u64 }) by {
            if i < k - 1 {
                assert(events.push(ev)[i] == events[i]);
            }
        }
    }
}

/// Starting from the author's empty blog, `k` creations in a row with texts
/// within the limits all succeed, provided the derived addresses of posts
/// `0..k` exist, differ, and are free: the ids handed out are exactly
/// `0, 1, ..., k - 1`, each post is stored at the address derived from its
/// id, and the blog's count ends at `k`.
pub proof fn post_run_numbers_from_zero(
    m: Store,
    program: Seq<u8>,
    author: Pubkey,
    titles: Seq<String>,
    contents: Seq<String>,
    times: Seq<i64>,
)
    requires
        contents.len() == titles.len(),
        times.len() == titles.len(),
        titles.len() <= u64::MAX,
        blog_address(program, author@) matches Some((ba, _)) && blog_at(m, ba) == Some(
            BlogAccount { author, post_count: 0 },
        ),
        forall|i: int| 0 <= i < titles.len() ==> text_len((#[trigger] titles[i])@) <= MAX_TITLE_LEN,
        forall|i: int| 0 <= i < titles.len() ==> text_len((#[trigger] contents[i])@) <= MAX_CONTENT_LEN,
        post_addresses_free(m, program, author, titles.len() as int),
    ensures
        create_posts(m, program, author, titles, contents, times) matches Ok((m1, events)) && {
            &&& events.len() == titles.len()
            &&& forall|i: int| 0 <= i < titles.len() ==> #[trigger] events[i] == (PostCreated { author, post_id: i as u64 })
            &&& blog_address(program, author@) matches Some((ba, _))
            &&& blog_at(m1, ba) == Some(BlogAccount { author, post_count: titles.len() as u64 })
            &&& forall|i: int| 0 <= i < titles.len() ==> ((#[trigger] post_at(m1, post_address(program, author@, i as u64).unwrap().0)) matches Some(p) && p.post_id == i)
        },
{
    create_posts_run(m, program, author, titles, contents, times, titles.len() as int);
}

/// After the author deletes post `n`, the author's next creation with texts
/// within the limits succeeds where the derived address of the next id
/// exists, is free and is not the deleted post's: the new post gets the
/// blog's count `m > n`, the count becomes `m + 1`, and the deleted post's
/// address stays free.
pub proof fn creation_after_deletion(
    m: Store,
    program: Seq<u8>,
    author: Pubkey,
    address: Seq<u8>,
    bump: u8,
    title: String,
    content: String,
    now: i64,
)
    requires
        counters_ahead(m, program),
        delete_post_spec(m, program, author, address, bump) is Ok,
        blog_address(program, author@) matches Some((ba, _)) && blog_at(m, ba) matches Some(b)
            && b.author == author && b.post_count < u64::MAX && (post_address(
            program,
            author@,
            b.post_count,
        ) matches Some((pa, _)) && pa != address && !m.contains_key(pa)),
        text_len(title@) <= MAX_TITLE_LEN,
        text_len(content@) <= MAX_CONTENT_LEN,
    ensures
        ({
            let (m1, ev) = delete_post_spec(m, program, author, address, bump).unwrap();
            let ba = blog_address(program, author@).unwrap().0;
            let count = blog_at(m, ba).unwrap().post_count;
            &&& !m1.contains_key(address)
            &&& create_post_spec(m1, program, author, title, content, now) matches Ok((m2, ev2))
            &&& ev2 == (PostCreated { author, post_id: count })
            &&& count > ev.post_id
            &&& !m2.contains_key(address)
            &&& blog_at(m2, ba) == Some(BlogAccount { author, post_count: (count + 1) as u64 })
        }),
{
    let (m1, ev) = delete_post_spec(m, program, author, address, bump).unwrap();
    let p = post_at(m, address).unwrap();
    assert(post_at(m, address) is Some);
    let (ba, _) = blog_address(program, author@).unwrap();
    assert(blog_at(m1, ba) == blog_at(m, ba));
    let pa = post_address(program, author@, blog_at(m, ba).unwrap().post_count).unwrap().0;
    assert(!m1.contains_key(pa));
}

} // verus!
