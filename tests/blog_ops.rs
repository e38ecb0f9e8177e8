use solblog::address::{blog_seed_vec, find_address, post_seed_vec, profile_seed_vec};
use solblog::blog::{
    create_comment, create_post, delete_post, initialize_blog, initialize_profile, update_post,
};
use solblog::errors::BlogError;
use solblog::events::{BlogInitialized, CommentCreated, PostCreated, PostDeleted, PostUpdated, ProfileInitialized};
use solblog::key::Pubkey;
use solblog::ledger::{Ledger, Slot};
use solblog::state::{BlogAccount, PostAccount, Record};

fn key(n: u8) -> Pubkey {
    Pubkey::new_from_array([n; 32])
}

fn program() -> Pubkey {
    key(200)
}

fn text(n: usize) -> String {
    "a".repeat(n)
}

fn blog_addr(author: &Pubkey) -> Pubkey {
    find_address(&blog_seed_vec(author), &program()).unwrap().0
}

fn post_addr(author: &Pubkey, id: u64) -> (Pubkey, u8) {
    find_address(&post_seed_vec(author, id), &program()).unwrap()
}

fn blog_of(ledger: &Ledger, author: &Pubkey) -> BlogAccount {
    match &ledger.get(&blog_addr(author)).unwrap().record {
        Record::Blog(b) => *b,
        _ => panic!("not a blog"),
    }
}

fn post_of(ledger: &Ledger, author: &Pubkey, id: u64) -> Option<PostAccount> {
    match ledger.get(&post_addr(author, id).0) {
        Some(Slot { record: Record::Post(p), .. }) => Some(p.duplicate()),
        _ => None,
    }
}

fn ledger_with_blog(author: &Pubkey) -> Ledger {
    let mut ledger = Ledger::new();
    initialize_blog(&mut ledger, &program(), author).unwrap();
    ledger
}

#[test]
fn second_blog_for_same_author_fails() {
    let a = key(1);
    let mut ledger = Ledger::new();
    assert_eq!(initialize_blog(&mut ledger, &program(), &a), Ok(BlogInitialized { author: a }));
    assert_eq!(initialize_blog(&mut ledger, &program(), &a), Err(BlogError::AlreadyExists));
    let b = blog_of(&ledger, &a);
    assert_eq!(b.author, a);
    assert_eq!(b.post_count, 0);
    assert_eq!(ledger.get(&blog_addr(&a)).unwrap().space, 48);
}

#[test]
fn blogs_of_different_authors_coexist() {
    let mut ledger = Ledger::new();
    assert!(initialize_blog(&mut ledger, &program(), &key(1)).is_ok());
    assert!(initialize_blog(&mut ledger, &program(), &key(2)).is_ok());
    assert_ne!(blog_addr(&key(1)), blog_addr(&key(2)));
}

#[test]
fn second_profile_for_same_author_fails() {
    let a = key(3);
    let mut ledger = Ledger::new();
    let r = initialize_profile(&mut ledger, &program(), &a, "Ann".to_string(), "bio".to_string(), "http://x".to_string(), 50);
    assert_eq!(r, Ok(ProfileInitialized { author: a }));
    let r2 = initialize_profile(&mut ledger, &program(), &a, "B".to_string(), "".to_string(), "".to_string(), 60);
    assert_eq!(r2, Err(BlogError::AlreadyExists));
    let addr = find_address(&profile_seed_vec(&a), &program()).unwrap().0;
    let slot = ledger.get(&addr).unwrap();
    assert_eq!(slot.space, 8 + 32 + 4 + 3 + 4 + 3 + 4 + 8 + 8);
    match &slot.record {
        Record::Profile(p) => {
            assert_eq!(p.display_name, "Ann");
            assert_eq!(p.bio, "bio");
            assert_eq!(p.avatar_url, "http://x");
            assert_eq!(p.joined_at, 50);
        }
        _ => panic!("not a profile"),
    }
}

#[test]
fn profile_and_blog_are_independent() {
    let a = key(4);
    let mut ledger = Ledger::new();
    assert!(initialize_profile(&mut ledger, &program(), &a, "n".to_string(), "b".to_string(), "u".to_string(), 1).is_ok());
    assert!(initialize_blog(&mut ledger, &program(), &a).is_ok());
}

#[test]
fn posts_take_consecutive_ids() {
    let a = key(5);
    let mut ledger = ledger_with_blog(&a);
    for i in 0..4u64 {
        let r = create_post(&mut ledger, &program(), &a, format!("t{}", i), "c".to_string(), 10 + i as i64);
        assert_eq!(r, Ok(PostCreated { author: a, post_id: i }));
        assert_eq!(blog_of(&ledger, &a).post_count, i + 1);
    }
    for i in 0..4u64 {
        let p = post_of(&ledger, &a, i).unwrap();
        assert_eq!(p.post_id, i);
        assert_eq!(p.title, format!("t{}", i));
    }
}

#[test]
fn post_without_blog_is_not_found() {
    let mut ledger = Ledger::new();
    let r = create_post(&mut ledger, &program(), &key(6), "t".to_string(), "c".to_string(), 1);
    assert_eq!(r, Err(BlogError::AccountNotFound));
}

#[test]
fn created_post_reads_back() {
    let a = key(7);
    let mut ledger = ledger_with_blog(&a);
    create_post(&mut ledger, &program(), &a, "T".to_string(), "C".to_string(), 1234).unwrap();
    let p = post_of(&ledger, &a, 0).unwrap();
    assert_eq!(p.title, "T");
    assert_eq!(p.content, "C");
    assert_eq!(p.author, a);
    assert_eq!(p.created_at, 1234);
    assert_eq!(p.created_at, p.updated_at);
    assert_eq!(p.comment_count, 0);
    assert_eq!(ledger.get(&post_addr(&a, 0).0).unwrap().space, 82);
}

#[test]
fn create_post_title_limits() {
    let a = key(8);
    let mut ledger = ledger_with_blog(&a);
    let r = create_post(&mut ledger, &program(), &a, text(129), "c".to_string(), 1);
    assert_eq!(r, Err(BlogError::TitleTooLong));
    assert_eq!(blog_of(&ledger, &a).post_count, 0);
    assert!(post_of(&ledger, &a, 0).is_none());
    let r = create_post(&mut ledger, &program(), &a, text(128), "c".to_string(), 1);
    assert_eq!(r, Ok(PostCreated { author: a, post_id: 0 }));
}

#[test]
fn create_post_content_limits() {
    let a = key(9);
    let mut ledger = ledger_with_blog(&a);
    let r = create_post(&mut ledger, &program(), &a, "t".to_string(), text(2049), 1);
    assert_eq!(r, Err(BlogError::ContentTooLong));
    assert_eq!(blog_of(&ledger, &a).post_count, 0);
    assert!(post_of(&ledger, &a, 0).is_none());
    let r = create_post(&mut ledger, &program(), &a, "t".to_string(), text(2048), 1);
    assert!(r.is_ok());
}

#[test]
fn title_length_counts_bytes() {
    let a = key(10);
    let mut ledger = ledger_with_blog(&a);
    // 65 two-byte characters: 130 bytes
    let r = create_post(&mut ledger, &program(), &a, "é".repeat(65), "c".to_string(), 1);
    assert_eq!(r, Err(BlogError::TitleTooLong));
}

#[test]
fn full_counter_overflows() {
    let a = key(11);
    let mut ledger = Ledger::new();
    let blog = BlogAccount { author: a, post_count: u64::MAX };
    ledger.create(&blog_addr(&a), Slot { space: BlogAccount::SPACE, record: Record::Blog(blog) }).unwrap();
    let r = create_post(&mut ledger, &program(), &a, "t".to_string(), "c".to_string(), 1);
    assert_eq!(r, Err(BlogError::NumericalOverflow));
    assert_eq!(blog_of(&ledger, &a).post_count, u64::MAX);
}

#[test]
fn other_signer_cannot_post_on_blog() {
    let a = key(12);
    let mut ledger = Ledger::new();
    let blog = BlogAccount { author: key(13), post_count: 0 };
    ledger.create(&blog_addr(&a), Slot { space: BlogAccount::SPACE, record: Record::Blog(blog) }).unwrap();
    let r = create_post(&mut ledger, &program(), &a, "t".to_string(), "c".to_string(), 1);
    assert_eq!(r, Err(BlogError::Unauthorized));
}

#[test]
fn update_by_stranger_is_unauthorized() {
    let a = key(14);
    let mut ledger = ledger_with_blog(&a);
    create_post(&mut ledger, &program(), &a, "T".to_string(), "C".to_string(), 5).unwrap();
    let (addr, bump) = post_addr(&a, 0);
    let r = update_post(&mut ledger, &program(), &key(15), &addr, bump, Some("X".to_string()), None, 9);
    assert_eq!(r, Err(BlogError::Unauthorized));
    let r = delete_post(&mut ledger, &program(), &key(15), &addr, bump);
    assert_eq!(r, Err(BlogError::Unauthorized));
    let p = post_of(&ledger, &a, 0).unwrap();
    assert_eq!(p.title, "T");
    assert_eq!(p.updated_at, 5);
}

#[test]
fn update_title_only() {
    let a = key(16);
    let mut ledger = ledger_with_blog(&a);
    create_post(&mut ledger, &program(), &a, "Title".to_string(), "Content".to_string(), 5).unwrap();
    let (addr, bump) = post_addr(&a, 0);
    let r = update_post(&mut ledger, &program(), &a, &addr, bump, Some("New".to_string()), None, 9);
    assert_eq!(r, Ok(PostUpdated { author: a, post_id: 0 }));
    let p = post_of(&ledger, &a, 0).unwrap();
    assert_eq!(p.title, "New");
    assert_eq!(p.content, "Content");
    assert_eq!(p.created_at, 5);
    assert_eq!(p.updated_at, 9);
    assert!(p.updated_at > p.created_at);
}

#[test]
fn update_content_only() {
    let a = key(17);
    let mut ledger = ledger_with_blog(&a);
    create_post(&mut ledger, &program(), &a, "Title".to_string(), "Content".to_string(), 5).unwrap();
    let (addr, bump) = post_addr(&a, 0);
    update_post(&mut ledger, &program(), &a, &addr, bump, None, Some("Text".to_string()), 7).unwrap();
    let p = post_of(&ledger, &a, 0).unwrap();
    assert_eq!(p.title, "Title");
    assert_eq!(p.content, "Text");
    assert_eq!(p.updated_at, 7);
}

#[test]
fn update_limits() {
    let a = key(18);
    let mut ledger = ledger_with_blog(&a);
    create_post(&mut ledger, &program(), &a, text(128), text(2048), 5).unwrap();
    let (addr, bump) = post_addr(&a, 0);
    let r = update_post(&mut ledger, &program(), &a, &addr, bump, Some(text(101)), None, 6);
    assert_eq!(r, Err(BlogError::TitleTooLong));
    let r = update_post(&mut ledger, &program(), &a, &addr, bump, Some(text(100)), None, 6);
    assert!(r.is_ok());
    let r = update_post(&mut ledger, &program(), &a, &addr, bump, None, Some(text(5001)), 6);
    assert_eq!(r, Err(BlogError::ContentTooLong));
    // 100 + 2076 bytes still fit the 128 + 2048 allocated
    let r = update_post(&mut ledger, &program(), &a, &addr, bump, None, Some(text(2076)), 6);
    assert!(r.is_ok());
}

#[test]
fn update_beyond_allocation_is_refused() {
    let a = key(19);
    let mut ledger = ledger_with_blog(&a);
    create_post(&mut ledger, &program(), &a, "T".to_string(), "C".to_string(), 5).unwrap();
    let (addr, bump) = post_addr(&a, 0);
    let r = update_post(&mut ledger, &program(), &a, &addr, bump, None, Some(text(5000)), 6);
    assert_eq!(r, Err(BlogError::CapacityExceeded));
    let r = update_post(&mut ledger, &program(), &a, &addr, bump, Some(text(2)), None, 6);
    assert_eq!(r, Err(BlogError::CapacityExceeded));
    let r = update_post(&mut ledger, &program(), &a, &addr, bump, Some(text(1)), Some(String::new()), 6);
    assert!(r.is_ok());
    assert_eq!(post_of(&ledger, &a, 0).unwrap().content, "");
}

#[test]
fn wrong_bump_is_rejected() {
    let a = key(20);
    let mut ledger = ledger_with_blog(&a);
    create_post(&mut ledger, &program(), &a, "T".to_string(), "C".to_string(), 5).unwrap();
    let (addr, bump) = post_addr(&a, 0);
    let r = update_post(&mut ledger, &program(), &a, &addr, bump.wrapping_sub(1), Some("X".to_string()), None, 6);
    assert_eq!(r, Err(BlogError::InvalidAddress));
    let r = delete_post(&mut ledger, &program(), &a, &addr, bump.wrapping_add(1));
    assert_eq!(r, Err(BlogError::InvalidAddress));
}

#[test]
fn operations_on_missing_post_fail() {
    let a = key(21);
    let mut ledger = ledger_with_blog(&a);
    let (addr, bump) = post_addr(&a, 0);
    assert_eq!(delete_post(&mut ledger, &program(), &a, &addr, bump), Err(BlogError::AccountNotFound));
    assert_eq!(
        update_post(&mut ledger, &program(), &a, &addr, bump, None, None, 1),
        Err(BlogError::AccountNotFound)
    );
    assert_eq!(
        create_comment(&mut ledger, &program(), &a, &addr, bump, "c".to_string(), 1),
        Err(BlogError::AccountNotFound)
    );
    // the blog's address holds no post
    assert_eq!(
        delete_post(&mut ledger, &program(), &a, &blog_addr(&a), bump),
        Err(BlogError::AccountNotFound)
    );
}

#[test]
fn deleted_post_id_is_not_reused() {
    let a = key(22);
    let mut ledger = ledger_with_blog(&a);
    create_post(&mut ledger, &program(), &a, "T".to_string(), "C".to_string(), 5).unwrap();
    let (addr, bump) = post_addr(&a, 0);
    let r = delete_post(&mut ledger, &program(), &a, &addr, bump);
    assert_eq!(r, Ok(PostDeleted { author: a, post_id: 0 }));
    assert!(!ledger.contains(&addr));
    let r = create_post(&mut ledger, &program(), &a, "T".to_string(), "C".to_string(), 6);
    assert_eq!(r, Ok(PostCreated { author: a, post_id: 1 }));
    assert!(!ledger.contains(&addr));
}

#[test]
fn comments_take_consecutive_ids() {
    let a = key(23);
    let c = key(24);
    let mut ledger = ledger_with_blog(&a);
    create_post(&mut ledger, &program(), &a, "T".to_string(), "C".to_string(), 5).unwrap();
    let (addr, bump) = post_addr(&a, 0);
    for i in 0..3u64 {
        let r = create_comment(&mut ledger, &program(), &c, &addr, bump, "nice".to_string(), 7);
        assert_eq!(r, Ok(CommentCreated { commenter: c, post_author: a, post_id: 0, comment_id: i }));
    }
    assert_eq!(post_of(&ledger, &a, 0).unwrap().comment_count, 3);
}

#[test]
fn comment_limits() {
    let a = key(25);
    let mut ledger = ledger_with_blog(&a);
    create_post(&mut ledger, &program(), &a, "T".to_string(), "C".to_string(), 5).unwrap();
    let (addr, bump) = post_addr(&a, 0);
    let r = create_comment(&mut ledger, &program(), &key(26), &addr, bump, text(1025), 7);
    assert_eq!(r, Err(BlogError::CommentTooLong));
    assert_eq!(post_of(&ledger, &a, 0).unwrap().comment_count, 0);
    let r = create_comment(&mut ledger, &program(), &key(26), &addr, bump, text(1024), 7);
    assert!(r.is_ok());
}

#[test]
fn full_comment_counter_overflows() {
    let a = key(27);
    let mut ledger = ledger_with_blog(&a);
    create_post(&mut ledger, &program(), &a, "T".to_string(), "C".to_string(), 5).unwrap();
    let (addr, bump) = post_addr(&a, 0);
    let mut p = post_of(&ledger, &a, 0).unwrap();
    p.comment_count = u64::MAX;
    ledger.write(&addr, Record::Post(p));
    let r = create_comment(&mut ledger, &program(), &key(26), &addr, bump, "x".to_string(), 7);
    assert_eq!(r, Err(BlogError::NumericalOverflow));
}

#[test]
fn post_at_non_canonical_address_is_rejected() {
    let a = key(28);
    let mut ledger = ledger_with_blog(&a);
    create_post(&mut ledger, &program(), &a, "T".to_string(), "C".to_string(), 5).unwrap();
    let (_, bump) = post_addr(&a, 0);
    let copy = post_of(&ledger, &a, 0).unwrap();
    let other = key(29);
    ledger.create(&other, Slot { space: 82, record: Record::Post(copy) }).unwrap();
    let r = update_post(&mut ledger, &program(), &a, &other, bump, Some("X".to_string()), None, 6);
    assert_eq!(r, Err(BlogError::InvalidAddress));
    let r = create_comment(&mut ledger, &program(), &key(30), &other, bump, "c".to_string(), 6);
    assert_eq!(r, Err(BlogError::InvalidAddress));
    let r = delete_post(&mut ledger, &program(), &a, &other, bump);
    assert_eq!(r, Err(BlogError::InvalidAddress));
    assert!(ledger.contains(&other));
    assert_eq!(post_of(&ledger, &a, 0).unwrap().comment_count, 0);
}
