use solblog::address::{
    blog_seed_vec, check_address, comment_seed_vec, find_address, key_bytes, post_seed_vec,
    profile_seed_vec, u64_le_bytes,
};
use solblog::errors::BlogError;
use solblog::key::Pubkey;
use solblog::state::{byte_len, BlogAccount, CommentAccount, PostAccount, ProfileAccount};

fn key(n: u8) -> Pubkey {
    Pubkey::new_from_array([n; 32])
}

#[test]
fn post_space_counts_prefixes() {
    assert_eq!(PostAccount::space(&"T".to_string(), &"C".to_string()), 82);
    assert_eq!(PostAccount::space(&String::new(), &String::new()), 80);
    assert_eq!(PostAccount::space(&"a".repeat(128), &"b".repeat(2048)), 80 + 128 + 2048);
}

#[test]
fn comment_space_counts_prefix() {
    assert_eq!(CommentAccount::space(&"abc".to_string()), 8 + 32 + 32 + 8 + 8 + 4 + 3 + 8);
    assert_eq!(CommentAccount::space(&String::new()), 100);
}

#[test]
fn profile_space_counts_prefixes() {
    let s = ProfileAccount::space(&"ab".to_string(), &"cde".to_string(), &"f".to_string());
    assert_eq!(s, 8 + 32 + 4 + 2 + 4 + 3 + 4 + 1 + 8);
}

#[test]
fn blog_space() {
    assert_eq!(BlogAccount::SPACE, 48);
}

#[test]
fn byte_len_is_utf8_length() {
    assert_eq!(byte_len(&"é".to_string()), 2);
    assert_eq!(byte_len(&"abc".to_string()), 3);
}

#[test]
fn le_bytes_order() {
    assert_eq!(u64_le_bytes(0x0102), vec![2, 1, 0, 0, 0, 0, 0, 0]);
    assert_eq!(u64_le_bytes(u64::MAX), vec![255; 8]);
    assert_eq!(u64_le_bytes(7), 7u64.to_le_bytes().to_vec());
}

#[test]
fn seeds_layout() {
    let a = key(3);
    assert_eq!(key_bytes(&a), vec![3u8; 32]);
    assert_eq!(blog_seed_vec(&a), vec![b"blog".to_vec(), vec![3u8; 32]]);
    assert_eq!(profile_seed_vec(&a), vec![b"profile".to_vec(), vec![3u8; 32]]);
    assert_eq!(post_seed_vec(&a, 1), vec![b"post".to_vec(), vec![3u8; 32], 1u64.to_le_bytes().to_vec()]);
    assert_eq!(
        comment_seed_vec(&a, 1, 2),
        vec![b"comment".to_vec(), vec![3u8; 32], 1u64.to_le_bytes().to_vec(), 2u64.to_le_bytes().to_vec()]
    );
}

#[test]
fn found_address_matches_solana() {
    let a = key(3);
    let program = key(9);
    let (addr, bump) = find_address(&blog_seed_vec(&a), &program).unwrap();
    let expected = anchor_lang::prelude::Pubkey::find_program_address(
        &[b"blog", &[3u8; 32]],
        &anchor_lang::prelude::Pubkey::new_from_array([9u8; 32]),
    );
    assert_eq!(addr.to_bytes(), expected.0.to_bytes());
    assert_eq!(bump, expected.1);
    assert_ne!(addr, a);
    assert_ne!(addr, program);
}

#[test]
fn found_address_checks_with_its_bump() {
    let a = key(4);
    let program = key(9);
    let (addr, bump) = find_address(&post_seed_vec(&a, 0), &program).unwrap();
    assert!(check_address(&post_seed_vec(&a, 0), &program, &addr, bump));
    assert!(!check_address(&post_seed_vec(&a, 1), &program, &addr, bump));
    assert!(!check_address(&post_seed_vec(&a, 0), &program, &key(5), bump));
}

#[test]
fn addresses_differ_by_kind_and_id() {
    let a = key(4);
    let program = key(9);
    let blog = find_address(&blog_seed_vec(&a), &program).unwrap().0;
    let profile = find_address(&profile_seed_vec(&a), &program).unwrap().0;
    let first = find_address(&post_seed_vec(&a, 0), &program).unwrap().0;
    let second = find_address(&post_seed_vec(&a, 1), &program).unwrap().0;
    assert_ne!(blog, profile);
    assert_ne!(first, second);
    assert_ne!(blog, first);
}

#[test]
fn too_long_seed_has_no_address() {
    let seeds = vec![vec![1u8; 33]];
    assert!(find_address(&seeds, &key(9)).is_none());
    assert!(!check_address(&seeds, &key(9), &key(1), 255));
}

#[test]
fn error_messages() {
    assert_eq!(BlogError::TitleTooLong.message(), "Title too long");
    assert_eq!(BlogError::ContentTooLong.message(), "Content too long");
    assert_eq!(BlogError::Unauthorized.message(), "Unauthorized");
    assert_eq!(BlogError::NumericalOverflow.message(), "Numerical overflow");
    assert_eq!(BlogError::CommentTooLong.message(), "Comment too long");
}

#[test]
fn key_equality() {
    let mut b = [1u8; 32];
    assert_eq!(key(1), Pubkey::new_from_array(b));
    b[31] = 2;
    assert_ne!(key(1), Pubkey::new_from_array(b));
}
