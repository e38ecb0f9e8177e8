use crate::key::Pubkey;
use vstd::prelude::*;

verus! {

/// What `Pubkey::try_find_program_address` returns for these seeds and
/// program: the first address found off the curve, with its bump.
pub uninterp spec fn found_program_address(seeds: Seq<Seq<u8>>, program: Seq<u8>) -> Option<
    (Seq<u8>, u8),
>;

/// Relies on `Pubkey::try_find_program_address` of solana-program (through
/// anchor-lang): the result depends on the seeds and the program alone.
#[verifier::external_body]
fn try_find_program_address(seeds: &Vec<Vec<u8>>, program_id: &Pubkey) -> (r: Option<(Pubkey, u8)>)
    ensures
        match r {
            Some((a, b)) => found_program_address(seeds_view(seeds@), program_id@) == Some((a@, b)),
            None => found_program_address(seeds_view(seeds@), program_id@) is None,
        },
{
    let refs: Vec<&[u8]> = seeds.iter().map(|s| s.as_slice()).collect();
    let program = anchor_lang::prelude::Pubkey::new_from_array(program_id.bytes);
    anchor_lang::prelude::Pubkey::try_find_program_address(&refs, &program).map(
        |(a, b)| (Pubkey { bytes: a.to_bytes() }, b),
    )
}

/// The byte strings of a vector of seeds.
pub open spec fn seeds_view(v: Seq<Vec<u8>>) -> Seq<Seq<u8>> {
    v.map_values(|s: Vec<u8>| s@)
}

/// The `k` low bytes of `n`, least significant first.
pub open spec fn le_bytes_of(n: nat, k: nat) -> Seq<u8>
    decreases k,
{
    if k == 0 {
        seq![]
    } else {
        seq![(n % 256) as u8] + le_bytes_of(n / 256, (k - 1) as nat)
    }
}

/// The 8-byte little-endian encoding of `n`.
pub open spec fn le_bytes(n: u64) -> Seq<u8> {
    le_bytes_of(n as nat, 8)
}

/// The 8-byte little-endian encoding of `n`.
pub fn u64_le_bytes(n: u64) -> (r: Vec<u8>)
    ensures
        r@ == le_bytes(n),
{
    let mut out: Vec<u8> = Vec::new();
    let mut m: u64 = n;
    let mut i: usize = 0;
    while i < 8
        invariant
            0 <= i <= 8,
            le_bytes(n) == out@ + le_bytes_of(m as nat, (8 - i) as nat),
        decreases 8 - i,
    {
        let ghost before = out@;
        out.push((m % 256) as u8);
        proof {
            let rest = le_bytes_of((m / 256) as nat, (8 - i - 1) as nat);
            assert(le_bytes_of(m as nat, (8 - i) as nat) == seq![(m % 256) as u8] + rest);
            assert(before + (seq![(m % 256) as u8] + rest) =~= out@ + rest);
        }
        m = m / 256;
        i = i + 1;
    }
    assert(out@ + le_bytes_of(m as nat, 0) =~= out@);
    out
}

/// The bytes of a key, as a vector.
pub fn key_bytes(k: &Pubkey) -> (r: Vec<u8>)
    ensures
        r@ == k@,
{
    let mut out: Vec<u8> = Vec::new();
    let mut i: usize = 0;
    while i < 32
        invariant
            0 <= i <= 32,
            out@ == k@.take(i as int),
        decreases 32 - i,
    {
        out.push(k.bytes[i]);
        assert(k@.take(i + 1) =~= k@.take(i as int).push(k.bytes[i as int]));
        i = i + 1;
    }
    assert(k@.take(32) =~= k@);
    out
}

pub open spec fn blog_tag() -> Seq<u8> {
    seq![98u8, 108u8, 111u8, 103u8]
}

pub open spec fn profile_tag() -> Seq<u8> {
    seq![112u8, 114u8, 111u8, 102u8, 105u8, 108u8, 101u8]
}

pub open spec fn post_tag() -> Seq<u8> {
    seq![112u8, 111u8, 115u8, 116u8]
}

pub open spec fn comment_tag() -> Seq<u8> {
    seq![99u8, 111u8, 109u8, 109u8, 101u8, 110u8, 116u8]
}

/// Seeds of a blog's address: `"blog"`, the author.
pub open spec fn blog_seeds(author: Seq<u8>) -> Seq<Seq<u8>> {
    seq![blog_tag(), author]
}

/// Seeds of a profile's address: `"profile"`, the author.
pub open spec fn profile_seeds(author: Seq<u8>) -> Seq<Seq<u8>> {
    seq![profile_tag(), author]
}

/// Seeds of a post's address: `"post"`, the author, the post id.
pub open spec fn post_seeds(author: Seq<u8>, post_id: u64) -> Seq<Seq<u8>> {
    seq![post_tag(), author, le_bytes(post_id)]
}

/// Seeds of a comment's address: `"comment"`, the post's author, the post
/// id, the comment id.
pub open spec fn comment_seeds(post_author: Seq<u8>, post_id: u64, comment_id: u64) -> Seq<
    Seq<u8>,
> {
    seq![comment_tag(), post_author, le_bytes(post_id), le_bytes(comment_id)]
}

/// Appends one seed.
fn push_seed(seeds: &mut Vec<Vec<u8>>, s: Vec<u8>)
    ensures
        seeds_view(final(seeds)@) == seeds_view(old(seeds)@).push(s@),
{
    let ghost sv = s@;
    seeds.push(s);
    assert(seeds_view(seeds@) =~= seeds_view(old(seeds)@).push(sv));
}

/// A vector of seeds made of two byte strings.
fn two_seeds(a: Vec<u8>, b: Vec<u8>) -> (r: Vec<Vec<u8>>)
    ensures
        seeds_view(r@) == seq![a@, b@],
{
    let mut r: Vec<Vec<u8>> = Vec::new();
    r.push(a);
    r.push(b);
    assert(seeds_view(r@) =~= seq![a@, b@]);
    r
}

pub fn blog_seed_vec(author: &Pubkey) -> (r: Vec<Vec<u8>>)
    ensures
        seeds_view(r@) == blog_seeds(author@),
{
    let tag: Vec<u8> = vec![98u8, 108u8, 111u8, 103u8];
    assert(tag@ =~= blog_tag());
    two_seeds(tag, key_bytes(author))
}

pub fn profile_seed_vec(author: &Pubkey) -> (r: Vec<Vec<u8>>)
    ensures
        seeds_view(r@) == profile_seeds(author@),
{
    let tag: Vec<u8> = vec![112u8, 114u8, 111u8, 102u8, 105u8, 108u8, 101u8];
    assert(tag@ =~= profile_tag());
    two_seeds(tag, key_bytes(author))
}

pub fn post_seed_vec(author: &Pubkey, post_id: u64) -> (r: Vec<Vec<u8>>)
    ensures
        seeds_view(r@) == post_seeds(author@, post_id),
{
    let tag: Vec<u8> = vec![112u8, 111u8, 115u8, 116u8];
    assert(tag@ =~= post_tag());
    let mut r = two_seeds(tag, key_bytes(author));
    push_seed(&mut r, u64_le_bytes(post_id));
    assert(seeds_view(r@) =~= post_seeds(author@, post_id));
    r
}

pub fn comment_seed_vec(post_author: &Pubkey, post_id: u64, comment_id: u64) -> (r: Vec<Vec<u8>>)
    ensures
        seeds_view(r@) == comment_seeds(post_author@, post_id, comment_id),
{
    let tag: Vec<u8> = vec![99u8, 111u8, 109u8, 109u8, 101u8, 110u8, 116u8];
    assert(tag@ =~= comment_tag());
    let mut r = two_seeds(tag, key_bytes(post_author));
    push_seed(&mut r, u64_le_bytes(post_id));
    push_seed(&mut r, u64_le_bytes(comment_id));
    assert(seeds_view(r@) =~= comment_seeds(post_author@, post_id, comment_id));
    r
}

/// The canonical address and bump for these seeds under the program, or
/// `None` where no bump gives an address off the curve.
pub fn find_address(seeds: &Vec<Vec<u8>>, program_id: &Pubkey) -> (r: Option<(Pubkey, u8)>)
    ensures
        match r {
            Some((a, b)) => found_program_address(seeds_view(seeds@), program_id@) == Some((a@, b)),
            None => found_program_address(seeds_view(seeds@), program_id@) is None,
        },
{
    try_find_program_address(seeds, program_id)
}

/// Whether `address` and `bump` are the canonical address and bump of the
/// seeds under the program.
pub fn check_address(seeds: &Vec<Vec<u8>>, program_id: &Pubkey, address: &Pubkey, bump: u8) -> (r: bool)
    ensures
        r == (found_program_address(seeds_view(seeds@), program_id@) == Some((address@, bump))),
{
    match find_address(seeds, program_id) {
        Some((a, b)) => {
            proof { crate::key::lemma_key_view_injective(a, *address); }
            a == *address && b == bump
        },
        None => false,
    }
}

} // verus!
