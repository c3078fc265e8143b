//! CDN avatar URLs: building the fetch URL for a check and rewriting a
//! submitted URL's size parameter to the maximum supported resolution.

use vstd::prelude::*;

use crate::catalog::clone_bytes;

verus! {

/// `needle` occurs in `hay` at position `i`.
pub open spec fn matches_at(hay: Seq<u8>, needle: Seq<u8>, i: int) -> bool {
    0 <= i && i + needle.len() <= hay.len() && hay.subrange(i, i + needle.len()) == needle
}

/// `needle` occurs somewhere in `hay`.
pub open spec fn contains_seq(hay: Seq<u8>, needle: Seq<u8>) -> bool {
    exists|i: int| matches_at(hay, needle, i)
}

/// `i` is the first occurrence of `needle` in `hay`.
pub open spec fn first_match_at(hay: Seq<u8>, needle: Seq<u8>, i: int) -> bool {
    matches_at(hay, needle, i) && forall|j: int| 0 <= j < i ==> !matches_at(hay, needle, j)
}

/// Position of the first occurrence of `needle` in `hay`.
pub open spec fn first_match(hay: Seq<u8>, needle: Seq<u8>) -> int {
    choose|i: int| first_match_at(hay, needle, i)
}

/// Wherever `needle` occurs, a first occurrence exists.
pub proof fn lemma_exists_first(hay: Seq<u8>, needle: Seq<u8>, i: int)
    requires
        matches_at(hay, needle, i),
    ensures
        exists|k: int| first_match_at(hay, needle, k),
    decreases i,
{
    if forall|j: int| 0 <= j < i ==> !matches_at(hay, needle, j) {
        assert(first_match_at(hay, needle, i));
    } else {
        let j = choose|j: int| 0 <= j < i && matches_at(hay, needle, j);
        lemma_exists_first(hay, needle, j);
    }
}

/// Finds the first occurrence of `needle` in `hay`.
pub fn find_subslice(hay: &Vec<u8>, needle: &Vec<u8>) -> (r: Option<usize>)
    ensures
        r matches Some(i) ==> first_match_at(hay@, needle@, i as int),
        (r is Some) <==> contains_seq(hay@, needle@),
{
    let nh = hay.len();
    let nn = needle.len();
    if nn == 0 {
        proof {
            assert(hay@.subrange(0, 0) =~= needle@);
            assert(matches_at(hay@, needle@, 0));
        }
        return Some(0);
    }
    if nn > nh {
        return None;
    }
    let mut i: usize = 0;
    while i <= nh - nn
        invariant
            nh == hay@.len(),
            nn == needle@.len(),
            0 < nn <= nh,
            0 <= i <= nh - nn + 1,
            forall|k: int| 0 <= k < i ==> !matches_at(hay@, needle@, k),
        decreases nh - nn + 1 - i,
    {
        let mut j: usize = 0;
        let mut ok: bool = true;
        while j < nn
            invariant
                nh == hay@.len(),
                nn == needle@.len(),
                0 < nn <= nh,
                0 <= i <= nh - nn,
                0 <= j <= nn,
                ok ==> forall|t: int| 0 <= t < j ==> hay@[i + t] == needle@[t],
                !ok ==> !matches_at(hay@, needle@, i as int),
            decreases nn - j,
        {
            if hay[i + j] != needle[j] {
                proof {
                    if matches_at(hay@, needle@, i as int) {
                        assert(hay@.subrange(i as int, i + nn)[j as int] == needle@[j as int]);
                    }
                }
                ok = false;
                j = nn;
            } else {
                j = j + 1;
            }
        }
        if ok {
            proof {
                assert(hay@.subrange(i as int, i + nn) =~= needle@);
            }
            return Some(i);
        }
        i = i + 1;
    }
    proof {
        assert forall|k: int| !matches_at(hay@, needle@, k) by {
            if 0 <= k && k + nn <= nh {
                assert(!matches_at(hay@, needle@, k));
            }
        }
    }
    None
}

/// The marker that identifies a known CDN URL.
pub open spec fn cdn_marker() -> Seq<u8> {
    seq![100u8, 105, 115, 99, 111, 114, 100]
}

/// The size query parameter marker.
pub open spec fn size_marker() -> Seq<u8> {
    seq![63u8, 115, 105, 122, 101, 61]
}

/// The size parameter requesting the maximum supported resolution.
pub open spec fn max_size_param() -> Seq<u8> {
    seq![63u8, 115, 105, 122, 101, 61, 49, 48, 50, 52]
}

fn cdn_marker_vec() -> (v: Vec<u8>)
    ensures
        v@ == cdn_marker(),
{
    let v: Vec<u8> = vec![100u8, 105, 115, 99, 111, 114, 100];
    proof {
        assert(v@ =~= cdn_marker());
    }
    v
}

fn size_marker_vec() -> (v: Vec<u8>)
    ensures
        v@ == size_marker(),
{
    let v: Vec<u8> = vec![63u8, 115, 105, 122, 101, 61];
    proof {
        assert(v@ =~= size_marker());
    }
    v
}

fn max_size_param_vec() -> (v: Vec<u8>)
    ensures
        v@ == max_size_param(),
{
    let v: Vec<u8> = vec![63u8, 115, 105, 122, 101, 61, 49, 48, 50, 52];
    proof {
        assert(v@ =~= max_size_param());
    }
    v
}

/// Appends `src` to `out`.
pub fn append_bytes(out: &mut Vec<u8>, src: &Vec<u8>)
    ensures
        final(out)@ == old(out)@ + src@,
{
    let mut i: usize = 0;
    while i < src.len()
        invariant
            0 <= i <= src@.len(),
            out@ =~= old(out)@ + src@.take(i as int),
        decreases src@.len() - i,
    {
        out.push(src[i]);
        i = i + 1;
    }
    proof {
        assert(old(out)@ + src@.take(src@.len() as int) =~= old(out)@ + src@);
    }
}

/// Copies the first `n` bytes of `v`.
pub fn take_bytes(v: &Vec<u8>, n: usize) -> (r: Vec<u8>)
    requires
        n <= v@.len(),
    ensures
        r@ == v@.take(n as int),
{
    let mut r: Vec<u8> = Vec::new();
    let mut i: usize = 0;
    while i < n
        invariant
            0 <= i <= n <= v@.len(),
            r@ =~= v@.take(i as int),
        decreases n - i,
    {
        r.push(v[i]);
        i = i + 1;
    }
    r
}

/// What the rewriting policy yields: a URL on a known CDN with an explicit
/// size parameter is cut at the first size parameter and given the maximum
/// supported one; every other URL is kept as it is.
pub open spec fn rewritten_url(u: Seq<u8>) -> Seq<u8> {
    if contains_seq(u, cdn_marker()) && contains_seq(u, size_marker()) {
        u.take(first_match(u, size_marker())) + max_size_param()
    } else {
        u
    }
}

/// Rewrites a submitted URL per the policy above; fetching the largest
/// resolution gives the hash the most content to work with.
pub fn rewrite_cdn_url(url: &Vec<u8>) -> (r: Vec<u8>)
    ensures
        r@ == rewritten_url(url@),
{
    let marker = cdn_marker_vec();
    let on_cdn = find_subslice(url, &marker);
    if on_cdn.is_none() {
        return clone_bytes(url);
    }
    let size = size_marker_vec();
    match find_subslice(url, &size) {
        None => clone_bytes(url),
        Some(i) => {
            let mut r = take_bytes(url, i);
            let tail = max_size_param_vec();
            append_bytes(&mut r, &tail);
            proof {
                let c = first_match(url@, size_marker());
                assert(first_match_at(url@, size_marker(), i as int));
                assert(first_match_at(url@, size_marker(), c));
                if c < i {
                    assert(matches_at(url@, size_marker(), c));
                    assert(false);
                }
                if i < c {
                    assert(matches_at(url@, size_marker(), i as int));
                    assert(false);
                }
                assert(c == i);
            }
            r
        },
    }
}

/// A URL the policy rewrites ends with the maximum size parameter.
pub proof fn lemma_rewrite_ends_with_max_size(u: Seq<u8>)
    requires
        contains_seq(u, cdn_marker()),
        contains_seq(u, size_marker()),
    ensures
        rewritten_url(u).len() >= max_size_param().len(),
        rewritten_url(u).subrange(
            rewritten_url(u).len() - max_size_param().len(),
            rewritten_url(u).len() as int,
        ) == max_size_param(),
{
    let w = choose|i: int| matches_at(u, size_marker(), i);
    lemma_exists_first(u, size_marker(), w);
    let c = first_match(u, size_marker());
    assert(first_match_at(u, size_marker(), c));
    let r = rewritten_url(u);
    assert(r =~= u.take(c) + max_size_param());
    assert(r.subrange(r.len() - max_size_param().len(), r.len() as int) =~= max_size_param());
}

/// Decimal digits of `n`, most significant first.
pub open spec fn dec_digits(n: nat) -> Seq<u8>
    decreases n,
{
    if n < 10 {
        seq![(48 + n) as u8]
    } else {
        dec_digits(n / 10) + seq![(48 + n % 10) as u8]
    }
}

/// Appends the decimal rendering of `n` to `out`.
fn push_decimal(out: &mut Vec<u8>, n: u64)
    ensures
        final(out)@ == old(out)@ + dec_digits(n as nat),
    decreases n,
{
    if n < 10 {
        out.push(48 + (n as u8));
        proof {
            assert(out@ =~= old(out)@ + dec_digits(n as nat));
        }
    } else {
        push_decimal(out, n / 10);
        out.push(48 + ((n % 10) as u8));
        proof {
            assert(out@ =~= old(out)@ + dec_digits(n as nat));
        }
    }
}

/// Leading part of an avatar fetch URL.
pub open spec fn avatar_prefix() -> Seq<u8> {
    seq![
        104, 116, 116, 112, 115, 58, 47, 47, 99, 100, 110, 46, 100, 105,
        115, 99, 111, 114, 100, 97, 112, 112, 46, 99, 111, 109, 47, 97,
        118, 97, 116, 97, 114, 115, 47,
    ]
}

/// Trailing part of an avatar fetch URL, with the resolution checks use.
pub open spec fn avatar_suffix() -> Seq<u8> {
    seq![46u8, 112, 110, 103, 63, 115, 105, 122, 101, 61, 50, 53, 54]
}

fn avatar_prefix_vec() -> (v: Vec<u8>)
    ensures
        v@ == avatar_prefix(),
{
    let v: Vec<u8> = vec![
        104, 116, 116, 112, 115, 58, 47, 47, 99, 100, 110, 46, 100, 105,
        115, 99, 111, 114, 100, 97, 112, 112, 46, 99, 111, 109, 47, 97,
        118, 97, 116, 97, 114, 115, 47,
    ];
    proof {
        assert(v@ =~= avatar_prefix());
    }
    v
}

fn avatar_suffix_vec() -> (v: Vec<u8>)
    ensures
        v@ == avatar_suffix(),
{
    let v: Vec<u8> = vec![46u8, 112, 110, 103, 63, 115, 105, 122, 101, 61, 50, 53, 54];
    proof {
        assert(v@ =~= avatar_suffix());
    }
    v
}

/// The avatar fetch URL for a user id and avatar hash:
/// `<cdn>/avatars/{id}/{hash}.png?size=256`.
pub open spec fn avatar_url_spec(id: nat, hash: Seq<u8>) -> Seq<u8> {
    avatar_prefix() + dec_digits(id) + seq![47u8] + hash + avatar_suffix()
}

/// Builds the avatar fetch URL for a user id and avatar hash.
pub fn avatar_url(id: u64, hash: &Vec<u8>) -> (r: Vec<u8>)
    ensures
        r@ == avatar_url_spec(id as nat, hash@),
{
    let mut r = avatar_prefix_vec();
    push_decimal(&mut r, id);
    r.push(47u8);
    append_bytes(&mut r, hash);
    let suffix = avatar_suffix_vec();
    append_bytes(&mut r, &suffix);
    proof {
        assert(r@ =~= avatar_url_spec(id as nat, hash@));
    }
    r
}

} // verus!
