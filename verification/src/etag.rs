//! The content fingerprint of a file, in the multipart-aware format used
//! by S3-compatible object stores.
//!
//! For content of `S` bytes and a part-size threshold of `T` bytes:
//! when `S <= T` the fingerprint is the hexadecimal MD5 digest of the
//! whole content (an empty content digests the empty byte string,
//! whatever `T` is); when `S > T` the content is cut into
//! `N = ceil(S / T)` contiguous parts, every part `T` bytes long except
//! the last, the raw digests of the parts are concatenated in ascending
//! part order, and the fingerprint is the hexadecimal digest of that
//! concatenation followed by `-N`.

use vstd::prelude::*;
use vstd::arithmetic::div_mod::{
    lemma_div_multiples_vanish_fancy, lemma_fundamental_div_mod, lemma_mod_bound,
};
use vstd::arithmetic::mul::{lemma_mul_basics, lemma_mul_inequality, lemma_mul_is_commutative};
use vstd::slice::slice_subrange;
use crate::digest::{md5_digest, md5_of};
use crate::error::PrefixloadError;
use crate::textfmt::{append_decimal, dec_of, hex_of_bytes, hex_string};

verus! {

/// The number of parts a content of `size` bytes is cut into under a
/// threshold of `part_size` bytes: `ceil(size / part_size)`.
pub open spec fn spec_num_parts(size: nat, part_size: nat) -> nat
    recommends
        part_size > 0,
{
    ((size + part_size - 1) as int / part_size as int) as nat
}

/// Where part `i` ends: one threshold past its start, or at the end of
/// the content for the final part.
pub open spec fn spec_part_end(size: nat, part_size: nat, i: nat) -> nat {
    if (i + 1) * part_size <= size {
        (i + 1) * part_size
    } else {
        size
    }
}

/// The raw digest of part `i` of the content.
pub open spec fn spec_part_digest(content: Seq<u8>, part_size: nat, i: nat) -> Seq<u8> {
    md5_of(
        content.subrange(
            (i * part_size) as int,
            spec_part_end(content.len(), part_size, i) as int,
        ),
    )
}

/// The raw digests of the first `k` parts, concatenated in ascending
/// part order.
pub open spec fn spec_digests_prefix(content: Seq<u8>, part_size: nat, k: nat) -> Seq<u8>
    decreases k,
{
    if k == 0 {
        Seq::empty()
    } else {
        spec_digests_prefix(content, part_size, (k - 1) as nat) + spec_part_digest(
            content,
            part_size,
            (k - 1) as nat,
        )
    }
}

/// The fingerprint of `content` under the threshold `part_size`: the
/// hexadecimal digest of the whole content when it does not exceed the
/// threshold, and otherwise the hexadecimal digest of the concatenated
/// part digests followed by `-` and the part count in decimal.
pub open spec fn spec_fingerprint(content: Seq<u8>, part_size: nat) -> Seq<char>
    recommends
        content.len() == 0 || part_size > 0,
{
    if content.len() <= part_size {
        hex_of_bytes(md5_of(content))
    } else {
        let n = spec_num_parts(content.len(), part_size);
        hex_of_bytes(md5_of(spec_digests_prefix(content, part_size, n))) + seq!['-'] + dec_of(n)
    }
}

/// The concatenation of a sequence of byte strings, in order.
pub open spec fn concat_digests(ds: Seq<Seq<u8>>) -> Seq<u8>
    decreases ds.len(),
{
    if ds.len() == 0 {
        Seq::empty()
    } else {
        concat_digests(ds.drop_last()) + ds.last()
    }
}

/// How the part count relates to the content size: there is at least one
/// part, the parts cover the content with none empty, a content within
/// the threshold makes exactly one part, and one over it makes at least
/// two.
pub proof fn lemma_num_parts(s: int, p: int)
    requires
        0 < p,
        0 < s,
    ensures
        ({
            let n = spec_num_parts(s as nat, p as nat) as int;
            &&& 1 <= n <= s
            &&& (n - 1) * p < s
            &&& s <= n * p
            &&& (s % p == 0 ==> n == s / p)
            &&& (s % p != 0 ==> n == s / p + 1)
            &&& (s <= p ==> n == 1)
            &&& (p < s ==> 2 <= n)
        }),
{
    let n = spec_num_parts(s as nat, p as nat) as int;
    let q = s / p;
    let r = s % p;
    lemma_fundamental_div_mod(s, p);
    lemma_mod_bound(s, p);
    lemma_mul_basics(p);
    if r == 0 {
        assert(s + p - 1 == p * q + (p - 1));
        lemma_div_multiples_vanish_fancy(q, p - 1, p);
        assert(n == q);
        assert(p * q == s);
        if q < 1 {
            assert(p * q <= p * 0) by {
                lemma_mul_inequality(q, 0, p);
                lemma_mul_is_commutative(q, p);
                lemma_mul_is_commutative(0, p);
            }
            assert(false);
        }
        assert(n * p == s) by {
            lemma_mul_is_commutative(n, p);
        }
        assert((n - 1) * p == n * p - p) by {
            lemma_mul_basics(n - 1);
            lemma_mul_is_commutative(n - 1, p);
            lemma_mul_is_commutative(n, p);
            assert(p * (n - 1) == p * n - p) by {
                vstd::arithmetic::mul::lemma_mul_is_distributive_sub(p, n, 1);
            }
        }
    } else {
        assert(p * (q + 1) == p * q + p) by {
            vstd::arithmetic::mul::lemma_mul_is_distributive_add(p, q, 1);
        }
        assert(s + p - 1 == p * (q + 1) + (r - 1));
        lemma_div_multiples_vanish_fancy(q + 1, r - 1, p);
        assert(n == q + 1);
        if q < 0 {
            assert(p * q <= p * 0) by {
                lemma_mul_inequality(q, 0, p);
                lemma_mul_is_commutative(q, p);
                lemma_mul_is_commutative(0, p);
            }
            assert(false);
        }
        assert(n * p == p * q + p) by {
            lemma_mul_is_commutative(n, p);
            vstd::arithmetic::mul::lemma_mul_is_distributive_add(p, q, 1);
        }
        assert((n - 1) * p == p * q) by {
            lemma_mul_is_commutative(n - 1, p);
        }
    }
    // n <= s: from (n - 1) * p < s and 1 <= p.
    assert(n - 1 <= (n - 1) * p) by {
        lemma_mul_inequality(1, p, n - 1);
        lemma_mul_is_commutative(p, n - 1);
        lemma_mul_basics(n - 1);
    }
    if s <= p && n >= 2 {
        assert(p <= (n - 1) * p) by {
            lemma_mul_inequality(1, n - 1, p);
            lemma_mul_basics(p);
        }
        assert(false);
    }
    if p < s && n == 1 {
        assert(n * p == p) by {
            lemma_mul_basics(p);
        }
        assert(false);
    }
}

/// Every part starts inside the content, ends past its start, ends by
/// the end of the content, and is at most one threshold long; every part
/// but the last is exactly one threshold long, and the last ends at the
/// end of the content.
pub proof fn lemma_part_in_range(s: int, p: int, i: int)
    requires
        0 < p,
        0 < s,
        0 <= i < spec_num_parts(s as nat, p as nat),
    ensures
        ({
            let e = spec_part_end(s as nat, p as nat, i as nat) as int;
            let n = spec_num_parts(s as nat, p as nat) as int;
            &&& (i + 1) * p == i * p + p
            &&& i * p < s
            &&& i * p < e <= s
            &&& e - i * p <= p
            &&& (i < n - 1 ==> e == i * p + p)
            &&& (i == n - 1 ==> e == s)
        }),
{
    let e = spec_part_end(s as nat, p as nat, i as nat) as int;
    let n = spec_num_parts(s as nat, p as nat) as int;
    lemma_num_parts(s, p);
    assert((i + 1) * p == i * p + p) by {
        vstd::arithmetic::mul::lemma_mul_is_distributive_add_other_way(p, i, 1);
        lemma_mul_basics(p);
    }
    assert(i * p <= (n - 1) * p) by {
        lemma_mul_inequality(i, n - 1, p);
    }
    assert(i * p < s);
    if i < n - 1 {
        assert((i + 1) * p <= (n - 1) * p) by {
            lemma_mul_inequality(i + 1, n - 1, p);
        }
        assert((i + 1) * p < s);
        assert(e == i * p + p);
    }
    if i == n - 1 {
        assert(s <= n * p);
        assert(e == s);
    }
}

/// One part of a file, by byte range: parts are read independently, with
/// positioned reads, and may be digested in any order.
#[derive(Debug, Clone, Copy, PartialEq, Eq, Structural)]
pub struct PartRange {
    pub offset: u64,
    pub len: u64,
}

/// The byte ranges of the parts of a file of `file_size` bytes under the
/// threshold `part_size`: contiguous from offset zero, every part
/// exactly `part_size` bytes except the last, which ends at the end of
/// the file and is never empty. Fails exactly when the file is non-empty
/// and the threshold is zero.
pub fn plan_parts(file_size: u64, part_size: u64) -> (r: Result<Vec<PartRange>, PrefixloadError>)
    ensures
        r is Ok <==> (file_size == 0 || part_size > 0),
        r matches Ok(v) ==> {
            &&& (file_size == 0 ==> v@.len() == 0)
            &&& (file_size > 0 ==> v@.len() == spec_num_parts(file_size as nat, part_size as nat))
            &&& forall|i: int|
                0 <= i < v@.len() ==> (#[trigger] v@[i]).offset == i * part_size
                    && v@[i].offset + v@[i].len == spec_part_end(
                    file_size as nat,
                    part_size as nat,
                    i as nat,
                )
        },
        r matches Err(e) ==> e is Config,
{
    if file_size == 0 {
        return Ok(Vec::new());
    }
    if part_size == 0 {
        return Err(
            PrefixloadError::Config(
                String::from_str("part size must be greater than zero"),
            ),
        );
    }
    proof {
        lemma_num_parts(file_size as int, part_size as int);
    }
    let ghost n_spec = spec_num_parts(file_size as nat, part_size as nat);
    let q = file_size / part_size;
    let rem = file_size % part_size;
    let n: u64 = if rem == 0 {
        q
    } else {
        q + 1
    };
    assert(n == n_spec);
    let mut parts: Vec<PartRange> = Vec::new();
    let mut i: u64 = 0;
    while i < n
        invariant
            0 < part_size,
            0 < file_size,
            n == n_spec,
            n_spec == spec_num_parts(file_size as nat, part_size as nat),
            i <= n,
            parts@.len() == i,
            forall|k: int|
                0 <= k < i ==> (#[trigger] parts@[k]).offset == k * part_size
                    && parts@[k].offset + parts@[k].len == spec_part_end(
                    file_size as nat,
                    part_size as nat,
                    k as nat,
                ),
        decreases n - i,
    {
        proof {
            lemma_part_in_range(file_size as int, part_size as int, i as int);
        }
        let offset = i * part_size;
        let len = if file_size - offset <= part_size {
            file_size - offset
        } else {
            part_size
        };
        parts.push(PartRange { offset, len });
        i = i + 1;
    }
    Ok(parts)
}

/// The fingerprint of empty content is the hexadecimal digest of the
/// empty byte string, whatever the threshold — even a zero one.
pub proof fn lemma_fingerprint_empty(t1: nat, t2: nat)
    ensures
        spec_fingerprint(Seq::<u8>::empty(), t1) == hex_of_bytes(md5_of(Seq::<u8>::empty())),
        spec_fingerprint(Seq::<u8>::empty(), t1) == spec_fingerprint(Seq::<u8>::empty(), t2),
{
}

/// The threshold boundary: content of exactly the threshold's size takes
/// the whole-content path, while content one byte over it is cut into
/// two parts — the threshold's worth of bytes and a final part of one
/// byte — and takes the multipart path.
pub proof fn lemma_threshold_boundary(content: Seq<u8>, part_size: nat)
    requires
        part_size >= 1,
    ensures
        content.len() == part_size ==> spec_fingerprint(content, part_size) == hex_of_bytes(
            md5_of(content),
        ),
        content.len() == part_size + 1 ==> spec_num_parts(content.len(), part_size) == 2
            && spec_fingerprint(content, part_size) == hex_of_bytes(
            md5_of(
                md5_of(content.subrange(0, part_size as int)) + md5_of(
                    content.subrange(part_size as int, content.len() as int),
                ),
            ),
        ) + seq!['-'] + dec_of(2),
{
    if content.len() == part_size + 1 {
        let s = content.len() as int;
        let p = part_size as int;
        lemma_num_parts(s, p);
        let n = spec_num_parts(content.len(), part_size) as int;
        assert(n == 2) by {
            if p == 1 {
                assert(s % p == 0) by {
                    lemma_fundamental_div_mod(s, 1);
                    lemma_mod_bound(s, 1);
                }
                assert(s / 1 == s) by {
                    lemma_mul_basics(s);
                    lemma_div_multiples_vanish_fancy(s, 0, 1);
                }
            } else {
                assert(p * 1 + 1 == s) by {
                    lemma_mul_basics(p);
                }
                lemma_div_multiples_vanish_fancy(1, 1, p);
                assert(s / p == 1);
                assert(s % p == 1) by {
                    lemma_fundamental_div_mod(s, p);
                }
            }
        }
        lemma_part_in_range(s, p, 0);
        lemma_part_in_range(s, p, 1);
        let d0 = spec_part_digest(content, part_size, 0);
        let d1 = spec_part_digest(content, part_size, 1);
        assert(spec_part_end(content.len(), part_size, 0) == p);
        assert(spec_part_end(content.len(), part_size, 1) == s);
        assert(d0 == md5_of(content.subrange(0, p)));
        assert(d1 == md5_of(content.subrange(p, s)));
        assert(spec_digests_prefix(content, part_size, 2) =~= d0 + d1) by {
            assert(spec_digests_prefix(content, part_size, 0) == Seq::<u8>::empty());
            assert(spec_digests_prefix(content, part_size, 1) == Seq::<u8>::empty() + d0);
            assert(Seq::<u8>::empty() + d0 =~= d0);
        }
    }
}

/// The rendered multipart fingerprint, from the raw digests of the parts
/// in ascending part order: the hexadecimal digest of their
/// concatenation, `-`, and the part count in decimal.
pub fn multipart_fingerprint(part_digests: &Vec<Vec<u8>>) -> (r: String)
    ensures
        r@ == hex_of_bytes(md5_of(concat_digests(part_digests@.map_values(|d: Vec<u8>| d@))))
            + seq!['-'] + dec_of(part_digests@.len()),
{
    let ghost views = part_digests@.map_values(|d: Vec<u8>| d@);
    let n = part_digests.len();
    let mut all: Vec<u8> = Vec::new();
    let mut i: usize = 0;
    while i < n
        invariant
            n == part_digests@.len(),
            i <= n,
            views == part_digests@.map_values(|d: Vec<u8>| d@),
            all@ == concat_digests(views.take(i as int)),
        decreases n - i,
    {
        all.extend_from_slice(part_digests[i].as_slice());
        proof {
            let pre = views.take(i as int);
            let post = views.take(i + 1);
            assert(post.drop_last() =~= pre);
            assert(post.last() == views[i as int]);
            assert(all@ =~= concat_digests(post));
        }
        i = i + 1;
    }
    proof {
        assert(views.take(n as int) =~= views);
    }
    let final_digest = md5_digest(all.as_slice());
    let mut out = hex_string(&final_digest);
    let dash: &str = "-";
    proof {
        reveal_strlit("-");
        assert(dash@ =~= seq!['-']);
    }
    out.append(dash);
    append_decimal(&mut out, n as u64);
    proof {
        assert(out@ =~= hex_of_bytes(md5_of(concat_digests(views))) + seq!['-'] + dec_of(
            part_digests@.len(),
        ));
    }
    out
}

/// The fingerprint of in-memory content under the threshold
/// `part_size`. Fails exactly when the content is non-empty and the
/// threshold is zero, which is an invalid configuration.
pub fn fingerprint_bytes(content: &Vec<u8>, part_size: u64) -> (r: Result<
    String,
    PrefixloadError,
>)
    ensures
        r is Ok <==> (content@.len() == 0 || part_size > 0),
        r matches Ok(s) ==> s@ == spec_fingerprint(content@, part_size as nat),
        r matches Err(e) ==> e is Config,
{
    let len = content.len();
    if len as u64 <= part_size {
        // Covers the empty content for every threshold, zero included.
        let d = md5_digest(content.as_slice());
        Ok(hex_string(&d))
    } else if part_size == 0 {
        Err(
            PrefixloadError::Config(
                String::from_str("part size must be greater than zero"),
            ),
        )
    } else {
        let ghost s = len as int;
        let ghost p = part_size as int;
        let ghost n_spec = spec_num_parts(len as nat, part_size as nat);
        proof {
            lemma_num_parts(s, p);
        }
        let q = len as u64 / part_size;
        let rem = len as u64 % part_size;
        let n: u64 = if rem == 0 {
            q
        } else {
            q + 1
        };
        assert(n == n_spec);
        let mut digests: Vec<Vec<u8>> = Vec::new();
        let mut i: u64 = 0;
        while i < n
            invariant
                0 < part_size,
                part_size < len,
                len == content@.len(),
                n == n_spec,
                n_spec == spec_num_parts(len as nat, part_size as nat),
                i <= n,
                digests@.len() == i,
                forall|k: int|
                    0 <= k < i ==> #[trigger] digests@[k]@ == spec_part_digest(
                        content@,
                        part_size as nat,
                        k as nat,
                    ),
            decreases n - i,
        {
            proof {
                lemma_part_in_range(len as int, part_size as int, i as int);
            }
            let start = i * part_size;
            let end = if (len as u64) - start <= part_size {
                len as u64
            } else {
                start + part_size
            };
            assert(end == spec_part_end(len as nat, part_size as nat, i as nat));
            let part = slice_subrange(content.as_slice(), start as usize, end as usize);
            let d = md5_digest(part);
            digests.push(d);
            i = i + 1;
        }
        proof {
            let views = digests@.map_values(|d: Vec<u8>| d@);
            lemma_digest_views(content@, part_size as nat, views, n as nat);
        }
        Ok(multipart_fingerprint(&digests))
    }
}

/// Parallelism cannot change the fingerprint: whatever order the parts
/// were digested in, any collection that holds the right digest of each
/// part in ascending part order renders — through
/// [`multipart_fingerprint`] — exactly the specified fingerprint of the
/// content, which is a function of the content and the threshold alone.
pub proof fn lemma_part_digests_determine_fingerprint(
    content: Seq<u8>,
    part_size: nat,
    views: Seq<Seq<u8>>,
)
    requires
        0 < part_size < content.len(),
        views.len() == spec_num_parts(content.len(), part_size),
        forall|j: int| 0 <= j < views.len() ==> #[trigger] views[j] == spec_part_digest(
            content,
            part_size,
            j as nat,
        ),
    ensures
        hex_of_bytes(md5_of(concat_digests(views))) + seq!['-'] + dec_of(views.len())
            == spec_fingerprint(content, part_size),
{
    lemma_digest_views(content, part_size, views, views.len());
}

/// Digests collected by ascending part index concatenate to the
/// specified prefix of part digests.
proof fn lemma_digest_views(content: Seq<u8>, part_size: nat, views: Seq<Seq<u8>>, k: nat)
    requires
        views.len() == k,
        forall|j: int| 0 <= j < k ==> #[trigger] views[j] == spec_part_digest(
            content,
            part_size,
            j as nat,
        ),
    ensures
        concat_digests(views) == spec_digests_prefix(content, part_size, k),
    decreases k,
{
    if k > 0 {
        lemma_digest_views(content, part_size, views.drop_last(), (k - 1) as nat);
        assert(concat_digests(views) == concat_digests(views.drop_last()) + views.last());
    }
}

} // verus!
