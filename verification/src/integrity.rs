//! File-integrity helpers: SHA-256 digests rendered as lowercase hex, and
//! comparison of a rendered digest against a recorded baseline.
//!
//! The embedding application reads file contents and baseline files; this
//! module computes over the bytes it is handed.
use vstd::prelude::*;
use sha2::Digest;

verus! {

/// The SHA-256 digest of a byte sequence, as sha2 computes it.
pub uninterp spec fn sha256_of(data: Seq<u8>) -> Seq<u8>;

/// Relies on sha2::Sha256::digest: the SHA-256 digest of the input, a
/// function of the input bytes alone, 32 bytes long.
#[verifier::external_body]
fn sha256_digest(data: &Vec<u8>) -> (r: Vec<u8>)
    ensures
        r@ == sha256_of(data@),
        r@.len() == 32,
{
    sha2::Sha256::digest(data.as_slice()).to_vec()
}

/// The ASCII code of one hex digit (lowercase letters).
pub open spec fn hex_digit_byte(n: u8) -> u8 {
    if n < 10 {
        (48 + n) as u8
    } else {
        (87 + n) as u8
    }
}

/// Lowercase hex rendering: two digits per byte, high nibble first.
pub open spec fn spec_hex(bytes: Seq<u8>) -> Seq<u8> {
    Seq::new(
        2 * bytes.len(),
        |i: int|
            if i % 2 == 0 {
                hex_digit_byte(bytes[i / 2] >> 4)
            } else {
                hex_digit_byte(bytes[i / 2] & 15)
            },
    )
}

/// Relies on hex::encode: the lowercase hex rendering of the input, two
/// digits per byte, high nibble first.
#[verifier::external_body]
fn to_hex(bytes: &Vec<u8>) -> (r: Vec<u8>)
    ensures
        r@ == spec_hex(bytes@),
{
    hex::encode(bytes.as_slice()).into_bytes()
}

/// The SHA-256 digest of `data`, rendered as 64 lowercase hex digits
/// (ASCII bytes).
pub fn sha256_hex(data: &Vec<u8>) -> (r: Vec<u8>)
    ensures
        r@ == spec_hex(sha256_of(data@)),
        r@.len() == 64,
{
    let digest = sha256_digest(data);
    to_hex(&digest)
}

/// ASCII whitespace, as baseline files may carry around the recorded hash:
/// tab, line feed, vertical tab, form feed, carriage return, space.
pub open spec fn is_ascii_whitespace(b: u8) -> bool {
    b == 9 || b == 10 || b == 11 || b == 12 || b == 13 || b == 32
}

/// `s` without its leading whitespace.
pub open spec fn spec_trim_front(s: Seq<u8>) -> Seq<u8>
    decreases s.len(),
{
    if s.len() > 0 && is_ascii_whitespace(s[0]) {
        spec_trim_front(s.skip(1))
    } else {
        s
    }
}

/// `s` without its trailing whitespace.
pub open spec fn spec_trim_back(s: Seq<u8>) -> Seq<u8>
    decreases s.len(),
{
    if s.len() > 0 && is_ascii_whitespace(s.last()) {
        spec_trim_back(s.drop_last())
    } else {
        s
    }
}

/// `s` without leading and trailing whitespace.
pub open spec fn spec_trim(s: Seq<u8>) -> Seq<u8> {
    spec_trim_back(spec_trim_front(s))
}

/// A copy of `s` without leading and trailing ASCII whitespace.
pub fn trim_ascii(s: &Vec<u8>) -> (r: Vec<u8>)
    ensures
        r@ == spec_trim(s@),
{
    let mut lo: usize = 0;
    let mut hi: usize = s.len();
    proof {
        assert(s@.skip(0) =~= s@);
    }
    while lo < hi && is_whitespace_byte(s[lo])
        invariant
            0 <= lo <= hi <= s@.len(),
            hi == s@.len(),
            spec_trim_front(s@.skip(lo as int)) == spec_trim_front(s@),
        decreases hi - lo,
    {
        proof {
            assert(s@.skip(lo as int).skip(1) =~= s@.skip(lo as int + 1));
        }
        lo = lo + 1;
    }
    proof {
        assert(spec_trim_front(s@.skip(lo as int)) == s@.skip(lo as int));
        assert(s@.subrange(lo as int, hi as int) =~= s@.skip(lo as int));
    }
    while lo < hi && is_whitespace_byte(s[hi - 1])
        invariant
            0 <= lo <= hi <= s@.len(),
            spec_trim_back(s@.subrange(lo as int, hi as int)) == spec_trim(s@),
        decreases hi - lo,
    {
        proof {
            assert(s@.subrange(lo as int, hi as int).drop_last() =~= s@.subrange(
                lo as int,
                hi as int - 1,
            ));
        }
        hi = hi - 1;
    }
    proof {
        assert(spec_trim_back(s@.subrange(lo as int, hi as int)) == s@.subrange(
            lo as int,
            hi as int,
        ));
    }
    let mut out: Vec<u8> = Vec::new();
    let mut i: usize = lo;
    while i < hi
        invariant
            lo <= i <= hi <= s@.len(),
            out@ == s@.subrange(lo as int, i as int),
        decreases hi - i,
    {
        out.push(s[i]);
        proof {
            assert(out@ =~= s@.subrange(lo as int, i as int + 1));
        }
        i = i + 1;
    }
    proof {
        assert(out@ == spec_trim(s@));
    }
    out
}

fn is_whitespace_byte(b: u8) -> (r: bool)
    ensures
        r == is_ascii_whitespace(b),
{
    b == 9 || b == 10 || b == 11 || b == 12 || b == 13 || b == 32
}

/// Whether two byte strings hold the same bytes.
pub fn bytes_equal(a: &Vec<u8>, b: &Vec<u8>) -> (r: bool)
    ensures
        r == (a@ == b@),
{
    if a.len() != b.len() {
        return false;
    }
    let mut i: usize = 0;
    while i < a.len()
        invariant
            a@.len() == b@.len(),
            0 <= i <= a@.len(),
            forall|j: int| 0 <= j < i ==> a@[j] == b@[j],
        decreases a@.len() - i,
    {
        if a[i] != b[i] {
            return false;
        }
        i = i + 1;
    }
    proof {
        assert(a@ =~= b@);
    }
    true
}

/// Whether a rendered digest matches the hash a baseline file records: the
/// baseline's content, with surrounding whitespace trimmed, must equal the
/// digest byte for byte.
pub fn compare_with_baseline(current_hash: &Vec<u8>, baseline_content: &Vec<u8>) -> (r: bool)
    ensures
        r == (current_hash@ == spec_trim(baseline_content@)),
{
    let trimmed = trim_ascii(baseline_content);
    bytes_equal(current_hash, &trimmed)
}

} // verus!
