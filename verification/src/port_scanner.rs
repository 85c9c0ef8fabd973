//! Parsing of port-range arguments for the toy TCP port scanner.
//!
//! The scanner's network probes live in the embedding application; this
//! module parses the range argument it scans over: either one port
//! (`"80"`) or an inclusive range (`"1-1024"`), each port one or more
//! ASCII digits with a value of at most 65535.
use vstd::prelude::*;
use vstd::string::StringSliceAdditionalSpecFns;

verus! {

/// Why a port-range argument was rejected: the start or the end of a
/// range (or the single port) did not parse as a port number, or the
/// argument had more than one dash.
#[derive(Debug, Clone, Copy, PartialEq, Eq, Structural)]
pub enum PortRangeError {
    InvalidStart,
    InvalidEnd,
    InvalidPort,
    InvalidFormat,
}

/// An ASCII decimal digit.
pub open spec fn is_digit_byte(b: u8) -> bool {
    48 <= b <= 57
}

/// The number the digit string `s` denotes (most significant first).
pub open spec fn digits_value(s: Seq<u8>) -> int
    decreases s.len(),
{
    if s.len() == 0 {
        0
    } else {
        digits_value(s.drop_last()) * 10 + (s.last() - 48)
    }
}

/// A port number: one or more ASCII digits denoting at most 65535.
pub open spec fn spec_parse_u16(s: Seq<u8>) -> Option<u16> {
    if s.len() > 0 && (forall|i: int| 0 <= i < s.len() ==> is_digit_byte(#[trigger] s[i]))
        && digits_value(s) <= 65535 {
        Some(digits_value(s) as u16)
    } else {
        None
    }
}

/// The position of the first dash in `s`, or `s.len()` if there is none.
pub open spec fn find_dash(s: Seq<u8>) -> int
    decreases s.len(),
{
    if s.len() == 0 {
        0
    } else if s[0] == 45 {
        0
    } else {
        1 + find_dash(s.skip(1))
    }
}

/// What a port-range argument denotes: `"p"` is the range `(p, p)`;
/// `"a-b"` is `(a, b)`; a side that does not parse as a port is reported
/// as such, and more than one dash is a format error.
pub open spec fn spec_parse_port_range(s: Seq<u8>) -> Result<(u16, u16), PortRangeError> {
    let i = find_dash(s);
    if i == s.len() {
        match spec_parse_u16(s) {
            Some(p) => Ok((p, p)),
            None => Err(PortRangeError::InvalidPort),
        }
    } else {
        let head = s.take(i);
        let tail = s.skip(i + 1);
        if find_dash(tail) != tail.len() {
            Err(PortRangeError::InvalidFormat)
        } else {
            match spec_parse_u16(head) {
                None => Err(PortRangeError::InvalidStart),
                Some(a) => match spec_parse_u16(tail) {
                    None => Err(PortRangeError::InvalidEnd),
                    Some(b) => Ok((a, b)),
                },
            }
        }
    }
}

proof fn lemma_find_dash_bounds(s: Seq<u8>)
    ensures
        0 <= find_dash(s) <= s.len(),
        forall|j: int| 0 <= j < find_dash(s) ==> s[j] != 45,
        find_dash(s) < s.len() ==> s[find_dash(s)] == 45,
    decreases s.len(),
{
    if s.len() > 0 && s[0] != 45 {
        lemma_find_dash_bounds(s.skip(1));
        assert forall|j: int| 0 <= j < find_dash(s) implies s[j] != 45 by {
            if j > 0 {
                assert(s.skip(1)[j - 1] == s[j]);
            }
        }
        if find_dash(s) < s.len() {
            assert(s.skip(1)[find_dash(s) - 1] == s[find_dash(s)]);
        }
    }
}

proof fn lemma_find_dash_none(s: Seq<u8>)
    requires
        forall|j: int| 0 <= j < s.len() ==> s[j] != 45,
    ensures
        find_dash(s) == s.len(),
    decreases s.len(),
{
    if s.len() > 0 {
        assert forall|j: int| 0 <= j < s.skip(1).len() implies s.skip(1)[j] != 45 by {
            assert(s.skip(1)[j] == s[j + 1]);
        }
        lemma_find_dash_none(s.skip(1));
    }
}

proof fn lemma_digits_value_nonneg(s: Seq<u8>)
    requires
        forall|i: int| 0 <= i < s.len() ==> is_digit_byte(#[trigger] s[i]),
    ensures
        digits_value(s) >= 0,
    decreases s.len(),
{
    if s.len() > 0 {
        lemma_digits_value_nonneg(s.drop_last());
    }
}

proof fn lemma_digits_value_prefix(s: Seq<u8>, k: int)
    requires
        0 <= k <= s.len(),
        forall|i: int| 0 <= i < s.len() ==> is_digit_byte(#[trigger] s[i]),
    ensures
        digits_value(s.take(k)) <= digits_value(s),
    decreases s.len() - k,
{
    lemma_digits_value_nonneg(s.take(k));
    if k < s.len() {
        assert(s.take(k + 1).drop_last() =~= s.take(k));
        assert(digits_value(s.take(k + 1)) == digits_value(s.take(k)) * 10 + (s[k] - 48));
        lemma_digits_value_prefix(s, k + 1);
    } else {
        assert(s.take(k) =~= s);
    }
}

/// The port number a digit run denotes: the bytes of `s` from `start` to
/// `end` (exclusive), as `spec_parse_u16` reads them.
fn parse_u16_slice(s: &[u8], start: usize, end: usize) -> (r: Option<u16>)
    requires
        0 <= start <= end <= s@.len(),
    ensures
        r == spec_parse_u16(s@.subrange(start as int, end as int)),
{
    let ghost sub = s@.subrange(start as int, end as int);
    if start == end {
        return None;
    }
    let mut value: u32 = 0;
    let mut i: usize = start;
    while i < end
        invariant
            start <= i <= end <= s@.len(),
            sub == s@.subrange(start as int, end as int),
            forall|j: int| 0 <= j < i - start ==> is_digit_byte(#[trigger] sub[j]),
            value == digits_value(sub.take(i - start)),
            value <= 65535,
        decreases end - i,
    {
        let b = s[i];
        proof {
            assert(sub[i - start] == s@[i as int]);
        }
        if b < 48 || b > 57 {
            return None;
        }
        let digit: u32 = (b - 48) as u32;
        let next: u32 = value * 10 + digit;
        proof {
            assert(sub.take(i - start + 1).drop_last() =~= sub.take(i - start));
            assert(digits_value(sub.take(i - start + 1)) == digits_value(sub.take(i - start)) * 10
                + (sub[i - start] - 48));
        }
        if next > 65535 {
            proof {
                if forall|k: int| 0 <= k < sub.len() ==> is_digit_byte(#[trigger] sub[k]) {
                    lemma_digits_value_prefix(sub, i - start + 1);
                }
            }
            return None;
        }
        value = next;
        i = i + 1;
    }
    proof {
        assert(sub.take(end - start) =~= sub);
        lemma_digits_value_nonneg(sub);
    }
    Some(value as u16)
}

/// Parse a scanner range argument: one port, or `start-end`.
pub fn parse_port_range(range: &str) -> (r: Result<(u16, u16), PortRangeError>)
    ensures
        r == spec_parse_port_range(range.spec_bytes()),
{
    let bytes: &[u8] = range.as_bytes();
    let n: usize = bytes.len();
    let ghost b = range.spec_bytes();

    // find the first dash, if any
    let mut i: usize = 0;
    while i < n && bytes[i] != 45
        invariant
            0 <= i <= n == b.len(),
            bytes@ == b,
            forall|j: int| 0 <= j < i ==> b[j] != 45,
        decreases n - i,
    {
        i = i + 1;
    }
    let dash: usize = i;
    proof {
        lemma_find_dash_bounds(b);
        if dash == n {
            lemma_find_dash_none(b);
        } else {
            assert(b[dash as int] == 45);
            assert(find_dash(b) == dash);
        }
    }
    if dash == n {
        proof {
            assert(b.subrange(0, n as int) =~= b);
        }
        match parse_u16_slice(bytes, 0, n) {
            Some(p) => Ok((p, p)),
            None => Err(PortRangeError::InvalidPort),
        }
    } else {
        let ghost tail = b.skip(dash + 1);
        // look for a second dash
        let mut j: usize = dash + 1;
        while j < n && bytes[j] != 45
            invariant
                dash < j <= n == b.len(),
                bytes@ == b,
                forall|k: int| dash < k < j ==> b[k] != 45,
            decreases n - j,
        {
            j = j + 1;
        }
        if j < n {
            proof {
                lemma_find_dash_bounds(tail);
                assert(tail[j - dash - 1] == b[j as int]);
            }
            return Err(PortRangeError::InvalidFormat);
        }
        proof {
            assert forall|k: int| 0 <= k < tail.len() implies tail[k] != 45 by {
                assert(tail[k] == b[k + dash + 1]);
            }
            lemma_find_dash_none(tail);
            assert(b.subrange(0, dash as int) =~= b.take(dash as int));
            assert(b.subrange(dash + 1, n as int) =~= tail);
        }
        match parse_u16_slice(bytes, 0, dash) {
            None => Err(PortRangeError::InvalidStart),
            Some(a) => match parse_u16_slice(bytes, dash + 1, n) {
                None => Err(PortRangeError::InvalidEnd),
                Some(high) => Ok((a, high)),
            },
        }
    }
}

} // verus!
