//! Extracting the distribution's description from the os-release file.
//!
//! The embedding application reads the file; this module finds the first
//! line of the form `PRETTY_NAME=...`, keeps what stands between the first
//! `=` and the next one (or the end of the line), and strips surrounding
//! quotes. Without such a line the description is `Unknown`.
use vstd::prelude::*;

verus! {

/// The position of the first `b` in `s`, or `s.len()` if there is none.
pub open spec fn find_byte(s: Seq<u8>, b: u8) -> nat
    decreases s.len(),
{
    if s.len() == 0 {
        0
    } else if s[0] == b {
        0
    } else {
        1 + find_byte(s.skip(1), b)
    }
}

proof fn lemma_find_byte_bounds(s: Seq<u8>, b: u8)
    ensures
        find_byte(s, b) <= s.len(),
        forall|j: int| 0 <= j < find_byte(s, b) ==> s[j] != b,
        find_byte(s, b) < s.len() ==> s[find_byte(s, b) as int] == b,
    decreases s.len(),
{
    if s.len() > 0 && s[0] != b {
        lemma_find_byte_bounds(s.skip(1), b);
        assert forall|j: int| 0 <= j < find_byte(s, b) implies s[j] != b by {
            if j > 0 {
                assert(s.skip(1)[j - 1] == s[j]);
            }
        }
        if find_byte(s, b) < s.len() {
            assert(s.skip(1)[find_byte(s, b) - 1] == s[find_byte(s, b) as int]);
        }
    }
}

proof fn lemma_find_byte_none(s: Seq<u8>, b: u8)
    requires
        forall|j: int| 0 <= j < s.len() ==> s[j] != b,
    ensures
        find_byte(s, b) == s.len(),
    decreases s.len(),
{
    if s.len() > 0 {
        assert forall|j: int| 0 <= j < s.skip(1).len() implies s.skip(1)[j] != b by {
            assert(s.skip(1)[j] == s[j + 1]);
        }
        lemma_find_byte_none(s.skip(1), b);
    }
}

/// The bytes of `PRETTY_NAME=`.
pub open spec fn pretty_prefix() -> Seq<u8> {
    seq![80u8, 82u8, 69u8, 84u8, 84u8, 89u8, 95u8, 78u8, 65u8, 77u8, 69u8, 61u8]
}

/// Whether a line carries the description: it starts with `PRETTY_NAME=`.
pub open spec fn is_pretty_line(l: Seq<u8>) -> bool {
    l.len() >= 12 && l.take(12) == pretty_prefix()
}

/// `s` without its leading double quotes.
pub open spec fn spec_trim_quote_front(s: Seq<u8>) -> Seq<u8>
    decreases s.len(),
{
    if s.len() > 0 && s[0] == 34 {
        spec_trim_quote_front(s.skip(1))
    } else {
        s
    }
}

/// `s` without its trailing double quotes.
pub open spec fn spec_trim_quote_back(s: Seq<u8>) -> Seq<u8>
    decreases s.len(),
{
    if s.len() > 0 && s.last() == 34 {
        spec_trim_quote_back(s.drop_last())
    } else {
        s
    }
}

/// `s` without surrounding double quotes.
pub open spec fn spec_trim_quotes(s: Seq<u8>) -> Seq<u8> {
    spec_trim_quote_back(spec_trim_quote_front(s))
}

/// The description a `PRETTY_NAME=` line carries: what stands between the
/// first `=` and the next one or the end of the line, without surrounding
/// quotes.
pub open spec fn spec_line_value(l: Seq<u8>) -> Seq<u8> {
    let rest = l.skip(12);
    spec_trim_quotes(rest.take(find_byte(rest, 61) as int))
}

/// The first `PRETTY_NAME=` line of the content, reading line by line
/// (lines end at a line feed; the last line needs none).
pub open spec fn spec_pretty_name_from(s: Seq<u8>) -> Option<Seq<u8>>
    decreases s.len(),
{
    if s.len() == 0 {
        None
    } else {
        let e = find_byte(s, 10);
        if e >= s.len() {
            if is_pretty_line(s) {
                Some(s)
            } else {
                None
            }
        } else {
            let line = s.take(e as int);
            if is_pretty_line(line) {
                Some(line)
            } else {
                spec_pretty_name_from(s.skip((e + 1) as int))
            }
        }
    }
}

/// The fallback description.
pub open spec fn unknown_bytes() -> Seq<u8> {
    seq![85u8, 110u8, 107u8, 110u8, 111u8, 119u8, 110u8]
}

/// What the os-release content describes the distribution as: the value of
/// its first `PRETTY_NAME=` line, or `Unknown` without one.
pub open spec fn spec_pretty_name(s: Seq<u8>) -> Seq<u8> {
    match spec_pretty_name_from(s) {
        Some(l) => spec_line_value(l),
        None => unknown_bytes(),
    }
}

fn unknown_label() -> (r: Vec<u8>)
    ensures
        r@ == unknown_bytes(),
{
    let mut out: Vec<u8> = Vec::new();
    out.push(85);
    out.push(110);
    out.push(107);
    out.push(110);
    out.push(111);
    out.push(119);
    out.push(110);
    proof {
        assert(out@ =~= unknown_bytes());
    }
    out
}

/// Whether the 12 bytes of `content` from `pos` on are `PRETTY_NAME=`.
fn has_pretty_prefix(content: &Vec<u8>, pos: usize) -> (r: bool)
    requires
        pos + 12 <= content@.len(),
    ensures
        r == (content@.subrange(pos as int, pos as int + 12) == pretty_prefix()),
{
    let total = content.len();
    proof {
        assert(pos + 12 <= total);
    }
    let r = content[pos] == 80 && content[pos + 1] == 82 && content[pos + 2] == 69 && content[pos
        + 3] == 84 && content[pos + 4] == 84 && content[pos + 5] == 89 && content[pos + 6] == 95
        && content[pos + 7] == 78 && content[pos + 8] == 65 && content[pos + 9] == 77 && content[pos
        + 10] == 69 && content[pos + 11] == 61;
    proof {
        let sub = content@.subrange(pos as int, pos as int + 12);
        assert(sub.len() == 12);
        assert forall|k: int| 0 <= k < 12 implies sub[k] == content@[pos + k] by {}
        if r {
            assert(sub =~= pretty_prefix());
        } else {
            if sub == pretty_prefix() {
                assert(sub[0] == 80 && sub[1] == 82 && sub[2] == 69 && sub[3] == 84 && sub[4] == 84
                    && sub[5] == 89 && sub[6] == 95 && sub[7] == 78 && sub[8] == 65 && sub[9] == 77
                    && sub[10] == 69 && sub[11] == 61);
            }
        }
    }
    r
}

/// A copy of `s` without surrounding double quotes.
#[verifier::rlimit(30)]
fn trim_quotes(s: &Vec<u8>) -> (r: Vec<u8>)
    ensures
        r@ == spec_trim_quotes(s@),
{
    let mut lo: usize = 0;
    let mut hi: usize = s.len();
    proof {
        assert(s@.skip(0) =~= s@);
    }
    while lo < hi && s[lo] == 34
        invariant
            0 <= lo <= hi <= s@.len(),
            hi == s@.len(),
            spec_trim_quote_front(s@.skip(lo as int)) == spec_trim_quote_front(s@),
        decreases hi - lo,
    {
        proof {
            assert(s@.skip(lo as int).skip(1) =~= s@.skip(lo as int + 1));
        }
        lo = lo + 1;
    }
    proof {
        assert(spec_trim_quote_front(s@.skip(lo as int)) == s@.skip(lo as int));
        assert(s@.subrange(lo as int, hi as int) =~= s@.skip(lo as int));
    }
    while lo < hi && s[hi - 1] == 34
        invariant
            0 <= lo <= hi <= s@.len(),
            spec_trim_quote_back(s@.subrange(lo as int, hi as int)) == spec_trim_quotes(s@),
        decreases hi - lo,
    {
        proof {
            assert(s@.subrange(lo as int, hi as int).drop_last() =~= s@.subrange(
                lo as int,
                hi as int - 1,
            ));
        }
        hi = hi - 1;
    }
    proof {
        assert(spec_trim_quote_back(s@.subrange(lo as int, hi as int)) == s@.subrange(
            lo as int,
            hi as int,
        ));
    }
    let mut out: Vec<u8> = Vec::new();
    let mut i: usize = lo;
    while i < hi
        invariant
            lo <= i <= hi <= s@.len(),
            out@ == s@.subrange(lo as int, i as int),
        decreases hi - i,
    {
        out.push(s[i]);
        proof {
            assert(out@ =~= s@.subrange(lo as int, i as int + 1));
        }
        i = i + 1;
    }
    proof {
        assert(out@ == spec_trim_quotes(s@));
    }
    out
}

/// The distribution description the os-release content carries.
pub fn parse_pretty_name(content: &Vec<u8>) -> (r: Vec<u8>)
    ensures
        r@ == spec_pretty_name(content@),
{
    let n = content.len();
    let mut pos: usize = 0;
    proof {
        assert(content@.skip(0) =~= content@);
    }
    while pos < n
        invariant
            0 <= pos <= n == content@.len(),
            spec_pretty_name_from(content@.skip(pos as int)) == spec_pretty_name_from(content@),
        decreases n - pos,
    {
        let ghost rem = content@.skip(pos as int);

        // the end of the current line
        let mut e: usize = pos;
        while e < n && content[e] != 10
            invariant
                pos <= e <= n == content@.len(),
                forall|k: int| pos <= k < e ==> content@[k] != 10,
            decreases n - e,
        {
            e = e + 1;
        }
        proof {
            lemma_find_byte_bounds(rem, 10);
            assert forall|k: int| 0 <= k < e - pos implies rem[k] != 10 by {
                assert(rem[k] == content@[k + pos]);
            }
            if e < n {
                assert(rem[e - pos] == content@[e as int]);
            } else {
                lemma_find_byte_none(rem, 10);
            }
            assert(find_byte(rem, 10) == e - pos);
        }
        let ghost line = if e == n {
            rem
        } else {
            rem.take(e - pos)
        };
        proof {
            if e == n {
                assert(rem.take(e - pos) =~= rem);
            }
        }

        let pretty = e - pos >= 12 && has_pretty_prefix(content, pos);
        proof {
            if e - pos >= 12 {
                assert(line.take(12) =~= content@.subrange(pos as int, pos as int + 12));
            }
            assert(pretty == is_pretty_line(line));
            if pretty {
                assert(spec_pretty_name_from(rem) == Some(line));
            }
        }
        if pretty {
            // the value: between the first `=` and the next one or the
            // line's end
            let vstart = pos + 12;
            let mut q: usize = vstart;
            while q < e && content[q] != 61
                invariant
                    vstart <= q <= e <= n == content@.len(),
                    forall|k: int| vstart <= k < q ==> content@[k] != 61,
                decreases e - q,
            {
                q = q + 1;
            }
            let ghost rest = line.skip(12);
            proof {
                assert(rest =~= content@.subrange(vstart as int, e as int));
                lemma_find_byte_bounds(rest, 61);
                assert forall|k: int| 0 <= k < q - vstart implies rest[k] != 61 by {
                    assert(rest[k] == content@[k + vstart]);
                }
                if q < e {
                    assert(rest[q - vstart] == content@[q as int]);
                } else {
                    lemma_find_byte_none(rest, 61);
                }
                assert(find_byte(rest, 61) == q - vstart);
            }
            let mut raw: Vec<u8> = Vec::new();
            let mut i: usize = vstart;
            while i < q
                invariant
                    vstart <= i <= q <= n == content@.len(),
                    raw@ == content@.subrange(vstart as int, i as int),
                decreases q - i,
            {
                raw.push(content[i]);
                proof {
                    assert(raw@ =~= content@.subrange(vstart as int, i as int + 1));
                }
                i = i + 1;
            }
            proof {
                assert(raw@ =~= rest.take(q - vstart));
            }
            let value = trim_quotes(&raw);
            proof {
                assert(value@ == spec_line_value(line));
            }
            return value;
        }
        proof {
            if e == n {
                assert(spec_pretty_name_from(rem) is None);
            } else {
                assert(rem.skip(e - pos + 1) =~= content@.skip(e as int + 1));
                assert(spec_pretty_name_from(rem) == spec_pretty_name_from(
                    content@.skip(e as int + 1),
                ));
            }
        }
        if e == n {
            pos = n;
        } else {
            pos = e + 1;
        }
    }
    proof {
        assert(content@.skip(n as int) =~= Seq::<u8>::empty());
        assert(spec_pretty_name_from(content@) is None);
    }
    unknown_label()
}

} // verus!
