//! Verified helpers over character sequences: equality, prefix and suffix
//! tests, and whitespace trimming as applied to `Authorization` header values.

use vstd::prelude::*;

verus! {

/// Whitespace characters removed when a header value is trimmed.
pub open spec fn is_space(c: char) -> bool {
    c == ' ' || c == '\t' || c == '\n' || c == '\r' || c == '\u{b}' || c == '\u{c}'
}

/// `s` with its leading whitespace removed.
pub open spec fn drop_leading_ws(s: Seq<char>) -> Seq<char>
    decreases s.len(),
{
    if s.len() > 0 && is_space(s[0]) {
        drop_leading_ws(s.drop_first())
    } else {
        s
    }
}

/// `s` with its trailing whitespace removed.
pub open spec fn drop_trailing_ws(s: Seq<char>) -> Seq<char>
    decreases s.len(),
{
    if s.len() > 0 && is_space(s[s.len() - 1]) {
        drop_trailing_ws(s.drop_last())
    } else {
        s
    }
}

/// `s` with whitespace removed from both ends.
pub open spec fn trimmed(s: Seq<char>) -> Seq<char> {
    drop_trailing_ws(drop_leading_ws(s))
}

fn is_space_exec(c: char) -> (r: bool)
    ensures
        r == is_space(c),
{
    c == ' ' || c == '\t' || c == '\n' || c == '\r' || c == '\u{b}' || c == '\u{c}'
}

proof fn lemma_drop_leading_at(s: Seq<char>, i: int)
    requires
        0 <= i <= s.len(),
        forall|j: int| 0 <= j < i ==> is_space(s[j]),
        i < s.len() ==> !is_space(s[i]),
    ensures
        drop_leading_ws(s) == s.subrange(i, s.len() as int),
    decreases i,
{
    if i == 0 {
        assert(s.subrange(0, s.len() as int) =~= s);
    } else {
        let t = s.drop_first();
        assert(forall|j: int| 0 <= j < i - 1 ==> is_space(t[j]));
        lemma_drop_leading_at(t, i - 1);
        assert(t.subrange(i - 1, t.len() as int) =~= s.subrange(i, s.len() as int));
    }
}

proof fn lemma_drop_trailing_at(s: Seq<char>, i: int)
    requires
        0 <= i <= s.len(),
        forall|j: int| i <= j < s.len() ==> is_space(s[j]),
        i > 0 ==> !is_space(s[i - 1]),
    ensures
        drop_trailing_ws(s) == s.subrange(0, i),
    decreases s.len(),
{
    if s.len() == 0 {
        assert(s.subrange(0, 0) =~= s);
    } else if is_space(s[s.len() - 1]) {
        assert(i < s.len());
        let t = s.drop_last();
        assert(forall|j: int| i <= j < t.len() ==> is_space(t[j]));
        lemma_drop_trailing_at(t, i);
        assert(t.subrange(0, i) =~= s.subrange(0, i));
    } else {
        assert(i == s.len());
        assert(s.subrange(0, i) =~= s);
    }
}

/// True iff `a` and `b` hold the same character sequence.
pub fn str_eq(a: &str, b: &str) -> (r: bool)
    ensures
        r == (a@ == b@),
{
    let alen = a.unicode_len();
    let blen = b.unicode_len();
    if alen != blen {
        return false;
    }
    let mut i: usize = 0;
    while i < alen
        invariant
            alen == a@.len(),
            blen == b@.len(),
            alen == blen,
            0 <= i <= alen,
            forall|j: int| 0 <= j < i ==> a@[j] == b@[j],
        decreases alen - i,
    {
        if a.get_char(i) != b.get_char(i) {
            return false;
        }
        i += 1;
    }
    proof {
        assert(a@ =~= b@);
    }
    true
}

/// True iff the view of `s` starts with the view of `p`.
pub fn str_has_prefix(s: &str, p: &str) -> (r: bool)
    ensures
        r == (s@.len() >= p@.len() && s@.subrange(0, p@.len() as int) == p@),
{
    let slen = s.unicode_len();
    let plen = p.unicode_len();
    if slen < plen {
        return false;
    }
    let mut i: usize = 0;
    while i < plen
        invariant
            slen == s@.len(),
            plen == p@.len(),
            plen <= slen,
            0 <= i <= plen,
            forall|j: int| 0 <= j < i ==> s@[j] == p@[j],
        decreases plen - i,
    {
        if s.get_char(i) != p.get_char(i) {
            proof {
                assert(s@.subrange(0, p@.len() as int)[i as int] != p@[i as int]);
            }
            return false;
        }
        i += 1;
    }
    proof {
        assert(s@.subrange(0, p@.len() as int) =~= p@);
    }
    true
}

/// True iff the view of `s` ends with the view of `p`.
pub fn str_has_suffix(s: &str, p: &str) -> (r: bool)
    ensures
        r == (s@.len() >= p@.len() && s@.subrange(s@.len() - p@.len(), s@.len() as int)
            == p@),
{
    let slen = s.unicode_len();
    let plen = p.unicode_len();
    if slen < plen {
        return false;
    }
    let off = slen - plen;
    let mut i: usize = 0;
    while i < plen
        invariant
            slen == s@.len(),
            plen == p@.len(),
            plen <= slen,
            off == slen - plen,
            0 <= i <= plen,
            forall|j: int| 0 <= j < i ==> s@[off + j] == p@[j],
        decreases plen - i,
    {
        if s.get_char(off + i) != p.get_char(i) {
            proof {
                assert(s@.subrange(s@.len() - p@.len(), s@.len() as int)[i as int]
                    != p@[i as int]);
            }
            return false;
        }
        i += 1;
    }
    proof {
        assert(s@.subrange(s@.len() - p@.len(), s@.len() as int) =~= p@);
    }
    true
}

/// True iff trimming whitespace from both ends of `h` leaves exactly the
/// characters of `expected`.
pub fn trimmed_eq(h: &str, expected: &str) -> (r: bool)
    ensures
        r == (trimmed(h@) == expected@),
{
    let len = h.unicode_len();
    let mut start: usize = 0;
    while start < len && is_space_exec(h.get_char(start))
        invariant
            len == h@.len(),
            0 <= start <= len,
            forall|j: int| 0 <= j < start ==> is_space(h@[j]),
        decreases len - start,
    {
        start += 1;
    }
    let mut end: usize = len;
    while end > start && is_space_exec(h.get_char(end - 1))
        invariant
            len == h@.len(),
            start <= end <= len,
            forall|j: int| 0 <= j < start ==> is_space(h@[j]),
            forall|j: int| end <= j < len ==> is_space(h@[j]),
        decreases end,
    {
        end -= 1;
    }
    proof {
        lemma_drop_leading_at(h@, start as int);
        let lead = drop_leading_ws(h@);
        assert(forall|j: int|
            end - start <= j < lead.len() ==> is_space(#[trigger] lead[j]));
        if end > start {
            assert(!is_space(h@[end - 1]));
            assert(lead[end - start - 1] == h@[end - 1]);
        }
        lemma_drop_trailing_at(lead, end - start);
        assert(lead.subrange(0, end - start) =~= h@.subrange(start as int, end as int));
    }
    let ghost t = trimmed(h@);
    assert(t == h@.subrange(start as int, end as int));
    let elen = expected.unicode_len();
    if end - start != elen {
        proof {
            assert(t.len() != expected@.len());
        }
        return false;
    }
    let mut i: usize = 0;
    while i < elen
        invariant
            len == h@.len(),
            elen == expected@.len(),
            start <= end <= len,
            end - start == elen,
            t == h@.subrange(start as int, end as int),
            t == trimmed(h@),
            0 <= i <= elen,
            forall|j: int| 0 <= j < i ==> h@[start + j] == expected@[j],
        decreases elen - i,
    {
        if h.get_char(start + i) != expected.get_char(i) {
            proof {
                assert(t[i as int] != expected@[i as int]);
            }
            return false;
        }
        i += 1;
    }
    proof {
        assert(t =~= expected@);
    }
    true
}

} // verus!
