//! Whitespace trimming for backend diagnostic text: the info-log protocol
//! reports log text with surrounding whitespace stripped and the interior
//! untouched.

use vstd::prelude::*;

verus! {

/// The whitespace characters stripped from the ends of a diagnostic log:
/// space, tab, line feed and carriage return.
pub open spec fn is_log_space(c: char) -> bool {
    c == ' ' || c == '\t' || c == '\n' || c == '\r'
}

/// `s` with leading and trailing whitespace removed and everything between
/// the first and last non-whitespace characters kept verbatim.
pub open spec fn spec_trim(s: Seq<char>) -> Seq<char>
    decreases s.len(),
{
    if s.len() > 0 && is_log_space(s[0]) {
        spec_trim(s.drop_first())
    } else if s.len() > 0 && is_log_space(s.last()) {
        spec_trim(s.drop_last())
    } else {
        s
    }
}

/// Whether `c` is one of the whitespace characters stripped from log ends.
pub fn is_space(c: char) -> (r: bool)
    ensures
        r == is_log_space(c),
{
    c == ' ' || c == '\t' || c == '\n' || c == '\r'
}

proof fn lemma_trim_subrange(s: Seq<char>, start: int, end: int)
    requires
        0 <= start <= end <= s.len(),
        forall|k: int| 0 <= k < start ==> is_log_space(#[trigger] s[k]),
        forall|k: int| end <= k < s.len() ==> is_log_space(#[trigger] s[k]),
        start < end ==> !is_log_space(s[start]) && !is_log_space(s[end - 1]),
    ensures
        spec_trim(s) == s.subrange(start, end),
    decreases s.len(),
{
    if s.len() == 0 {
        assert(s.subrange(start, end) =~= s);
    } else if is_log_space(s[0]) {
        // The first character is stripped; recurse on the tail.
        assert(start > 0 || start == end) by {
            if start == 0 && start < end {
                assert(!is_log_space(s[0]));
            }
        }
        if start == end {
            // Everything is whitespace; the result is empty.
            lemma_trim_subrange(s.drop_first(), 0, 0);
            assert(spec_trim(s) == spec_trim(s.drop_first()));
            assert(s.drop_first().subrange(0, 0) =~= s.subrange(start, end));
        } else {
            lemma_trim_subrange(s.drop_first(), start - 1, end - 1);
            assert(s.drop_first().subrange(start - 1, end - 1) =~= s.subrange(start, end));
        }
    } else if is_log_space(s.last()) {
        assert(end < s.len() || start == end) by {
            if end == s.len() && start < end {
                assert(!is_log_space(s[end - 1]));
            }
        }
        if start == end {
            lemma_trim_subrange(s.drop_last(), 0, 0);
            assert(s.drop_last().subrange(0, 0) =~= s.subrange(start, end));
        } else {
            lemma_trim_subrange(s.drop_last(), start, end);
            assert(s.drop_last().subrange(start, end) =~= s.subrange(start, end));
        }
    } else {
        // No character is stripped: the bounds must already be tight.
        assert(start == 0) by {
            if start > 0 {
                assert(is_log_space(s[0]));
            }
        }
        assert(end == s.len()) by {
            if end < s.len() {
                assert(is_log_space(s[s.len() - 1]));
            }
        }
        assert(s.subrange(0, s.len() as int) =~= s);
    }
}

/// Strips surrounding whitespace from `s`, keeping the interior verbatim.
pub fn trim_log(s: &str) -> (r: &str)
    ensures
        r@ == spec_trim(s@),
{
    let n = s.unicode_len();
    let mut start: usize = 0;
    while start < n && is_space(s.get_char(start))
        invariant
            n == s@.len(),
            0 <= start <= n,
            forall|k: int| 0 <= k < start ==> is_log_space(#[trigger] s@[k]),
        decreases n - start,
    {
        start = start + 1;
    }
    let mut end: usize = n;
    while end > start && is_space(s.get_char(end - 1))
        invariant
            n == s@.len(),
            0 <= start <= end <= n,
            forall|k: int| 0 <= k < start ==> is_log_space(#[trigger] s@[k]),
            start < n ==> !is_log_space(s@[start as int]),
            forall|k: int| end <= k < n ==> is_log_space(#[trigger] s@[k]),
        decreases end,
    {
        end = end - 1;
    }
    proof {
        lemma_trim_subrange(s@, start as int, end as int);
    }
    s.substring_char(start, end)
}

} // verus!
