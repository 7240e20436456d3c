//! The revision counter: reads the total number of historical commits out of
//! the captured output of the count query.  The next sequential identifier is
//! this count plus one, so the engine insists that the count itself stays
//! below `u64::MAX`; anything unreadable (or out of range) is a fatal parse
//! failure.

use vstd::prelude::*;
use vstd::string::StrSliceExecFns;
use crate::text::{
    all_digits, dec_value, is_digit, is_space, lemma_dec_value_prefix, lemma_trim_back_take,
    lemma_trim_front_skip, trimmed,
};

verus! {

/// The revision count denoted by the captured output `out`: the output,
/// trimmed of surrounding whitespace, must be a non-empty digit string whose
/// value leaves room for the increment to the next identifier.
pub open spec fn count_of(out: Seq<char>) -> Option<nat> {
    let t = trimmed(out);
    if t.len() > 0 && all_digits(t) && dec_value(t) < 18446744073709551615 {
        Some(dec_value(t))
    } else {
        None
    }
}

/// The next sequential identifier derived from the captured output of the
/// commit-count query: the count plus one.  `None` exactly when the output
/// does not denote a count.
pub fn next_identifier(out: &str) -> (r: Option<u64>)
    ensures
        r is None <==> count_of(out@) is None,
        r matches Some(v) ==> count_of(out@) matches Some(c) && v as nat == c + 1,
{
    match parse_count(out) {
        Some(count) => Some(count + 1),
        None => None,
    }
}

/// Whether `c` counts as whitespace when command output is trimmed.
pub fn is_space_char(c: char) -> (b: bool)
    ensures
        b == is_space(c),
{
    c == ' ' || c == '\t' || c == '\n' || c == '\r'
}

/// Parses the revision count from the captured output `s`: exactly
/// [`count_of`], with `None` for every output that does not denote a count.
pub fn parse_count(s: &str) -> (r: Option<u64>)
    ensures
        r is None <==> count_of(s@) is None,
        r matches Some(v) ==> count_of(s@) == Some(v as nat),
{
    let n = s.unicode_len();
    let mut i: usize = 0;
    while i < n && is_space_char(s.get_char(i))
        invariant
            0 <= i <= n == s@.len(),
            forall|k: int| 0 <= k < i ==> is_space(#[trigger] s@[k]),
        decreases n - i,
    {
        i = i + 1;
    }
    if i == n {
        proof {
            lemma_trim_front_skip(s@, n as int);
            assert(s@.skip(n as int) =~= Seq::<char>::empty());
            assert(trimmed(s@).len() == 0);
        }
        return None;
    }
    let mut j: usize = n;
    while j > i && is_space_char(s.get_char(j - 1))
        invariant
            i <= j <= n == s@.len(),
            i < n,
            !is_space(s@[i as int]),
            forall|k: int| j <= k < n ==> is_space(#[trigger] s@[k]),
        decreases j,
    {
        j = j - 1;
    }
    proof {
        if j == i {
            assert(is_space(s@[i as int]));
        }
        assert(i < j);
        assert(!is_space(s@[j - 1]));
        lemma_trim_front_skip(s@, i as int);
        lemma_trim_back_take(s@.skip(i as int), j - i);
        assert(s@.skip(i as int).take(j - i) =~= s@.subrange(i as int, j as int));
    }
    let ghost t = s@.subrange(i as int, j as int);
    proof {
        assert(trimmed(s@) == t);
        assert(t.take(0) =~= Seq::<char>::empty());
    }
    let mut acc: u64 = 0;
    let mut idx: usize = i;
    while idx < j
        invariant
            i <= idx <= j <= n == s@.len(),
            i < j,
            t == s@.subrange(i as int, j as int),
            trimmed(s@) == t,
            all_digits(t.take(idx - i)),
            acc as nat == dec_value(t.take(idx - i)),
            acc <= 18446744073709551614,
        decreases j - idx,
    {
        let c = s.get_char(idx);
        proof {
            assert(t[idx - i] == s@[idx as int]);
        }
        let u = c as u32;
        if u < 48 || u > 57 {
            proof {
                assert(!is_digit(t[idx - i]));
                assert(!all_digits(t));
            }
            return None;
        }
        let d: u64 = (u - 48) as u64;
        proof {
            assert(t.take(idx - i + 1).drop_last() =~= t.take(idx - i));
            assert(t.take(idx - i + 1).last() == t[idx - i]);
            assert(dec_value(t.take(idx - i + 1)) == dec_value(t.take(idx - i)) * 10 + d);
        }
        if acc > 1844674407370955161 || (acc == 1844674407370955161 && d > 4) {
            proof {
                lemma_dec_value_prefix(t, idx - i + 1);
                assert(dec_value(t) >= 18446744073709551615);
            }
            return None;
        }
        acc = acc * 10 + d;
        idx = idx + 1;
    }
    proof {
        assert(t.take(j - i) =~= t);
    }
    Some(acc)
}

} // verus!
