//! The remote synchronizer's one piece of logic: deciding, from the captured
//! output of the remote-listing query, whether a remote named `origin` is
//! configured.  The listing prints one remote name per line.

use vstd::prelude::*;
use vstd::string::StrSliceExecFns;

verus! {

/// The name of the default remote that synchronization requires.
pub open spec fn origin_name() -> Seq<char> {
    seq!['o', 'r', 'i', 'g', 'i', 'n']
}

/// The characters `[i, j)` of `s` form one whole newline-delimited line.
pub open spec fn line_at(s: Seq<char>, i: int, j: int) -> bool {
    &&& 0 <= i <= j <= s.len()
    &&& (i == 0 || s[i - 1] == '\n')
    &&& (j == s.len() || s[j] == '\n')
    &&& forall|k: int| i <= k < j ==> s[k] != '\n'
}

/// The characters `[i, j)` of `s` are a whole line reading exactly `origin`.
pub open spec fn is_origin_line(s: Seq<char>, i: int, j: int) -> bool {
    line_at(s, i, j) && s.subrange(i, j) == origin_name()
}

/// Some whole line of `s` reads exactly `origin`.
pub open spec fn has_origin(s: Seq<char>) -> bool {
    exists|i: int, j: int| is_origin_line(s, i, j)
}

/// Scans the captured remote listing for a line reading exactly `origin`.
pub fn has_origin_line(s: &str) -> (b: bool)
    ensures
        b == has_origin(s@),
{
    let n = s.unicode_len();
    let mut start: usize = 0;
    let mut k: usize = 0;
    loop
        invariant
            start <= k <= n == s@.len(),
            start == 0 || s@[start - 1] == '\n',
            forall|m: int| start <= m < k ==> s@[m] != '\n',
            forall|i: int, j: int| #[trigger] is_origin_line(s@, i, j) ==> j >= k,
        decreases n - k,
    {
        let boundary = k == n || s.get_char(k) == '\n';
        if boundary {
            let is_orig = k - start == 6 && s.get_char(start) == 'o' && s.get_char(start + 1)
                == 'r' && s.get_char(start + 2) == 'i' && s.get_char(start + 3) == 'g'
                && s.get_char(start + 4) == 'i' && s.get_char(start + 5) == 'n';
            if is_orig {
                proof {
                    assert(line_at(s@, start as int, k as int));
                    assert(s@.subrange(start as int, k as int) =~= origin_name());
                    assert(is_origin_line(s@, start as int, k as int));
                }
                return true;
            }
            proof {
                let sub = s@.subrange(start as int, k as int);
                assert forall|i: int, j: int| #[trigger] is_origin_line(s@, i, j) implies j >= k
                    + 1 by {
                    if j == k {
                        if i < start {
                            // A line reaching back past `start` would cross the
                            // newline just before `start`.
                            assert(s@[start - 1] == '\n');
                            assert(false);
                        } else if i > start {
                            // A line beginning after `start` would need a
                            // newline inside the current segment.
                            assert(s@[i - 1] == '\n');
                            assert(false);
                        } else {
                            // The line ending at `k` is exactly the segment we
                            // just compared, and the comparison failed.
                            if sub == origin_name() {
                                assert(sub.len() == 6);
                                assert(s@[start as int] == sub[0] && sub[0] == 'o');
                                assert(s@[start + 1] == sub[1] && sub[1] == 'r');
                                assert(s@[start + 2] == sub[2] && sub[2] == 'i');
                                assert(s@[start + 3] == sub[3] && sub[3] == 'g');
                                assert(s@[start + 4] == sub[4] && sub[4] == 'i');
                                assert(s@[start + 5] == sub[5] && sub[5] == 'n');
                                assert(false);
                            }
                        }
                    }
                }
            }
            if k == n {
                proof {
                    if has_origin(s@) {
                        let (i, j) = choose|i: int, j: int| is_origin_line(s@, i, j);
                        assert(j <= n);
                        assert(false);
                    }
                }
                return false;
            }
            start = k + 1;
            k = k + 1;
        } else {
            k = k + 1;
        }
    }
}

} // verus!
