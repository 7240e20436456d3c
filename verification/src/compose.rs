//! The commit message composer: a total, pure function from the next
//! sequential identifier and an optional user-supplied suffix to the final
//! commit message text.

use vstd::prelude::*;
use vstd::string::StringExecFns;
use crate::text::{dec_str, digit_char};

verus! {

/// The separator written between the numeric identifier and a user-supplied
/// suffix.
pub open spec fn separator() -> Seq<char> {
    seq![' ', '-', ' ']
}

/// The commit message for the next identifier `next`: the decimal notation of
/// `next` alone when no suffix was supplied, and `"<next> - <suffix>"`
/// otherwise.
pub open spec fn composed(next: nat, suffix: Seq<char>) -> Seq<char> {
    if suffix.len() == 0 {
        dec_str(next)
    } else {
        dec_str(next) + separator() + suffix
    }
}

/// The one-character string for a decimal digit.
fn digit_str(d: u64) -> (r: &'static str)
    requires
        d < 10,
    ensures
        r@ == seq![digit_char(d as nat)],
{
    proof {
        reveal_strlit("0");
        reveal_strlit("1");
        reveal_strlit("2");
        reveal_strlit("3");
        reveal_strlit("4");
        reveal_strlit("5");
        reveal_strlit("6");
        reveal_strlit("7");
        reveal_strlit("8");
        reveal_strlit("9");
    }
    if d == 0 {
        proof { assert("0"@ =~= seq![digit_char(0)]); }
        "0"
    } else if d == 1 {
        proof { assert("1"@ =~= seq![digit_char(1)]); }
        "1"
    } else if d == 2 {
        proof { assert("2"@ =~= seq![digit_char(2)]); }
        "2"
    } else if d == 3 {
        proof { assert("3"@ =~= seq![digit_char(3)]); }
        "3"
    } else if d == 4 {
        proof { assert("4"@ =~= seq![digit_char(4)]); }
        "4"
    } else if d == 5 {
        proof { assert("5"@ =~= seq![digit_char(5)]); }
        "5"
    } else if d == 6 {
        proof { assert("6"@ =~= seq![digit_char(6)]); }
        "6"
    } else if d == 7 {
        proof { assert("7"@ =~= seq![digit_char(7)]); }
        "7"
    } else if d == 8 {
        proof { assert("8"@ =~= seq![digit_char(8)]); }
        "8"
    } else {
        proof { assert("9"@ =~= seq![digit_char(9)]); }
        "9"
    }
}

/// The decimal notation of `n` as a fresh string.
pub fn u64_to_string(n: u64) -> (r: String)
    ensures
        r@ == dec_str(n as nat),
    decreases n,
{
    if n < 10 {
        String::from_str(digit_str(n))
    } else {
        let mut s = u64_to_string(n / 10);
        s.append(digit_str(n % 10));
        proof {
            assert(n as nat / 10 == (n / 10) as nat);
            assert(n as nat % 10 == (n % 10) as nat);
        }
        s
    }
}

/// Composes the final commit message from the next identifier and the
/// user-supplied suffix (empty meaning none was supplied).
pub fn compose_message(next: u64, suffix: &str) -> (r: String)
    ensures
        r@ == composed(next as nat, suffix@),
{
    let mut s = u64_to_string(next);
    if !suffix.is_empty() {
        proof {
            reveal_strlit(" - ");
            assert(" - "@ =~= separator());
        }
        s.append(" - ");
        s.append(suffix);
    }
    s
}

} // verus!
