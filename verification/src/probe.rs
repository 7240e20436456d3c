//! The repository state probes: pure readings of captured command output that
//! answer whether the repository history is empty and whether the working
//! tree is clean.  (Validity of the repository is read off the command's exit
//! status alone, so it needs no helper here.)

use vstd::prelude::*;
use vstd::string::StrSliceExecFns;
use crate::counter::is_space_char;
use crate::text::{
    first_token, is_space, leading_run, lemma_first_token_skip, lemma_leading_run_bounds,
};

verus! {

/// The token that an object-count query prints for an empty history.
pub open spec fn zero_token() -> Seq<char> {
    seq!['0']
}

/// What the first token of an object-count output says about the history.
#[derive(Clone, Copy, Debug, PartialEq, Eq, Structural)]
pub enum Emptiness {
    /// The output holds no token at all: it cannot be read as a count.
    NoToken,
    /// The count is exactly `0`: the history is empty.
    Zero,
    /// A token is present and differs from `0`: the history is non-empty.
    NonZero,
}

/// Classifies the captured output of the object-count query by its first
/// whitespace-delimited token.
pub fn classify_emptiness(out: &str) -> (r: Emptiness)
    ensures
        r is NoToken <==> first_token(out@).len() == 0,
        r is Zero <==> first_token(out@) == zero_token(),
        r is NonZero <==> (first_token(out@).len() > 0 && first_token(out@) != zero_token()),
{
    let n = out.unicode_len();
    let mut i: usize = 0;
    while i < n && is_space_char(out.get_char(i))
        invariant
            0 <= i <= n == out@.len(),
            forall|k: int| 0 <= k < i ==> is_space(#[trigger] out@[k]),
        decreases n - i,
    {
        i = i + 1;
    }
    proof {
        lemma_first_token_skip(out@, i as int);
    }
    if i == n {
        proof {
            assert(out@.skip(n as int) =~= Seq::<char>::empty());
        }
        return Emptiness::NoToken;
    }
    let ghost rest = out@.skip(i as int);
    proof {
        assert(rest[0] == out@[i as int]);
        assert(first_token(out@) == leading_run(rest));
    }
    let c = out.get_char(i);
    let zero = c == '0' && (i + 1 == n || is_space_char(out.get_char(i + 1)));
    if zero {
        proof {
            lemma_leading_run_bounds(rest, 1);
            assert(rest.take(1) =~= zero_token());
        }
        Emptiness::Zero
    } else {
        proof {
            assert(leading_run(rest) == seq![rest[0]] + leading_run(rest.drop_first()));
            assert(first_token(out@).len() > 0);
            assert(first_token(out@)[0] == out@[i as int]);
            if c == '0' {
                // The token goes on past the `0`, so it is longer than one
                // character.
                assert(i + 1 < n && !is_space(out@[i + 1]));
                assert(rest.drop_first()[0] == out@[i + 1]);
                assert(leading_run(rest.drop_first()).len() > 0);
                assert(first_token(out@).len() >= 2);
            }
            assert(first_token(out@) != zero_token());
        }
        Emptiness::NonZero
    }
}

/// Whether the captured output of the status query reports a clean working
/// tree: clean means the short-form status printed nothing at all.
pub fn working_tree_clean(out: &str) -> (b: bool)
    ensures
        b == (out@.len() == 0),
{
    out.is_empty()
}

} // verus!
