//! The confirmation gate's answer: only an explicit affirmative lets a
//! submission proceed; anything else declines.

use vstd::prelude::*;

verus! {

/// The answers that count as an explicit affirmative.
pub open spec fn spec_affirmative(answer: Seq<char>) -> bool {
    answer == "y"@ || answer == "Y"@ || answer == "yes"@
}

/// Whether the answer is an explicit affirmative.
pub fn is_affirmative(answer: &str) -> (b: bool)
    ensures
        b == spec_affirmative(answer@),
{
    proof {
        reveal_strlit("y");
        reveal_strlit("Y");
        reveal_strlit("yes");
    }
    let n = answer.unicode_len();
    if n == 1 {
        let c = answer.get_char(0);
        let r = c == 'y' || c == 'Y';
        proof {
            if c == 'y' {
                assert(answer@ =~= "y"@);
            } else if c == 'Y' {
                assert(answer@ =~= "Y"@);
            }
        }
        r
    } else if n == 3 {
        let r = answer.get_char(0) == 'y' && answer.get_char(1) == 'e' && answer.get_char(2) == 's';
        proof {
            if r {
                assert(answer@ =~= "yes"@);
            }
        }
        r
    } else {
        false
    }
}

} // verus!
