//! Tests on strings, stated over their sequences of characters.

use vstd::prelude::*;
use vstd::std_specs::iter::IteratorSpec;

verus! {

broadcast use vstd::string::group_string_axioms;

/// Whether `s` begins with `prefix`, character for character.
pub fn starts_with(s: &str, prefix: &str) -> (found: bool)
    ensures
        found == prefix@.is_prefix_of(s@),
{
    let mut rest = s.chars();
    let mut wanted = prefix.chars();
    let ghost mut matched: int = 0;
    loop
        invariant
            0 <= matched <= prefix@.len(),
            matched <= s@.len(),
            rest.remaining() == s@.skip(matched),
            wanted.remaining() == prefix@.skip(matched),
            s@.take(matched) == prefix@.take(matched),
        decreases prefix@.len() - matched,
    {
        match wanted.next() {
            None => {
                assert(prefix@.take(matched) == prefix@);
                return true;
            },
            Some(expected) => {
                match rest.next() {
                    None => {
                        return false;
                    },
                    Some(actual) => {
                        if actual != expected {
                            return false;
                        }
                    },
                }
            },
        }
        proof {
            assert(s@.take(matched + 1) == s@.take(matched).push(s@[matched]));
            assert(prefix@.take(matched + 1) == prefix@.take(matched).push(prefix@[matched]));
            assert(s@.skip(matched).drop_first() == s@.skip(matched + 1));
            assert(prefix@.skip(matched).drop_first() == prefix@.skip(matched + 1));
            matched = matched + 1;
        }
    }
}

} // verus!
