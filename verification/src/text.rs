//! Character-level helpers for `str` and `String`.

use vstd::prelude::*;
use vstd::std_specs::iter::IteratorSpec;

verus! {

/// `String::push` appends one character to the end of the string.
pub assume_specification[ String::push ](s: &mut String, ch: char)
    ensures
        final(s)@ == old(s)@.push(ch),
;

/// The characters of `s`, in order.
pub fn chars_of(s: &str) -> (out: Vec<char>)
    ensures
        out@ == s@,
{
    let mut out: Vec<char> = Vec::new();
    let mut it = s.chars();
    loop
        invariant
            it.obeys_prophetic_iter_laws(),
            it.decrease() is Some,
            out@ + it.remaining() == s@,
        decreases it.decrease()->0,
    {
        let ghost before = it;
        match it.next() {
            Some(c) => {
                proof {
                    vstd::string::next_postcondition(&before, &it, Some(c));
                    assert(out@.push(c) + it.remaining() =~= out@ + before.remaining());
                }
                out.push(c);
            },
            None => {
                proof {
                    vstd::string::next_postcondition(&before, &it, None);
                    assert(out@ + it.remaining() =~= out@);
                }
                return out;
            },
        }
    }
}

} // verus!
