//! Text helpers: the characters of a string, and comparison with a literal.

use vstd::prelude::*;
use vstd::std_specs::iter::IteratorSpec;

verus! {

/// The characters of `s`, in order.
pub fn chars_of(s: &str) -> (chars: Vec<char>)
    ensures
        chars@ == s@,
{
    let mut chars: Vec<char> = Vec::new();
    let mut it = s.chars();
    assert(it.remaining() == s@);
    loop
        invariant
            it.obeys_prophetic_iter_laws(),
            it.decrease() is Some,
            chars@ + it.remaining() == s@,
        decreases it.decrease()->0,
    {
        let ghost before = it.remaining();
        match it.next() {
            Some(c) => {
                assert(before == seq![c] + it.remaining());
                assert(chars@.push(c) + it.remaining() =~= chars@ + before);
                chars.push(c);
            },
            None => {
                assert(chars@ + it.remaining() =~= chars@);
                return chars;
            },
        }
    }
}

/// True when `chars` spells exactly `text`.
pub fn spells(chars: &Vec<char>, text: &str) -> (same: bool)
    ensures
        same == (chars@ == text@),
{
    let other = chars_of(text);
    if chars.len() != other.len() {
        return false;
    }
    let mut i: usize = 0;
    while i < chars.len()
        invariant
            i <= chars.len(),
            chars.len() == other.len(),
            other@ == text@,
            forall|j: int| 0 <= j < i ==> chars@[j] == other@[j],
        decreases chars.len() - i,
    {
        if chars[i] != other[i] {
            return false;
        }
        i += 1;
    }
    assert(chars@ =~= other@);
    true
}

/// True when `chars` begins with `text`.
pub fn begins_with(chars: &Vec<char>, text: &str) -> (found: bool)
    ensures
        found == text@.is_prefix_of(chars@),
{
    let other = chars_of(text);
    if chars.len() < other.len() {
        return false;
    }
    let mut i: usize = 0;
    while i < other.len()
        invariant
            i <= other.len(),
            other.len() <= chars.len(),
            other@ == text@,
            forall|j: int| 0 <= j < i ==> chars@[j] == other@[j],
        decreases other.len() - i,
    {
        if chars[i] != other[i] {
            assert(!text@.is_prefix_of(chars@)) by {
                if text@.is_prefix_of(chars@) {
                    assert(chars@.subrange(0, text@.len() as int)[i as int] == text@[i as int]);
                }
            }
            return false;
        }
        i += 1;
    }
    assert(chars@.subrange(0, other@.len() as int) =~= other@);
    true
}

} // verus!
