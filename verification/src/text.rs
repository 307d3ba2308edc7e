//! Moving between strings and their characters.

use vstd::prelude::*;

verus! {

/// `String::push`: the string afterwards is the string before with `c` at
/// its end.
pub assume_specification[ String::push ](text: &mut String, c: char)
    ensures
        final(text)@ == old(text)@.push(c),
;

/// The characters of `text`, in order.
pub fn chars_of(text: &str) -> (chars: Vec<char>)
    ensures
        chars@ == text@,
{
    broadcast use vstd::string::axiom_spec_iter;

    let mut chars: Vec<char> = Vec::new();
    for c in it: text.chars()
        invariant
            it.seq() == text@,
            chars@ == it.seq().subrange(0, it.index()),
    {
        chars.push(c);
    }
    assert(chars@ == text@);
    chars
}

/// The string made of `chars`, in order.
pub fn string_of(chars: &Vec<char>) -> (text: String)
    ensures
        text@ == chars@,
{
    let mut text = String::new();
    let mut i: usize = 0;
    while i < chars.len()
        invariant
            i <= chars.len(),
            text@ == chars@.subrange(0, i as int),
        decreases chars.len() - i,
    {
        text.push(chars[i]);
        i += 1;
    }
    text
}

} // verus!
