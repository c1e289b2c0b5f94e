//! Character classes used when configuration names are checked.

use vstd::prelude::*;

verus! {

/// The ASCII letters and digits.
pub open spec fn is_alphanumeric(c: char) -> bool {
    ||| '0' <= c <= '9'
    ||| 'A' <= c <= 'Z'
    ||| 'a' <= c <= 'z'
}

/// A character is allowed in a name when it is an ASCII letter or digit, or
/// the one further character `extra` that the kind of name admits.
pub open spec fn name_char(c: char, extra: char) -> bool {
    is_alphanumeric(c) || c == extra
}

/// Every character of `s` is allowed in a name that admits `extra`.
pub open spec fn name_chars(s: Seq<char>, extra: char) -> bool {
    forall|i: int| 0 <= i < s.len() ==> name_char(#[trigger] s[i], extra)
}

/// Tells whether `c` is an ASCII letter or digit.
pub fn ascii_alphanumeric(c: char) -> (r: bool)
    ensures
        r == is_alphanumeric(c),
{
    ('0' <= c && c <= '9') || ('A' <= c && c <= 'Z') || ('a' <= c && c <= 'z')
}

/// Tells whether `s` is made of ASCII letters, digits and `extra` only.
pub fn only_name_chars(s: &str, extra: char) -> (r: bool)
    ensures
        r == name_chars(s@, extra),
{
    let mut ok = true;
    for c in it: s.chars()
        invariant
            it.seq() == s@,
            ok == (forall|i: int| 0 <= i < it.index() ==> name_char(#[trigger] s@[i], extra)),
    {
        ok = ok && (ascii_alphanumeric(c) || c == extra);
    }
    ok
}

} // verus!
