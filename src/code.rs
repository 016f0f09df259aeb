//! Character-level vocabulary shared by the catalogs and the decoder.
use vstd::prelude::*;

verus! {

/// A character that may stand in a code: an ASCII digit or letter.
pub open spec fn is_code_char(c: char) -> bool {
    ('0' <= c && c <= '9') || ('A' <= c && c <= 'Z') || ('a' <= c && c <= 'z')
}

/// `s` is exactly the two characters of `c`.
pub open spec fn spells2(s: Seq<char>, c: (char, char)) -> bool {
    s.len() == 2 && s[0] == c.0 && s[1] == c.1
}

/// `s` is exactly the three characters of `c`.
pub open spec fn spells3(s: Seq<char>, c: (char, char, char)) -> bool {
    s.len() == 3 && s[0] == c.0 && s[1] == c.1 && s[2] == c.2
}

/// Decides `is_code_char`.
pub fn is_code_char_exec(c: char) -> (r: bool)
    ensures
        r == is_code_char(c),
{
    ('0' <= c && c <= '9') || ('A' <= c && c <= 'Z') || ('a' <= c && c <= 'z')
}

} // verus!
