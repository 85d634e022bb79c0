use vstd::prelude::*;
use vstd::std_specs::iter::IteratorSpec;

verus! {

/// The Unicode `White_Space` property (PropList.txt): the characters that
/// `char::is_whitespace` accepts.
pub open spec fn unicode_white_space(c: char) -> bool {
    let v = c as u32;
    ||| 0x09 <= v <= 0x0D
    ||| v == 0x20
    ||| v == 0x85
    ||| v == 0xA0
    ||| v == 0x1680
    ||| 0x2000 <= v <= 0x200A
    ||| v == 0x2028
    ||| v == 0x2029
    ||| v == 0x202F
    ||| v == 0x205F
    ||| v == 0x3000
}

/// A string is blank when trimming white space leaves nothing: every one of
/// its characters is white space.
pub open spec fn spec_blank(s: Seq<char>) -> bool {
    forall|i: int| 0 <= i < s.len() ==> unicode_white_space(#[trigger] s[i])
}

/// `char::is_whitespace`: whether `c` has the Unicode `White_Space` property.
pub fn char_is_whitespace(c: char) -> (b: bool)
    ensures
        b == unicode_white_space(c),
{
    let v = c as u32;
    (0x09 <= v && v <= 0x0D) || v == 0x20 || v == 0x85 || v == 0xA0 || v == 0x1680 || (0x2000
        <= v && v <= 0x200A) || v == 0x2028 || v == 0x2029 || v == 0x202F || v == 0x205F || v
        == 0x3000
}

/// `s.trim().is_empty()`: true when `s` holds nothing but white space.
pub fn is_blank(s: &str) -> (b: bool)
    ensures
        b == spec_blank(s@),
{
    let mut chars = s.chars();
    let ghost mut i: int = 0;
    loop
        invariant
            0 <= i <= s@.len(),
            chars.remaining() == s@.skip(i),
            forall|j: int| 0 <= j < i ==> unicode_white_space(#[trigger] s@[j]),
        decreases s@.len() - i,
    {
        match chars.next() {
            Some(c) => {
                assert(c == s@[i]);
                if !char_is_whitespace(c) {
                    return false;
                }
                proof {
                    i = i + 1;
                }
            },
            None => {
                assert(i == s@.len());
                return true;
            },
        }
    }
}

/// Character-wise equality of two strings.
pub fn text_equals(a: &str, b: &str) -> (eq: bool)
    ensures
        eq == (a@ == b@),
{
    let mut left = a.chars();
    let mut right = b.chars();
    let ghost mut i: int = 0;
    loop
        invariant
            0 <= i <= a@.len(),
            0 <= i <= b@.len(),
            left.remaining() == a@.skip(i),
            right.remaining() == b@.skip(i),
            forall|j: int| 0 <= j < i ==> a@[j] == b@[j],
        decreases a@.len() - i,
    {
        match (left.next(), right.next()) {
            (Some(x), Some(y)) => {
                assert(x == a@[i] && y == b@[i]);
                if x != y {
                    return false;
                }
                proof {
                    i = i + 1;
                }
            },
            (None, None) => {
                assert(a@ =~= b@);
                return true;
            },
            _ => {
                return false;
            },
        }
    }
}

} // verus!
