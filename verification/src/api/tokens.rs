use crate::text::chars_of;
use vstd::prelude::*;

verus! {

/// Longest identifier, in bytes, that request validation accepts.
pub const MAX_TOKEN_BYTES: usize = 128;

/// Whitespace as `char::is_whitespace` defines it (the Unicode `White_Space` property).
pub open spec fn is_space(c: char) -> bool {
    let u = c as u32;
    ||| 0x09 <= u <= 0x0d
    ||| u == 0x20
    ||| u == 0x85
    ||| u == 0xa0
    ||| u == 0x1680
    ||| 0x2000 <= u <= 0x200a
    ||| u == 0x2028
    ||| u == 0x2029
    ||| u == 0x202f
    ||| u == 0x205f
    ||| u == 0x3000
}

/// Nothing but whitespace: what `str::trim` leaves empty.
pub open spec fn blank(s: Seq<char>) -> bool {
    forall|i: int| 0 <= i < s.len() ==> #[trigger] is_space(s[i])
}

/// A byte allowed in identifiers: ASCII letter or digit, `.`, `_`, `:` or `-`.
pub open spec fn token_byte(b: u8) -> bool {
    ||| 48 <= b <= 57
    ||| 65 <= b <= 90
    ||| 97 <= b <= 122
    ||| b == 46
    ||| b == 95
    ||| b == 58
    ||| b == 45
}

/// An identifier of at most 128 bytes made of token bytes.
pub open spec fn token_ok(s: Seq<char>) -> bool {
    let b = vstd::utf8::encode_utf8(s);
    b.len() <= MAX_TOKEN_BYTES && forall|i: int| 0 <= i < b.len() ==> #[trigger] token_byte(b[i])
}

/// Whether `s` holds only whitespace.
pub fn is_blank(s: &str) -> (r: bool)
    ensures
        r == blank(s@),
{
    let cs = chars_of(s);
    let mut i: usize = 0;
    while i < cs.len()
        invariant
            i <= cs.len(),
            cs@ == s@,
            forall|j: int| 0 <= j < i ==> #[trigger] is_space(cs@[j]),
        decreases cs.len() - i,
    {
        let u = cs[i] as u32;
        let space = (0x09 <= u && u <= 0x0d) || u == 0x20 || u == 0x85 || u == 0xa0 || u == 0x1680
            || (0x2000 <= u && u <= 0x200a) || u == 0x2028 || u == 0x2029 || u == 0x202f || u
            == 0x205f || u == 0x3000;
        if !space {
            assert(!is_space(s@[i as int]));
            return false;
        }
        i = i + 1;
    }
    true
}

/// Whether `s` is an identifier of at most 128 token bytes.
pub fn is_token(s: &str) -> (r: bool)
    ensures
        r == token_ok(s@),
{
    let b = s.as_bytes();
    assert(b@ == vstd::utf8::encode_utf8(s@));
    if b.len() > MAX_TOKEN_BYTES {
        return false;
    }
    let mut i: usize = 0;
    while i < b.len()
        invariant
            i <= b.len(),
            b.len() <= MAX_TOKEN_BYTES,
            b@ == vstd::utf8::encode_utf8(s@),
            forall|j: int| 0 <= j < i ==> #[trigger] token_byte(b@[j]),
        decreases b.len() - i,
    {
        let x = b[i];
        let ok = (48 <= x && x <= 57) || (65 <= x && x <= 90) || (97 <= x && x <= 122) || x == 46
            || x == 95 || x == 58 || x == 45;
        if !ok {
            assert(!token_byte(b@[i as int]));
            return false;
        }
        i = i + 1;
    }
    true
}

} // verus!
