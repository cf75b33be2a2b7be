use vstd::prelude::*;
use validator::ValidateLength;

verus! {

/// The longest local part, in characters, that RFC 5321 allows.
pub const MAX_USERNAME_CHARS: u64 = 64;

/// Whether `c` is an ASCII letter, upper or lower case.
pub open spec fn is_ascii_letter(c: char) -> bool {
    ('a' <= c && c <= 'z') || ('A' <= c && c <= 'Z')
}

/// The characters allowed in the local part of an address by the WHATWG
/// grammar for a valid e-mail address: ASCII letters and digits and
/// ``.!#$%&'*+/=?^_`{|}~-``.
pub open spec fn is_username_char(c: char) -> bool {
    is_ascii_letter(c) || ('0' <= c && c <= '9') || c == '.' || c == '!' || c == '#' || c == '$'
        || c == '%' || c == '&' || c == '\'' || c == '*' || c == '+' || c == '/' || c == '='
        || c == '?' || c == '^' || c == '_' || c == '`' || c == '{' || c == '|' || c == '}'
        || c == '~' || c == '-'
}

/// Every character of `s` is allowed in a username.
pub open spec fn all_username_chars(s: Seq<char>) -> bool {
    forall|i: int| 0 <= i < s.len() ==> is_username_char(#[trigger] s[i])
}

/// A valid username: one to 64 characters, each of them allowed.
pub open spec fn is_valid_username(s: Seq<char>) -> bool {
    0 < s.len() <= MAX_USERNAME_CHARS && all_username_chars(s)
}

/// `a` and `b` are the same character up to the case of an ASCII letter.
pub open spec fn eq_ignore_ascii_case(a: char, b: char) -> bool {
    a == b || (is_ascii_letter(a) && is_ascii_letter(b) && (a as u32 + 32 == b as u32 || b as u32
        + 32 == a as u32))
}

/// Whether a string is a valid username does not depend on the case of its
/// ASCII letters: two strings that differ only there are both accepted or
/// both rejected.
pub proof fn lemma_ascii_case_insensitive(s: Seq<char>, t: Seq<char>)
    requires
        s.len() == t.len(),
        forall|i: int| 0 <= i < s.len() ==> eq_ignore_ascii_case(#[trigger] s[i], t[i]),
    ensures
        is_valid_username(s) == is_valid_username(t),
{
    assert forall|i: int| 0 <= i < s.len() implies is_username_char(#[trigger] s[i])
        == is_username_char(t[i]) by {
        assert(eq_ignore_ascii_case(s[i], t[i]));
    }
    if all_username_chars(s) {
        assert forall|i: int| 0 <= i < t.len() implies is_username_char(#[trigger] t[i]) by {
            assert(is_username_char(s[i]) == is_username_char(t[i]));
        }
    }
    if all_username_chars(t) {
        assert forall|i: int| 0 <= i < s.len() implies is_username_char(#[trigger] s[i]) by {
            assert(is_username_char(s[i]) == is_username_char(t[i]));
        }
    }
}

/// Relies on validator::ValidateLength::length for `str`, which counts the
/// string's chars (Unicode scalar values) and always returns `Some`.
#[verifier::external_body]
fn char_count(s: &str) -> (r: Option<u64>)
    ensures
        r.is_some(),
        r.unwrap() as nat == s@.len(),
{
    ValidateLength::<u64>::length(s)
}

/// Whether `c` may stand in a username.
pub fn is_username_char_exec(c: char) -> (r: bool)
    ensures
        r == is_username_char(c),
{
    ('a' <= c && c <= 'z') || ('A' <= c && c <= 'Z') || ('0' <= c && c <= '9') || c == '.' || c
        == '!' || c == '#' || c == '$' || c == '%' || c == '&' || c == '\'' || c == '*' || c == '+'
        || c == '/' || c == '=' || c == '?' || c == '^' || c == '_' || c == '`' || c == '{' || c
        == '|' || c == '}' || c == '~' || c == '-'
}

/// Whether `val` is an acceptable username: not empty, at most 64 characters
/// (counted as Unicode scalar values, not bytes), and made only of the
/// characters of `is_username_char`. Anything else, a trailing newline
/// included, is rejected.
#[must_use]
pub fn validate_username(val: &str) -> (r: bool)
    ensures
        r == is_valid_username(val@),
        val@.len() == 0 ==> !r,
        val@.len() > 64 ==> !r,
        0 < val@.len() <= 64 && all_username_chars(val@) ==> r,
        (exists|i: int| 0 <= i < val@.len() && !is_username_char(#[trigger] val@[i])) ==> !r,
        val@.len() > 0 && val@.last() == '\n' ==> !r,
{
    if val.is_empty() {
        return false;
    }
    let n: u64 = match char_count(val) {
        Some(n) => n,
        None => return false,
    };
    if n > MAX_USERNAME_CHARS {
        return false;
    }
    let len: usize = n as usize;
    let mut i: usize = 0;
    while i < len
        invariant
            len as nat == val@.len(),
            i <= len,
            forall|j: int| 0 <= j < i ==> is_username_char(#[trigger] val@[j]),
        decreases len - i,
    {
        let c = val.get_char(i);
        if !is_username_char_exec(c) {
            return false;
        }
        i = i + 1;
    }
    true
}

} // verus!
