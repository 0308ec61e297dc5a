use vstd::prelude::*;

verus! {

/// The Unicode `White_Space` code points, which `str::trim` strips.
pub open spec fn is_white_space(c: char) -> bool {
    ('\u{9}' <= c && c <= '\u{d}') || c == ' ' || c == '\u{85}' || c == '\u{a0}'
        || c == '\u{1680}' || ('\u{2000}' <= c && c <= '\u{200a}') || c == '\u{2028}'
        || c == '\u{2029}' || c == '\u{202f}' || c == '\u{205f}' || c == '\u{3000}'
}

pub open spec fn is_ascii_digit(c: char) -> bool {
    '0' <= c && c <= '9'
}

/// An e-mail address is accepted when it holds both an `@` and a `.`.
pub open spec fn email_ok(s: Seq<char>) -> bool {
    s.contains('@') && s.contains('.')
}

/// A password is accepted when it has at least six characters.
pub open spec fn password_ok(s: Seq<char>) -> bool {
    s.len() >= 6
}

/// Text that holds something other than white space.
pub open spec fn non_blank(s: Seq<char>) -> bool {
    exists|i: int| 0 <= i < s.len() && !is_white_space(#[trigger] s[i])
}

/// A full name is accepted when something other than white space remains.
pub open spec fn fullname_ok(s: Seq<char>) -> bool {
    non_blank(s)
}

/// A one-time code is exactly six ASCII digits.
pub open spec fn otp_ok(s: Seq<char>) -> bool {
    s.len() == 6 && forall|i: int| 0 <= i < s.len() ==> is_ascii_digit(#[trigger] s[i])
}

fn white_space(c: char) -> (r: bool)
    ensures
        r == is_white_space(c),
{
    ('\u{9}' <= c && c <= '\u{d}') || c == ' ' || c == '\u{85}' || c == '\u{a0}'
        || c == '\u{1680}' || ('\u{2000}' <= c && c <= '\u{200a}') || c == '\u{2028}'
        || c == '\u{2029}' || c == '\u{202f}' || c == '\u{205f}' || c == '\u{3000}'
}

fn has_char(s: &str, target: char) -> (r: bool)
    ensures
        r == s@.contains(target),
{
    let n = s.unicode_len();
    let mut i: usize = 0;
    while i < n
        invariant
            n == s@.len(),
            i <= n,
            forall|j: int| 0 <= j < i ==> s@[j] != target,
        decreases n - i,
    {
        if s.get_char(i) == target {
            return true;
        }
        i = i + 1;
    }
    false
}

pub fn validation_email(email: &str) -> (r: bool)
    ensures
        r == email_ok(email@),
{
    has_char(email, '@') && has_char(email, '.')
}

pub fn validation_password(password: &str) -> (r: bool)
    ensures
        r == password_ok(password@),
{
    password.unicode_len() >= 6
}

/// Whether a text holds something other than white space (what remains
/// after `str::trim` is non-empty).
pub fn is_non_blank(text: &str) -> (r: bool)
    ensures
        r == non_blank(text@),
{
    let n = text.unicode_len();
    let mut i: usize = 0;
    while i < n
        invariant
            n == text@.len(),
            i <= n,
            forall|j: int| 0 <= j < i ==> is_white_space(#[trigger] text@[j]),
        decreases n - i,
    {
        if !white_space(text.get_char(i)) {
            return true;
        }
        i = i + 1;
    }
    false
}

pub fn validation_fullname(fullname: &str) -> (r: bool)
    ensures
        r == fullname_ok(fullname@),
{
    is_non_blank(fullname)
}

pub fn validation_otp(otp: &str) -> (r: bool)
    ensures
        r == otp_ok(otp@),
{
    let n = otp.unicode_len();
    if n != 6 {
        return false;
    }
    let mut i: usize = 0;
    while i < n
        invariant
            n == otp@.len(),
            i <= n,
            forall|j: int| 0 <= j < i ==> is_ascii_digit(#[trigger] otp@[j]),
        decreases n - i,
    {
        let c = otp.get_char(i);
        if !('0' <= c && c <= '9') {
            return false;
        }
        i = i + 1;
    }
    true
}

} // verus!
