use rand::Rng;
use vstd::prelude::*;

use crate::clock::{after_seconds, expiry_after, now_millis, OTP_TTL, RESET_TOKEN_TTL_MINUTES};
use crate::validation::{is_ascii_digit, otp_ok};

verus! {

#[verifier::external_type_specification]
#[verifier::external_body]
pub struct ExBcryptError(bcrypt::BcryptError);

/// What `bcrypt::verify` answers for a plain text and a stored hash: `None`
/// where it reports an error (a malformed hash), else whether they match.
pub uninterp spec fn bcrypt_verdict(plain: Seq<char>, hash: Seq<char>) -> Option<bool>;

/// Relies on bcrypt::hash at bcrypt::DEFAULT_COST: a self-salted hash. The salt
/// is random, so the text is not promised; but `hash` and `verify` both run
/// `_hash_password` on the same bytes, cost and salt, so `verify` accepts the
/// plain text against the hash it produced.
///
/// The text is formatted as `$2b$`, the two-digit cost, the 22-character salt
/// and the 31-character digest: sixty characters that start with `$`.
#[verifier::external_body]
fn bcrypt_hash(plain: &str) -> (r: Result<String, bcrypt::BcryptError>)
    ensures
        r matches Ok(h) ==> bcrypt_verdict(plain@, h@) == Some(true) && h@.len() == 60 && h@[0]
            == '$',
{
    bcrypt::hash(plain, bcrypt::DEFAULT_COST)
}

/// Relies on bcrypt::verify: whether `plain` hashes, under the cost and salt
/// written in `hash`, to the digest written there; it reads nothing else.
#[verifier::external_body]
fn bcrypt_verify(plain: &str, hash: &str) -> (r: Result<bool, bcrypt::BcryptError>)
    ensures
        r matches Ok(b) ==> bcrypt_verdict(plain@, hash@) == Some(b),
        r is Err ==> bcrypt_verdict(plain@, hash@) is None,
{
    bcrypt::verify(plain, hash)
}

/// Relies on rand::rng and Rng::random_range: a value drawn from `0..bound`
/// (`random_range` panics on an empty range).
#[verifier::external_body]
fn random_below(bound: u32) -> (r: u32)
    requires
        bound > 0,
    ensures
        r < bound,
{
    rand::rng().random_range(0..bound)
}

/// Relies on String::push: appends one character.
#[verifier::external_body]
fn push_char(s: &mut String, c: char)
    ensures
        final(s)@ == old(s)@.push(c),
{
    s.push(c)
}

/// Why a secret could not be produced or checked.
#[derive(Debug, Clone, Copy, PartialEq, Eq)]
pub enum SecretError {
    /// The hasher failed, or a stored hash is malformed.
    Hashing,
    /// The clock reads a time too late to add the lifetime to.
    Clock,
}

/// Hashes a password, one-time code or reset token with a random salt; the
/// hash produced accepts `plain`, and is sixty characters starting with `$`.
pub fn hash_password(plain: &str) -> (r: Result<String, SecretError>)
    ensures
        r matches Ok(h) ==> bcrypt_verdict(plain@, h@) == Some(true) && h@.len() == 60 && h@[0]
            == '$',
        r matches Err(e) ==> e == SecretError::Hashing,
{
    match bcrypt_hash(plain) {
        Ok(h) => Ok(h),
        Err(_) => Err(SecretError::Hashing),
    }
}

/// Checks a plain text against a stored hash; it fails exactly where the
/// stored hash is malformed.
pub fn verify_password(hash: &str, plain: &str) -> (r: Result<bool, SecretError>)
    ensures
        r matches Ok(b) ==> bcrypt_verdict(plain@, hash@) == Some(b),
        r is Err <==> bcrypt_verdict(plain@, hash@) is None,
        r matches Err(e) ==> e == SecretError::Hashing,
{
    match bcrypt_verify(plain, hash) {
        Ok(b) => Ok(b),
        Err(_) => Err(SecretError::Hashing),
    }
}

/// A character that a reset token may hold: an ASCII letter or digit.
pub open spec fn is_token_char(c: char) -> bool {
    is_ascii_digit(c) || ('a' <= c && c <= 'z') || ('A' <= c && c <= 'Z')
}

/// Length of a reset token.
pub const RESET_TOKEN_LEN: usize = 32;

pub open spec fn reset_token_ok(s: Seq<char>) -> bool {
    s.len() == RESET_TOKEN_LEN && forall|i: int| 0 <= i < s.len() ==> is_token_char(#[trigger] s[i])
}

/// A fresh one-time code: six random decimal digits.
pub fn generate_otp() -> (r: String)
    ensures
        otp_ok(r@),
{
    let mut code = String::new();
    let mut k: usize = 0;
    while k < 6
        invariant
            k <= 6,
            code@.len() == k,
            forall|i: int| 0 <= i < code@.len() ==> is_ascii_digit(#[trigger] code@[i]),
        decreases 6 - k,
    {
        let d = random_below(10) as u8;
        push_char(&mut code, (48u8 + d) as char);
        k = k + 1;
    }
    code
}

/// The character that stands for `idx` in `0-9`, `a-z`, `A-Z` order.
fn token_char(idx: u32) -> (c: char)
    requires
        idx < 62,
    ensures
        is_token_char(c),
{
    let i = idx as u8;
    if i < 10 {
        (48u8 + i) as char
    } else if i < 36 {
        (97u8 + (i - 10)) as char
    } else {
        (65u8 + (i - 36)) as char
    }
}

/// A fresh reset token: thirty-two random ASCII letters and digits.
pub fn generate_reset_token() -> (r: String)
    ensures
        reset_token_ok(r@),
{
    let mut token = String::new();
    let mut k: usize = 0;
    while k < RESET_TOKEN_LEN
        invariant
            k <= RESET_TOKEN_LEN,
            token@.len() == k,
            forall|i: int| 0 <= i < token@.len() ==> is_token_char(#[trigger] token@[i]),
        decreases RESET_TOKEN_LEN - k,
    {
        let idx = random_below(62);
        push_char(&mut token, token_char(idx));
        k = k + 1;
    }
    token
}

/// A one-time code as it is mailed (`plain_otp`) and as it is stored (`hashed_otp`).
pub struct OtpCode {
    pub plain_otp: String,
    pub hashed_otp: String,
    pub expires_at: i64,
}

impl OtpCode {
    /// Puts together a code issued at `now_ms`; it expires `OTP_TTL` seconds
    /// later. A clock reading too late for that instant is refused.
    pub fn issue(plain_otp: String, hashed_otp: String, now_ms: i64) -> (r: Result<OtpCode, SecretError>)
        ensures
            r is Err <==> now_ms > i64::MAX - OTP_TTL * 1000,
            r matches Err(e) ==> e == SecretError::Clock,
            r matches Ok(c) ==> c.plain_otp == plain_otp && c.hashed_otp == hashed_otp
                && c.expires_at == after_seconds(now_ms, OTP_TTL),
    {
        if now_ms > i64::MAX - OTP_TTL * 1000 {
            return Err(SecretError::Clock);
        }
        Ok(OtpCode { plain_otp, hashed_otp, expires_at: expiry_after(now_ms, OTP_TTL) })
    }

    /// Draws a fresh code, hashes it, and dates it from the clock.
    pub fn new() -> (r: Result<OtpCode, SecretError>)
        ensures
            r matches Ok(c) ==> otp_ok(c.plain_otp@) && bcrypt_verdict(c.plain_otp@, c.hashed_otp@)
                == Some(true) && c.hashed_otp@ != c.plain_otp@ && exists|t: i64|
                c.expires_at == #[trigger] after_seconds(t, OTP_TTL),
    {
        let plain = generate_otp();
        let hashed = match hash_password(plain.as_str()) {
            Ok(h) => h,
            Err(e) => return Err(e),
        };
        let now = now_millis();
        let r = OtpCode::issue(plain, hashed, now);
        assert(r matches Ok(c) ==> c.expires_at == after_seconds(now, OTP_TTL));
        r
    }
}

/// A password-reset token as it is stored: only its hash is kept.
pub struct ResetToken {
    pub hashed_token: String,
    pub expires_at: i64,
}

impl ResetToken {
    /// Puts together a token hashed as `hashed_token` and issued at `now_ms`;
    /// it expires `RESET_TOKEN_TTL_MINUTES` later. A clock reading too late
    /// for that instant is refused.
    pub fn issue(hashed_token: String, now_ms: i64) -> (r: Result<ResetToken, SecretError>)
        ensures
            r is Err <==> now_ms > i64::MAX - RESET_TOKEN_TTL_MINUTES * 60 * 1000,
            r matches Err(e) ==> e == SecretError::Clock,
            r matches Ok(t) ==> t.hashed_token == hashed_token && t.expires_at == after_seconds(
                now_ms,
                (RESET_TOKEN_TTL_MINUTES * 60) as i64,
            ),
    {
        if now_ms > i64::MAX - RESET_TOKEN_TTL_MINUTES * 60 * 1000 {
            return Err(SecretError::Clock);
        }
        Ok(ResetToken { hashed_token, expires_at: expiry_after(now_ms, RESET_TOKEN_TTL_MINUTES * 60) })
    }

    /// Draws a fresh token, hashes it, and dates it from the clock. The plain
    /// token is not kept: the hash is what the cookie carries.
    pub fn new() -> (r: Result<ResetToken, SecretError>)
        ensures
            r matches Ok(t) ==> (exists|p: Seq<char>|
                reset_token_ok(p) && bcrypt_verdict(p, t.hashed_token@) == Some(true)
                    && t.hashed_token@ != p) && exists|n: i64|
                t.expires_at == #[trigger] after_seconds(n, (RESET_TOKEN_TTL_MINUTES * 60) as i64),
    {
        let token = generate_reset_token();
        let hashed = match hash_password(token.as_str()) {
            Ok(h) => h,
            Err(e) => return Err(e),
        };
        let now = now_millis();
        let r = ResetToken::issue(hashed, now);
        assert(r matches Ok(t) ==> reset_token_ok(token@) && bcrypt_verdict(token@, t.hashed_token@)
            == Some(true) && t.hashed_token@ != token@);
        assert(r matches Ok(t) ==> t.expires_at == after_seconds(
            now,
            (RESET_TOKEN_TTL_MINUTES * 60) as i64,
        ));
        r
    }
}

} // verus!
