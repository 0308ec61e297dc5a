use vstd::prelude::*;

verus! {

/// Lifetime of a one-time code, in seconds.
pub const OTP_TTL: i64 = 600;

/// Lifetime of a password-reset token, in minutes.
pub const RESET_TOKEN_TTL_MINUTES: i64 = 30;

/// Lifetime of an access token, in seconds.
pub const ACCESS_TOKEN_TTL: i64 = 900;

/// Lifetime of a refresh token and of its session, in seconds.
pub const REFRESH_TOKEN_TTL: i64 = 604800;

/// Minimum wait between two one-time codes for one address, in seconds.
pub const RESEND_COOLDOWN: i64 = 30;

/// Number of unused one-time codes at which resending stops.
pub const MAX_UNUSED_OTPS: u64 = 5;

/// Relies on chrono::Utc::now and DateTime::timestamp_millis: the current
/// time as milliseconds since the Unix epoch. Nothing is promised of it.
#[verifier::external_body]
pub(crate) fn now_millis() -> (r: i64) {
    chrono::Utc::now().timestamp_millis()
}

/// Whole seconds in a span of milliseconds, rounded toward zero (as
/// `TimeDelta::num_seconds` does).
pub open spec fn whole_seconds(ms: int) -> int {
    if ms >= 0 {
        ms / 1000
    } else {
        -((-ms) / 1000)
    }
}

/// A record that carries an expiry instant is expired once that instant lies
/// strictly before `now`.
pub open spec fn is_expired(expires_at: i64, now: i64) -> bool {
    expires_at < now
}

/// The instant `ttl_seconds` after `now_ms`.
pub open spec fn after_seconds(now_ms: i64, ttl_seconds: i64) -> int {
    now_ms + ttl_seconds * 1000
}

/// Whole seconds elapsed from `since_ms` to `now_ms`, rounded toward zero.
pub fn elapsed_seconds(now_ms: i64, since_ms: i64) -> (r: i64)
    ensures
        r == whole_seconds(now_ms - since_ms),
        -20_000_000_000_000_000 <= r <= 20_000_000_000_000_000,
{
    let d: i128 = now_ms as i128 - since_ms as i128;
    let q: i128 = if d >= 0 {
        d / 1000
    } else {
        -((-d) / 1000)
    };
    assert(-20_000_000_000_000_000 <= q <= 20_000_000_000_000_000) by (nonlinear_arith)
        requires
            -20_000_000_000_000_000_000 <= d <= 20_000_000_000_000_000_000,
            q == if d >= 0 { d / 1000 } else { -((-d) / 1000) },
    ;
    q as i64
}

/// The instant, in milliseconds, that lies `ttl_seconds` after `now_ms`.
pub fn expiry_after(now_ms: i64, ttl_seconds: i64) -> (r: i64)
    requires
        0 <= ttl_seconds <= i64::MAX / 1000,
        now_ms + ttl_seconds * 1000 <= i64::MAX,
    ensures
        r == after_seconds(now_ms, ttl_seconds),
{
    now_ms + ttl_seconds * 1000
}

/// Whether a record that expires at `expires_at` is expired at `now`.
pub fn expired(expires_at: i64, now: i64) -> (r: bool)
    ensures
        r == is_expired(expires_at, now),
{
    expires_at < now
}

} // verus!
