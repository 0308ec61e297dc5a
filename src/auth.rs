use vstd::prelude::*;

use crate::clock::{
    elapsed_seconds, expired, is_expired, whole_seconds, ACCESS_TOKEN_TTL, MAX_UNUSED_OTPS,
    REFRESH_TOKEN_TTL, RESEND_COOLDOWN,
};
use crate::flow::{
    failure, fail, Action, Event, Lookup, Problem, Reply, Step, STATUS_BAD_REQUEST, STATUS_CONFLICT,
    STATUS_INTERNAL, STATUS_NOT_FOUND, STATUS_TOO_MANY_REQUESTS, STATUS_UNAUTHORIZED,
};
use crate::models::{Id, Session};
use crate::validation::{
    email_ok, fullname_ok, otp_ok, password_ok, validation_email, validation_fullname,
    validation_otp, validation_password,
};

verus! {

pub struct RegisterRequest {
    pub fullname: String,
    pub email: String,
    pub password: String,
}

pub struct LoginRequest {
    pub email: String,
    pub password: String,
}

pub struct VerifyOtpRequest {
    pub email: String,
    pub otp: String,
}

pub struct EmailRequest {
    pub email: String,
}

pub struct ResetPassword {
    pub email: String,
    pub new_password: String,
}

pub struct ChangePassword {
    pub current_password: String,
    pub new_password: String,
}

/// Registration: validate, refuse an address that any account already has
/// (a failed check counts as none; the store's unique index still guards the
/// insert), create the inactive account, store a one-time code, mail it.
pub open spec fn register_plan(req: RegisterRequest, h: Seq<Event>) -> Step {
    if !(fullname_ok(req.fullname@) && email_ok(req.email@) && password_ok(req.password@)) {
        fail(STATUS_BAD_REQUEST, Problem::InvalidInput)
    } else if h.len() == 0 {
        Step::Run(Action::UserExists(req.email))
    } else if h[0] == Event::Flag(true) {
        fail(STATUS_CONFLICT, Problem::EmailInUse)
    } else if h.len() == 1 {
        Step::Run(Action::HashSecret(req.password))
    } else {
        match h[1] {
            Event::Text(hash) => if h.len() == 2 {
                Step::Run(
                    Action::CreateUser { fullname: req.fullname, email: req.email, password_hash: hash },
                )
            } else if !(h[2] is Done) {
                fail(STATUS_INTERNAL, Problem::CreateFailed)
            } else if h.len() == 3 {
                Step::Run(Action::StoreOtp(req.email))
            } else {
                match h[3] {
                    Event::Text(code) => if h.len() == 4 {
                        Step::Run(Action::SendOtpEmail { address: req.email, code })
                    } else {
                        Step::Reply(Reply::Registered)
                    },
                    _ => fail(STATUS_INTERNAL, Problem::OtpStoreFailed),
                }
            },
            _ => fail(STATUS_INTERNAL, Problem::HashFailed),
        }
    }
}

pub fn register(req: &RegisterRequest, h: &Vec<Event>) -> (r: Step)
    ensures
        r == register_plan(*req, h@),
{
    if !(validation_fullname(req.fullname.as_str()) && validation_email(req.email.as_str())
        && validation_password(req.password.as_str())) {
        return failure(STATUS_BAD_REQUEST, Problem::InvalidInput);
    }
    if h.len() == 0 {
        return Step::Run(Action::UserExists(req.email.clone()));
    }
    if matches!(h[0], Event::Flag(true)) {
        return failure(STATUS_CONFLICT, Problem::EmailInUse);
    }
    if h.len() == 1 {
        return Step::Run(Action::HashSecret(req.password.clone()));
    }
    match &h[1] {
        Event::Text(hash) => {
            if h.len() == 2 {
                return Step::Run(
                    Action::CreateUser {
                        fullname: req.fullname.clone(),
                        email: req.email.clone(),
                        password_hash: hash.clone(),
                    },
                );
            }
            if !matches!(h[2], Event::Done) {
                return failure(STATUS_INTERNAL, Problem::CreateFailed);
            }
            if h.len() == 3 {
                return Step::Run(Action::StoreOtp(req.email.clone()));
            }
            match &h[3] {
                Event::Text(code) => if h.len() == 4 {
                    Step::Run(Action::SendOtpEmail { address: req.email.clone(), code: code.clone() })
                } else {
                    Step::Reply(Reply::Registered)
                },
                _ => failure(STATUS_INTERNAL, Problem::OtpStoreFailed),
            }
        },
        _ => failure(STATUS_INTERNAL, Problem::HashFailed),
    }
}

/// Login: validate, find the active account, check the password, sign an
/// access and a refresh token, open a session for the refresh token.
pub open spec fn login_plan(req: LoginRequest, h: Seq<Event>) -> Step {
    if !(email_ok(req.email@) && password_ok(req.password@)) {
        fail(STATUS_BAD_REQUEST, Problem::InvalidInput)
    } else if h.len() == 0 {
        Step::Run(Action::FindActiveUser(req.email))
    } else {
        match h[0] {
            Event::User(Lookup::Found(u)) => if u.id is None {
                fail(STATUS_INTERNAL, Problem::LookupFailed)
            } else if h.len() == 1 {
                Step::Run(Action::CheckSecret { hash: u.password, plain: req.password })
            } else if !(h[1] == Event::Flag(true)) {
                fail(STATUS_UNAUTHORIZED, Problem::WrongCredentials)
            } else if h.len() == 2 {
                Step::Run(Action::SignAccessToken { user_id: u.id->0, email: u.email })
            } else {
                match h[2] {
                    Event::Text(access) => if h.len() == 3 {
                        Step::Run(Action::SignRefreshToken { user_id: u.id->0, email: u.email })
                    } else {
                        match h[3] {
                            Event::Text(refresh) => if h.len() == 4 {
                                Step::Run(
                                    Action::CreateSession {
                                        user_id: u.id->0,
                                        email: u.email,
                                        refresh_token: refresh,
                                    },
                                )
                            } else if h[4] is Done {
                                Step::Reply(
                                    Reply::LoggedIn { access_token: access, refresh_token: refresh },
                                )
                            } else {
                                fail(STATUS_INTERNAL, Problem::SessionStoreFailed)
                            },
                            _ => fail(STATUS_INTERNAL, Problem::RefreshTokenFailed),
                        }
                    },
                    _ => fail(STATUS_INTERNAL, Problem::TokenFailed),
                }
            },
            Event::User(Lookup::Missing) => fail(STATUS_NOT_FOUND, Problem::WrongCredentials),
            _ => fail(STATUS_INTERNAL, Problem::LookupFailed),
        }
    }
}

pub fn login(req: &LoginRequest, h: &Vec<Event>) -> (r: Step)
    ensures
        r == login_plan(*req, h@),
{
    if !(validation_email(req.email.as_str()) && validation_password(req.password.as_str())) {
        return failure(STATUS_BAD_REQUEST, Problem::InvalidInput);
    }
    if h.len() == 0 {
        return Step::Run(Action::FindActiveUser(req.email.clone()));
    }
    match &h[0] {
        Event::User(Lookup::Found(u)) => {
            let id = match u.id {
                Some(id) => id,
                None => return failure(STATUS_INTERNAL, Problem::LookupFailed),
            };
            if h.len() == 1 {
                return Step::Run(
                    Action::CheckSecret { hash: u.password.clone(), plain: req.password.clone() },
                );
            }
            if !matches!(h[1], Event::Flag(true)) {
                return failure(STATUS_UNAUTHORIZED, Problem::WrongCredentials);
            }
            if h.len() == 2 {
                return Step::Run(Action::SignAccessToken { user_id: id, email: u.email.clone() });
            }
            match &h[2] {
                Event::Text(access) => {
                    if h.len() == 3 {
                        return Step::Run(
                            Action::SignRefreshToken { user_id: id, email: u.email.clone() },
                        );
                    }
                    match &h[3] {
                        Event::Text(refresh) => if h.len() == 4 {
                            Step::Run(
                                Action::CreateSession {
                                    user_id: id,
                                    email: u.email.clone(),
                                    refresh_token: refresh.clone(),
                                },
                            )
                        } else if matches!(h[4], Event::Done) {
                            Step::Reply(
                                Reply::LoggedIn {
                                    access_token: access.clone(),
                                    refresh_token: refresh.clone(),
                                },
                            )
                        } else {
                            failure(STATUS_INTERNAL, Problem::SessionStoreFailed)
                        },
                        _ => failure(STATUS_INTERNAL, Problem::RefreshTokenFailed),
                    }
                },
                _ => failure(STATUS_INTERNAL, Problem::TokenFailed),
            }
        },
        Event::User(Lookup::Missing) => failure(STATUS_NOT_FOUND, Problem::WrongCredentials),
        _ => failure(STATUS_INTERNAL, Problem::LookupFailed),
    }
}

/// Logout: delete the session of the refresh-token cookie.
pub open spec fn logout_plan(cookie: Option<String>, h: Seq<Event>) -> Step {
    match cookie {
        None => fail(STATUS_BAD_REQUEST, Problem::MissingCookie),
        Some(token) => if h.len() == 0 {
            Step::Run(Action::DeleteSession(token))
        } else if h[0] is Done {
            Step::Reply(Reply::LoggedOut)
        } else {
            fail(STATUS_INTERNAL, Problem::SessionDeleteFailed)
        },
    }
}

pub fn logout(cookie: &Option<String>, h: &Vec<Event>) -> (r: Step)
    ensures
        r == logout_plan(*cookie, h@),
{
    match cookie {
        None => failure(STATUS_BAD_REQUEST, Problem::MissingCookie),
        Some(token) => if h.len() == 0 {
            Step::Run(Action::DeleteSession(token.clone()))
        } else if matches!(h[0], Event::Done) {
            Step::Reply(Reply::LoggedOut)
        } else {
            failure(STATUS_INTERNAL, Problem::SessionDeleteFailed)
        },
    }
}

/// The check in front of the refresh endpoint: the refresh-token cookie must
/// name a stored session that has not expired at `now`.
pub open spec fn session_check_plan(cookie: Option<String>, now: i64, h: Seq<Event>) -> Step {
    match cookie {
        None => fail(STATUS_UNAUTHORIZED, Problem::MissingToken),
        Some(token) => if h.len() == 0 {
            Step::Run(Action::FindSession(token))
        } else {
            match h[0] {
                Event::Session(Lookup::Found(s)) => if is_expired(s.expires_at, now) {
                    fail(STATUS_UNAUTHORIZED, Problem::TokenExpired)
                } else {
                    Step::Reply(Reply::Admitted)
                },
                Event::Session(Lookup::Missing) => fail(STATUS_UNAUTHORIZED, Problem::InvalidToken),
                _ => fail(STATUS_UNAUTHORIZED, Problem::LookupFailed),
            }
        },
    }
}

pub fn verify_refresh_token(cookie: &Option<String>, now: i64, h: &Vec<Event>) -> (r: Step)
    ensures
        r == session_check_plan(*cookie, now, h@),
{
    match cookie {
        None => failure(STATUS_UNAUTHORIZED, Problem::MissingToken),
        Some(token) => {
            if h.len() == 0 {
                return Step::Run(Action::FindSession(token.clone()));
            }
            match &h[0] {
                Event::Session(Lookup::Found(s)) => if expired(s.expires_at, now) {
                    failure(STATUS_UNAUTHORIZED, Problem::TokenExpired)
                } else {
                    Step::Reply(Reply::Admitted)
                },
                Event::Session(Lookup::Missing) => failure(
                    STATUS_UNAUTHORIZED,
                    Problem::InvalidToken,
                ),
                _ => failure(STATUS_UNAUTHORIZED, Problem::LookupFailed),
            }
        },
    }
}

/// Refresh: behind the session check, sign a new access token for the
/// session's account; the refresh token is kept.
pub open spec fn refresh_plan(session: Option<Session>, h: Seq<Event>) -> Step {
    match session {
        None => fail(STATUS_UNAUTHORIZED, Problem::MissingIdentity),
        Some(s) => if h.len() == 0 {
            Step::Run(Action::FindActiveUser(s.email))
        } else {
            match h[0] {
                Event::User(Lookup::Found(u)) => if u.id is None {
                    fail(STATUS_INTERNAL, Problem::LookupFailed)
                } else if h.len() == 1 {
                    Step::Run(Action::SignAccessToken { user_id: u.id->0, email: u.email })
                } else {
                    match h[1] {
                        Event::Text(access) => Step::Reply(Reply::Refreshed { access_token: access }),
                        _ => fail(STATUS_INTERNAL, Problem::TokenFailed),
                    }
                },
                Event::User(Lookup::Missing) => fail(STATUS_NOT_FOUND, Problem::UserNotFound),
                _ => fail(STATUS_INTERNAL, Problem::LookupFailed),
            }
        },
    }
}

pub fn refresh_token(session: &Option<Session>, h: &Vec<Event>) -> (r: Step)
    ensures
        r == refresh_plan(*session, h@),
{
    match session {
        None => failure(STATUS_UNAUTHORIZED, Problem::MissingIdentity),
        Some(s) => {
            if h.len() == 0 {
                return Step::Run(Action::FindActiveUser(s.email.clone()));
            }
            match &h[0] {
                Event::User(Lookup::Found(u)) => {
                    let id = match u.id {
                        Some(id) => id,
                        None => return failure(STATUS_INTERNAL, Problem::LookupFailed),
                    };
                    if h.len() == 1 {
                        return Step::Run(
                            Action::SignAccessToken { user_id: id, email: u.email.clone() },
                        );
                    }
                    match &h[1] {
                        Event::Text(access) => Step::Reply(
                            Reply::Refreshed { access_token: access.clone() },
                        ),
                        _ => failure(STATUS_INTERNAL, Problem::TokenFailed),
                    }
                },
                Event::User(Lookup::Missing) => failure(STATUS_NOT_FOUND, Problem::UserNotFound),
                _ => failure(STATUS_INTERNAL, Problem::LookupFailed),
            }
        },
    }
}


/// OTP verification: the address must belong to an account and its newest
/// unused code must be unused, unexpired at `now`, and match; then the
/// account is activated and the code consumed, side by side.
pub open spec fn verify_otp_plan(req: VerifyOtpRequest, now: i64, h: Seq<Event>) -> Step {
    if !(email_ok(req.email@) && otp_ok(req.otp@)) {
        fail(STATUS_BAD_REQUEST, Problem::InvalidInput)
    } else if h.len() == 0 {
        Step::Run(Action::UserExists(req.email))
    } else if h[0] == Event::Flag(false) {
        fail(STATUS_NOT_FOUND, Problem::UserNotFound)
    } else if h[0] != Event::Flag(true) {
        fail(STATUS_INTERNAL, Problem::LookupFailed)
    } else if h.len() == 1 {
        Step::Run(Action::FindUnusedOtp(req.email))
    } else {
        match h[1] {
            Event::Otp(Lookup::Found(o)) => if o.is_used {
                fail(STATUS_NOT_FOUND, Problem::OtpNotFound)
            } else if is_expired(o.expires_at, now) {
                fail(STATUS_BAD_REQUEST, Problem::OtpExpired)
            } else if h.len() == 2 {
                Step::Run(Action::CheckSecret { hash: o.code, plain: req.otp })
            } else if h[2] == Event::Flag(false) {
                fail(STATUS_UNAUTHORIZED, Problem::OtpMismatch)
            } else if h[2] != Event::Flag(true) {
                fail(STATUS_INTERNAL, Problem::HashCheckFailed)
            } else if h.len() == 3 {
                Step::Run(Action::ActivateAndConsume(req.email))
            } else {
                match h[3] {
                    Event::Both(true, true) => Step::Reply(Reply::OtpVerified),
                    Event::Both(true, false) => fail(STATUS_INTERNAL, Problem::OtpUpdateFailed),
                    _ => fail(STATUS_INTERNAL, Problem::ActivationFailed),
                }
            },
            Event::Otp(Lookup::Missing) => fail(STATUS_NOT_FOUND, Problem::OtpNotFound),
            _ => fail(STATUS_INTERNAL, Problem::LookupFailed),
        }
    }
}

pub fn verify_otp(req: &VerifyOtpRequest, now: i64, h: &Vec<Event>) -> (r: Step)
    ensures
        r == verify_otp_plan(*req, now, h@),
{
    if !(validation_email(req.email.as_str()) && validation_otp(req.otp.as_str())) {
        return failure(STATUS_BAD_REQUEST, Problem::InvalidInput);
    }
    if h.len() == 0 {
        return Step::Run(Action::UserExists(req.email.clone()));
    }
    match &h[0] {
        Event::Flag(true) => {},
        Event::Flag(false) => return failure(STATUS_NOT_FOUND, Problem::UserNotFound),
        _ => return failure(STATUS_INTERNAL, Problem::LookupFailed),
    }
    if h.len() == 1 {
        return Step::Run(Action::FindUnusedOtp(req.email.clone()));
    }
    match &h[1] {
        Event::Otp(Lookup::Found(o)) => {
            if o.is_used {
                return failure(STATUS_NOT_FOUND, Problem::OtpNotFound);
            }
            if expired(o.expires_at, now) {
                return failure(STATUS_BAD_REQUEST, Problem::OtpExpired);
            }
            if h.len() == 2 {
                return Step::Run(Action::CheckSecret { hash: o.code.clone(), plain: req.otp.clone() });
            }
            match &h[2] {
                Event::Flag(true) => {},
                Event::Flag(false) => return failure(STATUS_UNAUTHORIZED, Problem::OtpMismatch),
                _ => return failure(STATUS_INTERNAL, Problem::HashCheckFailed),
            }
            if h.len() == 3 {
                return Step::Run(Action::ActivateAndConsume(req.email.clone()));
            }
            match &h[3] {
                Event::Both(true, true) => Step::Reply(Reply::OtpVerified),
                Event::Both(true, false) => failure(STATUS_INTERNAL, Problem::OtpUpdateFailed),
                _ => failure(STATUS_INTERNAL, Problem::ActivationFailed),
            }
        },
        Event::Otp(Lookup::Missing) => failure(STATUS_NOT_FOUND, Problem::OtpNotFound),
        _ => failure(STATUS_INTERNAL, Problem::LookupFailed),
    }
}

/// The throttle of a resend, once the newest code is known: too soon within
/// `RESEND_COOLDOWN` seconds of it (with the seconds left to wait), too many
/// with `MAX_UNUSED_OTPS` unused codes outstanding.
pub open spec fn resend_plan(req: EmailRequest, now: i64, h: Seq<Event>) -> Step {
    if !email_ok(req.email@) {
        fail(STATUS_BAD_REQUEST, Problem::InvalidInput)
    } else if h.len() == 0 {
        Step::Run(Action::UserExists(req.email))
    } else if h[0] == Event::Flag(false) {
        fail(STATUS_NOT_FOUND, Problem::UserNotFound)
    } else if h[0] != Event::Flag(true) {
        fail(STATUS_INTERNAL, Problem::LookupFailed)
    } else if h.len() == 1 {
        Step::Run(Action::FindLastOtp(req.email))
    } else {
        match h[1] {
            Event::Otp(Lookup::Found(o)) => if whole_seconds(now - o.created_at) < RESEND_COOLDOWN {
                Step::Reply(
                    Reply::Error {
                        status: STATUS_TOO_MANY_REQUESTS,
                        problem: Problem::ResendTooSoon,
                        retry_after: Some((RESEND_COOLDOWN - whole_seconds(now - o.created_at)) as i64),
                    },
                )
            } else if h.len() == 2 {
                Step::Run(Action::CountUnusedOtps(req.email))
            } else {
                match h[2] {
                    Event::Count(c) => if c >= MAX_UNUSED_OTPS {
                        fail(STATUS_TOO_MANY_REQUESTS, Problem::ResendLimit)
                    } else if h.len() == 3 {
                        Step::Run(Action::StoreOtp(req.email))
                    } else {
                        match h[3] {
                            Event::Text(code) => if h.len() == 4 {
                                Step::Run(Action::SendOtpEmail { address: req.email, code })
                            } else {
                                Step::Reply(Reply::OtpResent)
                            },
                            _ => fail(STATUS_INTERNAL, Problem::OtpStoreFailed),
                        }
                    },
                    _ => fail(STATUS_INTERNAL, Problem::CountFailed),
                }
            },
            Event::Otp(Lookup::Missing) => fail(STATUS_NOT_FOUND, Problem::NoPreviousOtp),
            _ => fail(STATUS_INTERNAL, Problem::LookupFailed),
        }
    }
}

pub fn resend_otp(req: &EmailRequest, now: i64, h: &Vec<Event>) -> (r: Step)
    ensures
        r == resend_plan(*req, now, h@),
{
    if !validation_email(req.email.as_str()) {
        return failure(STATUS_BAD_REQUEST, Problem::InvalidInput);
    }
    if h.len() == 0 {
        return Step::Run(Action::UserExists(req.email.clone()));
    }
    match &h[0] {
        Event::Flag(true) => {},
        Event::Flag(false) => return failure(STATUS_NOT_FOUND, Problem::UserNotFound),
        _ => return failure(STATUS_INTERNAL, Problem::LookupFailed),
    }
    if h.len() == 1 {
        return Step::Run(Action::FindLastOtp(req.email.clone()));
    }
    match &h[1] {
        Event::Otp(Lookup::Found(o)) => {
            let elapsed = elapsed_seconds(now, o.created_at);
            if elapsed < RESEND_COOLDOWN {
                return Step::Reply(
                    Reply::Error {
                        status: STATUS_TOO_MANY_REQUESTS,
                        problem: Problem::ResendTooSoon,
                        retry_after: Some(RESEND_COOLDOWN - elapsed),
                    },
                );
            }
            if h.len() == 2 {
                return Step::Run(Action::CountUnusedOtps(req.email.clone()));
            }
            match &h[2] {
                Event::Count(c) => {
                    if *c >= MAX_UNUSED_OTPS {
                        return failure(STATUS_TOO_MANY_REQUESTS, Problem::ResendLimit);
                    }
                    if h.len() == 3 {
                        return Step::Run(Action::StoreOtp(req.email.clone()));
                    }
                    match &h[3] {
                        Event::Text(code) => if h.len() == 4 {
                            Step::Run(
                                Action::SendOtpEmail { address: req.email.clone(), code: code.clone() },
                            )
                        } else {
                            Step::Reply(Reply::OtpResent)
                        },
                        _ => failure(STATUS_INTERNAL, Problem::OtpStoreFailed),
                    }
                },
                _ => failure(STATUS_INTERNAL, Problem::CountFailed),
            }
        },
        Event::Otp(Lookup::Missing) => failure(STATUS_NOT_FOUND, Problem::NoPreviousOtp),
        _ => failure(STATUS_INTERNAL, Problem::LookupFailed),
    }
}

/// Forgotten password: store a fresh one-time code and a fresh reset token
/// (replacing any earlier one), mail the code, and hand the reset token's
/// hash back for the cookie. Whether an account exists is not checked.
pub open spec fn forget_password_plan(req: EmailRequest, h: Seq<Event>) -> Step {
    if !email_ok(req.email@) {
        fail(STATUS_BAD_REQUEST, Problem::InvalidInput)
    } else if h.len() == 0 {
        Step::Run(Action::StoreOtp(req.email))
    } else {
        match h[0] {
            Event::Text(code) => if h.len() == 1 {
                Step::Run(Action::StoreResetToken(req.email))
            } else {
                match h[1] {
                    Event::Text(cookie) => if h.len() == 2 {
                        Step::Run(Action::SendOtpEmail { address: req.email, code })
                    } else {
                        Step::Reply(Reply::ResetIssued { cookie })
                    },
                    _ => fail(STATUS_INTERNAL, Problem::ResetTokenStoreFailed),
                }
            },
            _ => fail(STATUS_INTERNAL, Problem::OtpStoreFailed),
        }
    }
}

pub fn forget_password(req: &EmailRequest, h: &Vec<Event>) -> (r: Step)
    ensures
        r == forget_password_plan(*req, h@),
{
    if !validation_email(req.email.as_str()) {
        return failure(STATUS_BAD_REQUEST, Problem::InvalidInput);
    }
    if h.len() == 0 {
        return Step::Run(Action::StoreOtp(req.email.clone()));
    }
    match &h[0] {
        Event::Text(code) => {
            if h.len() == 1 {
                return Step::Run(Action::StoreResetToken(req.email.clone()));
            }
            match &h[1] {
                Event::Text(cookie) => if h.len() == 2 {
                    Step::Run(Action::SendOtpEmail { address: req.email.clone(), code: code.clone() })
                } else {
                    Step::Reply(Reply::ResetIssued { cookie: cookie.clone() })
                },
                _ => failure(STATUS_INTERNAL, Problem::ResetTokenStoreFailed),
            }
        },
        _ => failure(STATUS_INTERNAL, Problem::OtpStoreFailed),
    }
}

/// Password reset: the reset-token cookie carries the hash of the token
/// issued for the address, and must equal the unexpired hash stored for it;
/// then the password is replaced and the token deleted. A token found
/// expired is deleted and the reset refused.
pub open spec fn reset_password_plan(
    req: ResetPassword,
    cookie: Option<String>,
    now: i64,
    h: Seq<Event>,
) -> Step {
    if !(email_ok(req.email@) && password_ok(req.new_password@)) {
        fail(STATUS_BAD_REQUEST, Problem::InvalidInput)
    } else {
        match cookie {
            None => fail(STATUS_BAD_REQUEST, Problem::MissingCookie),
            Some(presented) => if h.len() == 0 {
                Step::Run(Action::FindResetToken(req.email))
            } else {
                match h[0] {
                    Event::Reset(Lookup::Found(t)) => if is_expired(t.expires_at, now) {
                        if h.len() == 1 {
                            Step::Run(Action::DeleteResetToken(req.email))
                        } else {
                            fail(STATUS_BAD_REQUEST, Problem::ResetTokenExpired)
                        }
                    } else if presented@ != t.token@ {
                        fail(STATUS_UNAUTHORIZED, Problem::ResetTokenMismatch)
                    } else if h.len() == 1 {
                        Step::Run(Action::HashSecret(req.new_password))
                    } else {
                        match h[1] {
                            Event::Text(hash) => if h.len() == 2 {
                                Step::Run(
                                    Action::UpdatePassword { email: req.email, password_hash: hash },
                                )
                            } else if !(h[2] is Done) {
                                fail(STATUS_INTERNAL, Problem::PasswordUpdateFailed)
                            } else if h.len() == 3 {
                                Step::Run(Action::DeleteResetToken(req.email))
                            } else if h[3] is Done {
                                Step::Reply(Reply::PasswordReset)
                            } else {
                                fail(STATUS_INTERNAL, Problem::ResetTokenDeleteFailed)
                            },
                            _ => fail(STATUS_INTERNAL, Problem::HashFailed),
                        }
                    },
                    Event::Reset(Lookup::Missing) => fail(STATUS_NOT_FOUND, Problem::ResetTokenNotFound),
                    _ => fail(STATUS_INTERNAL, Problem::LookupFailed),
                }
            },
        }
    }
}

pub fn reset_password(req: &ResetPassword, cookie: &Option<String>, now: i64, h: &Vec<Event>) -> (r:
    Step)
    ensures
        r == reset_password_plan(*req, *cookie, now, h@),
{
    if !(validation_email(req.email.as_str()) && validation_password(req.new_password.as_str())) {
        return failure(STATUS_BAD_REQUEST, Problem::InvalidInput);
    }
    let presented = match cookie {
        None => return failure(STATUS_BAD_REQUEST, Problem::MissingCookie),
        Some(c) => c,
    };
    if h.len() == 0 {
        return Step::Run(Action::FindResetToken(req.email.clone()));
    }
    match &h[0] {
        Event::Reset(Lookup::Found(t)) => {
            if expired(t.expires_at, now) {
                if h.len() == 1 {
                    return Step::Run(Action::DeleteResetToken(req.email.clone()));
                }
                return failure(STATUS_BAD_REQUEST, Problem::ResetTokenExpired);
            }
            if !(*presented == t.token) {
                return failure(STATUS_UNAUTHORIZED, Problem::ResetTokenMismatch);
            }
            if h.len() == 1 {
                return Step::Run(Action::HashSecret(req.new_password.clone()));
            }
            match &h[1] {
                Event::Text(hash) => {
                    if h.len() == 2 {
                        return Step::Run(
                            Action::UpdatePassword { email: req.email.clone(), password_hash: hash.clone() },
                        );
                    }
                    if !matches!(h[2], Event::Done) {
                        return failure(STATUS_INTERNAL, Problem::PasswordUpdateFailed);
                    }
                    if h.len() == 3 {
                        return Step::Run(Action::DeleteResetToken(req.email.clone()));
                    }
                    if matches!(h[3], Event::Done) {
                        Step::Reply(Reply::PasswordReset)
                    } else {
                        failure(STATUS_INTERNAL, Problem::ResetTokenDeleteFailed)
                    }
                },
                _ => failure(STATUS_INTERNAL, Problem::HashFailed),
            }
        },
        Event::Reset(Lookup::Missing) => failure(STATUS_NOT_FOUND, Problem::ResetTokenNotFound),
        _ => failure(STATUS_INTERNAL, Problem::LookupFailed),
    }
}

/// The identity that a verified access token carries.
pub struct Claims {
    pub user_id: Id,
    pub email: String,
    pub exp: i64,
}

/// Password change, for the holder of a verified access token: the current
/// password must match before the new one is stored.
pub open spec fn change_password_plan(claims: Option<Claims>, req: ChangePassword, h: Seq<Event>) -> Step {
    match claims {
        None => fail(STATUS_UNAUTHORIZED, Problem::MissingIdentity),
        Some(c) => if h.len() == 0 {
            Step::Run(Action::FindActiveUser(c.email))
        } else {
            match h[0] {
                Event::User(Lookup::Found(u)) => if !(password_ok(req.current_password@)
                    && password_ok(req.new_password@)) {
                    fail(STATUS_BAD_REQUEST, Problem::InvalidPassword)
                } else if h.len() == 1 {
                    Step::Run(Action::CheckSecret { hash: u.password, plain: req.current_password })
                } else if h[1] != Event::Flag(true) {
                    fail(STATUS_UNAUTHORIZED, Problem::WrongPassword)
                } else if h.len() == 2 {
                    Step::Run(Action::HashSecret(req.new_password))
                } else {
                    match h[2] {
                        Event::Text(hash) => if h.len() == 3 {
                            Step::Run(Action::UpdatePassword { email: c.email, password_hash: hash })
                        } else if h[3] is Done {
                            Step::Reply(Reply::PasswordChanged)
                        } else {
                            fail(STATUS_INTERNAL, Problem::PasswordUpdateFailed)
                        },
                        _ => fail(STATUS_INTERNAL, Problem::HashFailed),
                    }
                },
                Event::User(Lookup::Missing) => fail(STATUS_NOT_FOUND, Problem::UserNotFound),
                _ => fail(STATUS_INTERNAL, Problem::LookupFailed),
            }
        },
    }
}

pub fn change_password(claims: &Option<Claims>, req: &ChangePassword, h: &Vec<Event>) -> (r: Step)
    ensures
        r == change_password_plan(*claims, *req, h@),
{
    let c = match claims {
        None => return failure(STATUS_UNAUTHORIZED, Problem::MissingIdentity),
        Some(c) => c,
    };
    if h.len() == 0 {
        return Step::Run(Action::FindActiveUser(c.email.clone()));
    }
    match &h[0] {
        Event::User(Lookup::Found(u)) => {
            if !(validation_password(req.current_password.as_str()) && validation_password(
                req.new_password.as_str(),
            )) {
                return failure(STATUS_BAD_REQUEST, Problem::InvalidPassword);
            }
            if h.len() == 1 {
                return Step::Run(
                    Action::CheckSecret {
                        hash: u.password.clone(),
                        plain: req.current_password.clone(),
                    },
                );
            }
            if !matches!(h[1], Event::Flag(true)) {
                return failure(STATUS_UNAUTHORIZED, Problem::WrongPassword);
            }
            if h.len() == 2 {
                return Step::Run(Action::HashSecret(req.new_password.clone()));
            }
            match &h[2] {
                Event::Text(hash) => if h.len() == 3 {
                    Step::Run(Action::UpdatePassword { email: c.email.clone(), password_hash: hash.clone() })
                } else if matches!(h[3], Event::Done) {
                    Step::Reply(Reply::PasswordChanged)
                } else {
                    failure(STATUS_INTERNAL, Problem::PasswordUpdateFailed)
                },
                _ => failure(STATUS_INTERNAL, Problem::HashFailed),
            }
        },
        Event::User(Lookup::Missing) => failure(STATUS_NOT_FOUND, Problem::UserNotFound),
        _ => failure(STATUS_INTERNAL, Problem::LookupFailed),
    }
}


/// The scheme word that opens an `Authorization` header.
pub open spec fn bearer_prefix() -> Seq<char> {
    seq!['B', 'e', 'a', 'r', 'e', 'r', ' ']
}

/// The token of an `Authorization: Bearer <token>` header.
pub open spec fn bearer_of(header: Seq<char>) -> Option<Seq<char>> {
    if header.len() >= 7 && header.subrange(0, 7) == bearer_prefix() {
        Some(header.subrange(7, header.len() as int))
    } else {
        None
    }
}

/// Takes the token out of an `Authorization` header value.
pub fn bearer_token(header: &str) -> (r: Option<String>)
    ensures
        r matches Some(t) ==> bearer_of(header@) == Some(t@),
        r is None ==> bearer_of(header@) is None,
{
    let n = header.unicode_len();
    if n < 7 {
        return None;
    }
    let prefix: [char; 7] = ['B', 'e', 'a', 'r', 'e', 'r', ' '];
    let mut i: usize = 0;
    while i < 7
        invariant
            n == header@.len(),
            n >= 7,
            i <= 7,
            forall|j: int| 0 <= j < 7 ==> prefix@[j] == bearer_prefix()[j],
            forall|j: int| 0 <= j < i ==> header@[j] == bearer_prefix()[j],
        decreases 7 - i,
    {
        if header.get_char(i) != prefix[i] {
            assert(header@.subrange(0, 7)[i as int] != bearer_prefix()[i as int]);
            return None;
        }
        i = i + 1;
    }
    assert(header@.subrange(0, 7) =~= bearer_prefix());
    let rest = header.substring_char(7, n);
    Some(String::from_str(rest))
}

/// The profile of the holder of a verified access token.
pub open spec fn profile_plan(claims: Option<Claims>, h: Seq<Event>) -> Step {
    match claims {
        None => fail(STATUS_UNAUTHORIZED, Problem::MissingIdentity),
        Some(c) => if h.len() == 0 {
            Step::Run(Action::FindActiveUser(c.email))
        } else {
            match h[0] {
                Event::User(Lookup::Found(_)) => Step::Reply(Reply::Profile),
                Event::User(Lookup::Missing) => fail(STATUS_NOT_FOUND, Problem::UserNotFound),
                _ => fail(STATUS_INTERNAL, Problem::LookupFailed),
            }
        },
    }
}

pub fn get_user_profile(claims: &Option<Claims>, h: &Vec<Event>) -> (r: Step)
    ensures
        r == profile_plan(*claims, h@),
{
    match claims {
        None => failure(STATUS_UNAUTHORIZED, Problem::MissingIdentity),
        Some(c) => {
            if h.len() == 0 {
                return Step::Run(Action::FindActiveUser(c.email.clone()));
            }
            match &h[0] {
                Event::User(Lookup::Found(_)) => Step::Reply(Reply::Profile),
                Event::User(Lookup::Missing) => failure(STATUS_NOT_FOUND, Problem::UserNotFound),
                _ => failure(STATUS_INTERNAL, Problem::LookupFailed),
            }
        },
    }
}


/// The token issuer: holds the signing secret. Signing and checking happen
/// where the claims are serialised; this type decides what they say.
pub struct AuthService {
    pub secret_key: String,
}

impl AuthService {
    /// The claims of an access token issued at `now_secs` (Unix seconds): it
    /// expires `ACCESS_TOKEN_TTL` seconds later.
    pub fn access_claims(&self, user_id: Id, email: &str, now_secs: i64) -> (r: Claims)
        requires
            now_secs <= i64::MAX - ACCESS_TOKEN_TTL,
        ensures
            r.user_id == user_id,
            r.email@ == email@,
            r.exp == now_secs + ACCESS_TOKEN_TTL,
    {
        Claims { user_id, email: String::from_str(email), exp: now_secs + ACCESS_TOKEN_TTL }
    }

    /// The claims of a refresh token issued at `now_secs`: it expires
    /// `REFRESH_TOKEN_TTL` seconds later.
    pub fn refresh_claims(&self, user_id: Id, email: &str, now_secs: i64) -> (r: Claims)
        requires
            now_secs <= i64::MAX - REFRESH_TOKEN_TTL,
        ensures
            r.user_id == user_id,
            r.email@ == email@,
            r.exp == now_secs + REFRESH_TOKEN_TTL,
    {
        Claims { user_id, email: String::from_str(email), exp: now_secs + REFRESH_TOKEN_TTL }
    }
}

} // verus!
