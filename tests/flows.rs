use messenger::auth::{
    bearer_token, change_password, forget_password, get_user_profile, login, logout, refresh_token,
    register, resend_otp, reset_password, verify_otp, verify_refresh_token, AuthService,
    ChangePassword, Claims, EmailRequest, LoginRequest, RegisterRequest, ResetPassword,
    VerifyOtpRequest,
};
use messenger::flow::{Action, Event, Lookup, Problem, Reply, Step};
use messenger::friends::{
    accept_friend_request, decline_friend_request, send_friend_request, FriendRequestParams,
};
use messenger::messaging::{
    create_conversation, send_direct_message, CreateConversationRequest, SendDirecMessage,
};
use messenger::models::{ConversationType, FriendRequest, Otp, ResetToken, Session, User, UserPreview};

fn user(id: u128, email: &str, active: bool) -> User {
    User {
        id: Some(id),
        fullname: "Ann Lee".to_string(),
        email: email.to_string(),
        password: "$2b$12$hash".to_string(),
        avatar_url: None,
        avatar_id: None,
        bio: None,
        phone: None,
        is_active: active,
        created_at: 0,
        updated_at: 0,
    }
}

fn otp(created_at: i64, expires_at: i64, is_used: bool) -> Otp {
    Otp {
        id: Some(1),
        email: "ann@x.io".to_string(),
        code: "$2b$12$otp".to_string(),
        expires_at,
        is_used,
        created_at,
        updated_at: created_at,
    }
}

fn claims(id: u128) -> Option<Claims> {
    Some(Claims { user_id: id, email: "ann@x.io".to_string(), exp: 0 })
}

fn error_of(s: &Step) -> Option<(u16, Problem, Option<i64>)> {
    match s {
        Step::Reply(Reply::Error { status, problem, retry_after }) => Some((*status, *problem, *retry_after)),
        _ => None,
    }
}

fn reg() -> RegisterRequest {
    RegisterRequest {
        fullname: "Ann Lee".to_string(),
        email: "ann@x.io".to_string(),
        password: "secret1".to_string(),
    }
}

#[test]
fn register_with_taken_email_is_conflict() {
    let r = reg();
    let h = vec![Event::Flag(true)];
    let s = register(&r, &h);
    assert_eq!(error_of(&s), Some((409, Problem::EmailInUse, None)));
    assert_eq!(s_status(&s), 409);
}

fn s_status(s: &Step) -> u16 {
    match s {
        Step::Reply(r) => r.status(),
        Step::Run(_) => 0,
    }
}

#[test]
fn register_happy_path() {
    let r = reg();
    let mut h = vec![];
    assert!(matches!(register(&r, &h), Step::Run(Action::UserExists(ref e)) if e == "ann@x.io"));
    h.push(Event::Flag(false));
    assert!(matches!(register(&r, &h), Step::Run(Action::HashSecret(ref p)) if p == "secret1"));
    h.push(Event::Text("$2b$12$stored".to_string()));
    assert!(matches!(register(&r, &h),
        Step::Run(Action::CreateUser { ref password_hash, .. }) if password_hash == "$2b$12$stored"));
    h.push(Event::Done);
    assert!(matches!(register(&r, &h), Step::Run(Action::StoreOtp(_))));
    h.push(Event::Text("123456".to_string()));
    assert!(matches!(register(&r, &h), Step::Run(Action::SendOtpEmail { ref code, .. }) if code == "123456"));
    h.push(Event::Done);
    assert!(matches!(register(&r, &h), Step::Reply(Reply::Registered)));
}

#[test]
fn register_rejects_bad_input_and_failures() {
    let mut r = reg();
    r.password = "12345".to_string();
    assert_eq!(error_of(&register(&r, &vec![])), Some((400, Problem::InvalidInput, None)));
    let r = reg();
    let h = vec![Event::Flag(false), Event::Failed];
    assert_eq!(error_of(&register(&r, &h)), Some((500, Problem::HashFailed, None)));
    let h = vec![Event::Flag(false), Event::Text("$2b$12$h".to_string()), Event::Failed];
    assert_eq!(error_of(&register(&r, &h)), Some((500, Problem::CreateFailed, None)));
    let h = vec![Event::Failed, Event::Text("$2b$12$h".to_string()), Event::Done, Event::Failed];
    assert_eq!(error_of(&register(&r, &h)), Some((500, Problem::OtpStoreFailed, None)));
}

fn vreq(code: &str) -> VerifyOtpRequest {
    VerifyOtpRequest { email: "ann@x.io".to_string(), otp: code.to_string() }
}

#[test]
fn used_or_expired_codes_are_refused() {
    let r = vreq("123456");
    let h = vec![Event::Flag(true), Event::Otp(Lookup::Found(otp(0, 600_000, true))), Event::Flag(true)];
    assert_eq!(error_of(&verify_otp(&r, 1_000, &h)), Some((404, Problem::OtpNotFound, None)));
    let h = vec![Event::Flag(true), Event::Otp(Lookup::Found(otp(0, 600_000, false))), Event::Flag(true)];
    assert_eq!(error_of(&verify_otp(&r, 600_001, &h)), Some((400, Problem::OtpExpired, None)));
    assert!(matches!(verify_otp(&r, 600_000, &h), Step::Run(Action::ActivateAndConsume(_))));
}

#[test]
fn verify_otp_paths() {
    let r = vreq("123456");
    assert_eq!(error_of(&verify_otp(&vreq("12a456"), 0, &vec![])), Some((400, Problem::InvalidInput, None)));
    assert_eq!(error_of(&verify_otp(&r, 0, &vec![Event::Flag(false)])), Some((404, Problem::UserNotFound, None)));
    let found = || Event::Otp(Lookup::Found(otp(0, 600_000, false)));
    assert!(matches!(verify_otp(&r, 10, &vec![Event::Flag(true), found()]),
        Step::Run(Action::CheckSecret { ref plain, .. }) if plain == "123456"));
    let h = vec![Event::Flag(true), found(), Event::Flag(false)];
    assert_eq!(error_of(&verify_otp(&r, 10, &h)), Some((401, Problem::OtpMismatch, None)));
    let h = vec![Event::Flag(true), found(), Event::Failed];
    assert_eq!(error_of(&verify_otp(&r, 10, &h)), Some((500, Problem::HashCheckFailed, None)));
    let h = vec![Event::Flag(true), found(), Event::Flag(true), Event::Both(true, true)];
    assert!(matches!(verify_otp(&r, 10, &h), Step::Reply(Reply::OtpVerified)));
    let h = vec![Event::Flag(true), found(), Event::Flag(true), Event::Both(false, false)];
    assert_eq!(error_of(&verify_otp(&r, 10, &h)), Some((500, Problem::ActivationFailed, None)));
    let h = vec![Event::Flag(true), found(), Event::Flag(true), Event::Both(true, false)];
    assert_eq!(error_of(&verify_otp(&r, 10, &h)), Some((500, Problem::OtpUpdateFailed, None)));
}

#[test]
fn resend_within_thirty_seconds_says_how_long_to_wait() {
    let r = EmailRequest { email: "ann@x.io".to_string() };
    let h = vec![Event::Flag(true), Event::Otp(Lookup::Found(otp(1_000_000, 1_600_000, false)))];
    let s = resend_otp(&r, 1_012_400, &h);
    assert_eq!(error_of(&s), Some((429, Problem::ResendTooSoon, Some(18))));
    let s = resend_otp(&r, 1_029_999, &h);
    assert_eq!(error_of(&s), Some((429, Problem::ResendTooSoon, Some(1))));
    assert!(matches!(resend_otp(&r, 1_030_000, &h), Step::Run(Action::CountUnusedOtps(_))));
}

#[test]
fn resend_with_five_unused_codes_is_refused() {
    let r = EmailRequest { email: "ann@x.io".to_string() };
    let base = || vec![Event::Flag(true), Event::Otp(Lookup::Found(otp(0, 600_000, false)))];
    let mut h = base();
    h.push(Event::Count(5));
    assert_eq!(error_of(&resend_otp(&r, 3_600_000, &h)), Some((429, Problem::ResendLimit, None)));
    let mut h = base();
    h.push(Event::Count(5));
    assert_eq!(resend_otp(&r, 5_000, &h).status_of(), 429);
    let mut h = base();
    h.push(Event::Count(4));
    assert!(matches!(resend_otp(&r, 3_600_000, &h), Step::Run(Action::StoreOtp(_))));
    h.push(Event::Text("654321".to_string()));
    assert!(matches!(resend_otp(&r, 3_600_000, &h), Step::Run(Action::SendOtpEmail { .. })));
    h.push(Event::Done);
    assert!(matches!(resend_otp(&r, 3_600_000, &h), Step::Reply(Reply::OtpResent)));
    let h = vec![Event::Flag(true), Event::Otp(Lookup::Missing)];
    assert_eq!(error_of(&resend_otp(&r, 0, &h)), Some((404, Problem::NoPreviousOtp, None)));
}

trait StatusOf {
    fn status_of(&self) -> u16;
}

impl StatusOf for Step {
    fn status_of(&self) -> u16 {
        s_status(self)
    }
}

#[test]
fn register_verify_login_refresh_end_to_end() {
    // Registration.
    let r = reg();
    let h = vec![
        Event::Flag(false),
        Event::Text("$2b$12$h".to_string()),
        Event::Done,
        Event::Text("123456".to_string()),
        Event::Done,
    ];
    assert!(matches!(register(&r, &h), Step::Reply(Reply::Registered)));
    // Verification with the mailed code before expiry.
    let v = vreq("123456");
    let h = vec![
        Event::Flag(true),
        Event::Otp(Lookup::Found(otp(0, 600_000, false))),
        Event::Flag(true),
        Event::Both(true, true),
    ];
    assert!(matches!(verify_otp(&v, 60_000, &h), Step::Reply(Reply::OtpVerified)));
    // Login.
    let l = LoginRequest { email: "ann@x.io".to_string(), password: "secret1".to_string() };
    let u = user(7, "ann@x.io", true);
    let mut h = vec![Event::User(Lookup::Found(u))];
    assert!(matches!(login(&l, &h), Step::Run(Action::CheckSecret { .. })));
    h.push(Event::Flag(true));
    assert!(matches!(login(&l, &h), Step::Run(Action::SignAccessToken { user_id: 7, .. })));
    h.push(Event::Text("access-1".to_string()));
    assert!(matches!(login(&l, &h), Step::Run(Action::SignRefreshToken { user_id: 7, .. })));
    h.push(Event::Text("refresh-1".to_string()));
    assert!(matches!(login(&l, &h),
        Step::Run(Action::CreateSession { user_id: 7, ref refresh_token, .. }) if refresh_token == "refresh-1"));
    h.push(Event::Done);
    match login(&l, &h) {
        Step::Reply(Reply::LoggedIn { access_token, refresh_token }) => {
            assert_eq!(access_token, "access-1");
            assert_eq!(refresh_token, "refresh-1");
        }
        _ => panic!("login did not succeed"),
    }
    // The session check, then refresh.
    let session = Session {
        user_id: Some(7),
        email: "ann@x.io".to_string(),
        refresh_token: "refresh-1".to_string(),
        expires_at: 604_800_000,
        created_at: 0,
        updated_at: 0,
    };
    let cookie = Some("refresh-1".to_string());
    assert!(matches!(verify_refresh_token(&cookie, 70_000, &vec![]), Step::Run(Action::FindSession(_))));
    let admitted = verify_refresh_token(&cookie, 70_000, &vec![Event::Session(Lookup::Found(session))]);
    assert!(matches!(admitted, Step::Reply(Reply::Admitted)));
    let session = Session {
        user_id: Some(7),
        email: "ann@x.io".to_string(),
        refresh_token: "refresh-1".to_string(),
        expires_at: 604_800_000,
        created_at: 0,
        updated_at: 0,
    };
    let s = Some(session);
    let h = vec![Event::User(Lookup::Found(user(7, "ann@x.io", true))), Event::Text("access-2".to_string())];
    match refresh_token(&s, &h) {
        Step::Reply(Reply::Refreshed { access_token }) => assert_eq!(access_token, "access-2"),
        _ => panic!("refresh did not succeed"),
    }
}

#[test]
fn session_check_rejections() {
    let cookie = Some("t".to_string());
    assert_eq!(error_of(&verify_refresh_token(&None, 0, &vec![])), Some((401, Problem::MissingToken, None)));
    let expired = Session {
        user_id: Some(7),
        email: "a@b.c".to_string(),
        refresh_token: "t".to_string(),
        expires_at: 99,
        created_at: 0,
        updated_at: 0,
    };
    let h = vec![Event::Session(Lookup::Found(expired))];
    assert_eq!(error_of(&verify_refresh_token(&cookie, 100, &h)), Some((401, Problem::TokenExpired, None)));
    let h = vec![Event::Session(Lookup::Missing)];
    assert_eq!(error_of(&verify_refresh_token(&cookie, 100, &h)), Some((401, Problem::InvalidToken, None)));
    assert_eq!(error_of(&refresh_token(&None, &vec![])), Some((401, Problem::MissingIdentity, None)));
}

#[test]
fn login_rejections() {
    let l = LoginRequest { email: "ann@x.io".to_string(), password: "secret1".to_string() };
    assert_eq!(error_of(&login(&l, &vec![Event::User(Lookup::Missing)])), Some((404, Problem::WrongCredentials, None)));
    let h = vec![Event::User(Lookup::Found(user(7, "ann@x.io", true))), Event::Flag(false)];
    assert_eq!(error_of(&login(&l, &h)), Some((401, Problem::WrongCredentials, None)));
    let h = vec![Event::User(Lookup::Found(user(7, "ann@x.io", true))), Event::Flag(true), Event::Failed];
    assert_eq!(error_of(&login(&l, &h)), Some((500, Problem::TokenFailed, None)));
    let bad = LoginRequest { email: "annx.io".to_string(), password: "secret1".to_string() };
    assert_eq!(error_of(&login(&bad, &vec![])), Some((400, Problem::InvalidInput, None)));
}

#[test]
fn logout_needs_the_cookie() {
    assert_eq!(error_of(&logout(&None, &vec![])), Some((400, Problem::MissingCookie, None)));
    let c = Some("t".to_string());
    assert!(matches!(logout(&c, &vec![]), Step::Run(Action::DeleteSession(ref t)) if t == "t"));
    assert!(matches!(logout(&c, &vec![Event::Done]), Step::Reply(Reply::LoggedOut)));
    assert_eq!(error_of(&logout(&c, &vec![Event::Failed])), Some((500, Problem::SessionDeleteFailed, None)));
}

fn stored_reset(expires_at: i64, token: &str) -> ResetToken {
    ResetToken {
        id: Some(3),
        email: "ann@x.io".to_string(),
        token: token.to_string(),
        expires_at,
        created_at: 0,
        updated_at: 0,
    }
}

#[test]
fn forget_then_reset_consumes_the_token() {
    let e = EmailRequest { email: "ann@x.io".to_string() };
    let h = vec![Event::Text("123456".to_string()), Event::Text("$2b$12$cookie".to_string())];
    assert!(matches!(forget_password(&e, &h), Step::Run(Action::SendOtpEmail { .. })));
    let mut h2 = h;
    h2.push(Event::Done);
    let cookie = match forget_password(&e, &h2) {
        Step::Reply(Reply::ResetIssued { cookie }) => cookie,
        _ => panic!("no cookie"),
    };
    assert_eq!(cookie, "$2b$12$cookie");
    let req = ResetPassword { email: "ann@x.io".to_string(), new_password: "newpass1".to_string() };
    let c = Some(cookie);
    let stored = || stored_reset(1_800_000, "$2b$12$cookie");
    let mut h = vec![Event::Reset(Lookup::Found(stored()))];
    assert!(matches!(reset_password(&req, &c, 1_000, &h),
        Step::Run(Action::HashSecret(ref p)) if p == "newpass1"));
    h.push(Event::Text("$2b$12$new".to_string()));
    assert!(matches!(reset_password(&req, &c, 1_000, &h),
        Step::Run(Action::UpdatePassword { ref password_hash, .. }) if password_hash == "$2b$12$new"));
    h.push(Event::Done);
    assert!(matches!(reset_password(&req, &c, 1_000, &h), Step::Run(Action::DeleteResetToken(_))));
    h.push(Event::Done);
    assert!(matches!(reset_password(&req, &c, 1_000, &h), Step::Reply(Reply::PasswordReset)));
    // A second attempt with the same cookie: the token is gone.
    let h = vec![Event::Reset(Lookup::Missing)];
    assert_eq!(error_of(&reset_password(&req, &c, 2_000, &h)), Some((404, Problem::ResetTokenNotFound, None)));
    assert_eq!(error_of(&reset_password(&req, &None, 0, &vec![])), Some((400, Problem::MissingCookie, None)));
    let other = vec![Event::Reset(Lookup::Found(stored_reset(1_800_000, "$2b$12$other")))];
    assert_eq!(error_of(&reset_password(&req, &c, 0, &other)), Some((401, Problem::ResetTokenMismatch, None)));
    let h = vec![Event::Reset(Lookup::Found(stored())), Event::Failed];
    assert_eq!(error_of(&reset_password(&req, &c, 0, &h)), Some((500, Problem::HashFailed, None)));
    let h = vec![Event::Reset(Lookup::Found(stored())), Event::Text("$2b$12$new".to_string()), Event::Failed];
    assert_eq!(error_of(&reset_password(&req, &c, 0, &h)), Some((500, Problem::PasswordUpdateFailed, None)));
}

#[test]
fn expired_reset_token_is_deleted_and_refused() {
    let req = ResetPassword { email: "ann@x.io".to_string(), new_password: "newpass1".to_string() };
    let c = Some("$2b$12$cookie".to_string());
    let mut h = vec![Event::Reset(Lookup::Found(stored_reset(1_800_000, "$2b$12$cookie")))];
    assert!(matches!(reset_password(&req, &c, 1_800_001, &h),
        Step::Run(Action::DeleteResetToken(ref e)) if e == "ann@x.io"));
    h.push(Event::Done);
    assert_eq!(error_of(&reset_password(&req, &c, 1_800_001, &h)), Some((400, Problem::ResetTokenExpired, None)));
    h[1] = Event::Failed;
    assert_eq!(error_of(&reset_password(&req, &c, 1_800_001, &h)), Some((400, Problem::ResetTokenExpired, None)));
}

#[test]
fn change_password_checks_the_current_one() {
    let req = ChangePassword { current_password: "secret1".to_string(), new_password: "secret2".to_string() };
    assert_eq!(error_of(&change_password(&None, &req, &vec![])), Some((401, Problem::MissingIdentity, None)));
    let c = claims(7);
    let h = vec![Event::User(Lookup::Found(user(7, "ann@x.io", true))), Event::Flag(false)];
    assert_eq!(error_of(&change_password(&c, &req, &h)), Some((401, Problem::WrongPassword, None)));
    let mut h = vec![Event::User(Lookup::Found(user(7, "ann@x.io", true))), Event::Flag(true)];
    assert!(matches!(change_password(&c, &req, &h), Step::Run(Action::HashSecret(ref p)) if p == "secret2"));
    h.push(Event::Text("$2b$12$two".to_string()));
    assert!(matches!(change_password(&c, &req, &h),
        Step::Run(Action::UpdatePassword { ref password_hash, .. }) if password_hash == "$2b$12$two"));
    h.push(Event::Done);
    assert!(matches!(change_password(&c, &req, &h), Step::Reply(Reply::PasswordChanged)));
    let short = ChangePassword { current_password: "secret1".to_string(), new_password: "s2".to_string() };
    let h = vec![Event::User(Lookup::Found(user(7, "ann@x.io", true)))];
    assert_eq!(error_of(&change_password(&c, &short, &h)), Some((400, Problem::InvalidPassword, None)));
}

#[test]
fn profile_lookup() {
    let c = claims(7);
    assert!(matches!(get_user_profile(&c, &vec![]), Step::Run(Action::FindActiveUser(_))));
    assert!(matches!(get_user_profile(&c, &vec![Event::User(Lookup::Found(user(7, "ann@x.io", true)))]),
        Step::Reply(Reply::Profile)));
    assert_eq!(error_of(&get_user_profile(&c, &vec![Event::User(Lookup::Missing)])), Some((404, Problem::UserNotFound, None)));
}

#[test]
fn bearer_header_parsing() {
    assert_eq!(bearer_token("Bearer abc.def"), Some("abc.def".to_string()));
    assert_eq!(bearer_token("Bearer "), Some(String::new()));
    assert_eq!(bearer_token("bearer abc"), None);
    assert_eq!(bearer_token("Basic abc"), None);
    assert_eq!(bearer_token("Bear"), None);
}

#[test]
fn claims_carry_their_lifetimes() {
    let a = AuthService { secret_key: "k".to_string() };
    let c = a.access_claims(7, "ann@x.io", 1_000);
    assert_eq!(c.exp, 1_900);
    assert_eq!(c.email, "ann@x.io");
    let r = a.refresh_claims(7, "ann@x.io", 1_000);
    assert_eq!(r.exp, 1_000 + 604_800);
}

fn request(from: u128, to: u128) -> FriendRequest {
    FriendRequest { id: Some(50), from, to, message: None, created_at: 0, updated_at: 0 }
}

#[test]
fn accept_by_someone_else_is_forbidden() {
    let h = vec![Event::Request(Lookup::Found(request(1, 2)))];
    assert_eq!(error_of(&accept_friend_request(Some(50), &claims(3), &h)), Some((403, Problem::NotRecipient, None)));
    assert_eq!(error_of(&decline_friend_request(Some(50), &claims(3), &h)), Some((403, Problem::NotRecipient, None)));
}

#[test]
fn accept_and_decline_paths() {
    assert_eq!(error_of(&accept_friend_request(None, &claims(2), &vec![])), Some((400, Problem::InvalidInput, None)));
    assert_eq!(error_of(&accept_friend_request(Some(50), &None, &vec![])), Some((401, Problem::MissingIdentity, None)));
    let h = vec![Event::Request(Lookup::Missing)];
    assert_eq!(error_of(&accept_friend_request(Some(50), &claims(2), &h)), Some((404, Problem::RequestNotFound, None)));
    let mut h = vec![Event::Request(Lookup::Found(request(1, 2)))];
    assert!(matches!(accept_friend_request(Some(50), &claims(2), &h), Step::Run(Action::CreateFriend { a: 1, b: 2 })));
    h.push(Event::Done);
    assert!(matches!(accept_friend_request(Some(50), &claims(2), &h),
        Step::Run(Action::DeleteRequestAndFetch { request: 50, user: 1 })));
    let preview = UserPreview { id: 1, fullname: Some("Bo".to_string()), avatar_url: None, bio: None };
    h.push(Event::DeletedAnd(true, Lookup::Found(preview)));
    assert!(matches!(accept_friend_request(Some(50), &claims(2), &h), Step::Reply(Reply::FriendAdded)));
    let h = vec![Event::Request(Lookup::Found(request(1, 2))), Event::Done, Event::DeletedAnd(false, Lookup::Missing)];
    assert_eq!(error_of(&accept_friend_request(Some(50), &claims(2), &h)), Some((500, Problem::RequestDeleteFailed, None)));
    let h = vec![Event::Request(Lookup::Found(request(1, 2))), Event::Done];
    let s = decline_friend_request(Some(50), &claims(2), &h);
    assert!(matches!(s, Step::Reply(Reply::RequestDeclined)));
    assert_eq!(s_status(&s), 204);
}

#[test]
fn friend_request_checks() {
    let p = FriendRequestParams { to_user_id: 2, message: Some("hi".to_string()) };
    let selfp = FriendRequestParams { to_user_id: 1, message: None };
    assert_eq!(error_of(&send_friend_request(&claims(1), &selfp, &vec![])), Some((400, Problem::SelfRequest, None)));
    assert_eq!(error_of(&send_friend_request(&claims(1), &p, &vec![Event::Exists(Lookup::Missing)])),
        Some((404, Problem::TargetNotFound, None)));
    let h = vec![Event::Exists(Lookup::Found(2)), Event::Relations(Lookup::Found(9), Lookup::Missing)];
    assert_eq!(error_of(&send_friend_request(&claims(1), &p, &h)), Some((400, Problem::AlreadyFriends, None)));
    let h = vec![Event::Exists(Lookup::Found(2)), Event::Relations(Lookup::Missing, Lookup::Found(1))];
    assert_eq!(error_of(&send_friend_request(&claims(1), &p, &h)), Some((400, Problem::RequestAlreadySent, None)));
    let h = vec![Event::Exists(Lookup::Found(2)), Event::Relations(Lookup::Failed, Lookup::Found(2))];
    assert_eq!(error_of(&send_friend_request(&claims(1), &p, &h)), Some((400, Problem::RequestAlreadyReceived, None)));
    let mut h = vec![Event::Exists(Lookup::Found(2)), Event::Relations(Lookup::Failed, Lookup::Missing)];
    assert!(matches!(send_friend_request(&claims(1), &p, &h),
        Step::Run(Action::CreateFriendRequest { from: 1, to: 2, message: Some(ref m) }) if m == "hi"));
    h.push(Event::Done);
    let s = send_friend_request(&claims(1), &p, &h);
    assert!(matches!(s, Step::Reply(Reply::RequestSent)));
    assert_eq!(s_status(&s), 201);
}

#[test]
fn message_without_friendship_is_refused() {
    let body = SendDirecMessage { recipient_id: 2, content: "hello".to_string(), conversation_id: None };
    assert!(matches!(send_direct_message(&claims(9), &body, &vec![]),
        Step::Run(Action::FindFriendship { low: 2, high: 9 })));
    let h = vec![Event::Exists(Lookup::Missing)];
    assert_eq!(error_of(&send_direct_message(&claims(9), &body, &h)), Some((401, Problem::NotFriends, None)));
    let h = vec![Event::Exists(Lookup::Failed)];
    assert_eq!(error_of(&send_direct_message(&claims(9), &body, &h)), Some((401, Problem::NotFriends, None)));
}

#[test]
fn direct_message_reuses_the_existing_conversation() {
    let body = SendDirecMessage { recipient_id: 2, content: "hello".to_string(), conversation_id: None };
    let mut h = vec![Event::Exists(Lookup::Found(77)), Event::Exists(Lookup::Found(400))];
    assert!(matches!(send_direct_message(&claims(1), &body, &h),
        Step::Run(Action::CreateMessage { conversation: 400, sender: 1, .. })));
    h.push(Event::Done);
    assert!(matches!(send_direct_message(&claims(1), &body, &h),
        Step::Run(Action::UpdateConversation { conversation: 400, sender: 1 })));
    h.push(Event::Done);
    assert!(matches!(send_direct_message(&claims(1), &body, &h), Step::Reply(Reply::MessageSent)));
}

#[test]
fn direct_message_paths() {
    let blank = SendDirecMessage { recipient_id: 2, content: "  ".to_string(), conversation_id: None };
    assert_eq!(error_of(&send_direct_message(&claims(1), &blank, &vec![])), Some((400, Problem::EmptyMessage, None)));
    let body = SendDirecMessage { recipient_id: 2, content: "hello".to_string(), conversation_id: None };
    let mut h = vec![Event::Exists(Lookup::Found(77))];
    assert!(matches!(send_direct_message(&claims(1), &body, &h),
        Step::Run(Action::FindDirectConversation { user: 1, other: 2 })));
    h.push(Event::Exists(Lookup::Missing));
    assert!(matches!(send_direct_message(&claims(1), &body, &h),
        Step::Run(Action::CreateDirectConversation { sender: 1, recipient: 2 })));
    h.push(Event::Created(500));
    assert!(matches!(send_direct_message(&claims(1), &body, &h),
        Step::Run(Action::CreateMessage { conversation: 500, sender: 1, .. })));
    h.push(Event::Done);
    assert!(matches!(send_direct_message(&claims(1), &body, &h),
        Step::Run(Action::UpdateConversation { conversation: 500, sender: 1 })));
    h.push(Event::Done);
    let s = send_direct_message(&claims(1), &body, &h);
    assert!(matches!(s, Step::Reply(Reply::MessageSent)));
    assert_eq!(s_status(&s), 201);
    let h = vec![Event::Exists(Lookup::Found(77)), Event::Exists(Lookup::Missing), Event::Failed];
    assert_eq!(error_of(&send_direct_message(&claims(1), &body, &h)), Some((500, Problem::ConversationCreateFailed, None)));
    let h = vec![Event::Exists(Lookup::Found(77)), Event::Exists(Lookup::Failed)];
    assert_eq!(error_of(&send_direct_message(&claims(1), &body, &h)), Some((500, Problem::LookupFailed, None)));
    let given = SendDirecMessage { recipient_id: 2, content: "hello".to_string(), conversation_id: Some(600) };
    let h = vec![Event::Exists(Lookup::Found(77)), Event::Exists(Lookup::Missing)];
    assert_eq!(error_of(&send_direct_message(&claims(1), &given, &h)), Some((404, Problem::ConversationNotFound, None)));
    let h = vec![Event::Exists(Lookup::Found(77)), Event::Exists(Lookup::Found(600))];
    assert!(matches!(send_direct_message(&claims(1), &given, &h),
        Step::Run(Action::CreateMessage { conversation: 600, .. })));
}

#[test]
fn conversation_creation_paths() {
    let direct = CreateConversationRequest { _type: ConversationType::Direct, name: None, participant_ids: Some(vec![4]) };
    assert!(matches!(create_conversation(&claims(1), &direct, &vec![]),
        Step::Run(Action::FindDirectConversation { user: 1, other: 4 })));
    assert!(matches!(create_conversation(&claims(1), &direct, &vec![Event::Exists(Lookup::Found(30))]),
        Step::Reply(Reply::ConversationReady(30))));
    let h = vec![Event::Exists(Lookup::Missing), Event::Created(31)];
    assert!(matches!(create_conversation(&claims(1), &direct, &h), Step::Reply(Reply::ConversationReady(31))));
    let unnamed = CreateConversationRequest { _type: ConversationType::Group, name: None, participant_ids: Some(vec![4]) };
    assert_eq!(error_of(&create_conversation(&claims(1), &unnamed, &vec![])), Some((400, Problem::InvalidInput, None)));
    let empty = CreateConversationRequest { _type: ConversationType::Direct, name: None, participant_ids: Some(vec![]) };
    assert_eq!(error_of(&create_conversation(&claims(1), &empty, &vec![])), Some((400, Problem::InvalidInput, None)));
    let group = CreateConversationRequest { _type: ConversationType::Group, name: Some("g".to_string()), participant_ids: Some(vec![4, 5]) };
    match create_conversation(&claims(1), &group, &vec![]) {
        Step::Run(Action::CreateGroupConversation { creator, name, members }) => {
            assert_eq!(creator, 1);
            assert_eq!(name.as_deref(), Some("g"));
            assert_eq!(members, vec![4, 5]);
        }
        _ => panic!("no group creation asked"),
    }
    assert!(matches!(create_conversation(&claims(1), &group, &vec![Event::Created(32)]),
        Step::Reply(Reply::ConversationReady(32))));
    assert_eq!(error_of(&create_conversation(&claims(1), &group, &vec![Event::Failed])),
        Some((500, Problem::ConversationCreateFailed, None)));
}
