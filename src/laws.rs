//! Properties that relate several steps of the flows, proved over their plans.

use vstd::prelude::*;

use crate::auth::{
    change_password_plan, login_plan, refresh_plan, register_plan, resend_plan,
    reset_password_plan, session_check_plan, verify_otp_plan, ChangePassword, EmailRequest,
    LoginRequest, RegisterRequest, ResetPassword, VerifyOtpRequest,
};
use crate::clock::{is_expired, whole_seconds, MAX_UNUSED_OTPS, RESEND_COOLDOWN};
use crate::flow::{
    fail, Action, Event, Lookup, Problem, Reply, Step, STATUS_BAD_REQUEST, STATUS_CONFLICT,
    STATUS_FORBIDDEN, STATUS_NOT_FOUND, STATUS_TOO_MANY_REQUESTS, STATUS_UNAUTHORIZED,
};
use crate::auth::Claims;
use crate::friends::{accept_plan, ordered};
use crate::messaging::{send_direct_plan, SendDirecMessage};
use crate::models::{FriendRequest, Id, Otp, ResetToken, Session, User};
use crate::validation::{email_ok, fullname_ok, non_blank, password_ok};

verus! {

/// A registration whose lookup finds the address taken by an account ends in
/// a conflict, whatever is handed back afterwards, and at no point asks for
/// an account to be created.
pub proof fn taken_email_is_a_conflict(req: RegisterRequest, h: Seq<Event>)
    requires
        fullname_ok(req.fullname@) && email_ok(req.email@) && password_ok(req.password@),
        h.len() >= 1,
        h[0] == Event::Flag(true),
    ensures
        register_plan(req, h) == fail(STATUS_CONFLICT, Problem::EmailInUse),
        forall|k: int|
            0 <= k <= h.len() ==> !(#[trigger] register_plan(req, h.subrange(0, k)) matches Step::Run(
                Action::CreateUser { .. },
            )),
{
    assert forall|k: int| 0 <= k <= h.len() implies !(#[trigger] register_plan(
        req,
        h.subrange(0, k),
    ) matches Step::Run(Action::CreateUser { .. })) by {
        if k > 0 {
            assert(h.subrange(0, k)[0] == h[0]);
        }
    }
}

/// A one-time code record that is used, or expired at `now`, never leads to
/// a verified account: whatever the hash check says, the flow neither
/// succeeds nor asks for the activation.
pub proof fn used_or_expired_code_is_refused(
    req: VerifyOtpRequest,
    now: i64,
    h: Seq<Event>,
    record: Otp,
)
    requires
        h.len() >= 2,
        h[1] == Event::Otp(Lookup::Found(record)),
        record.is_used || is_expired(record.expires_at, now),
    ensures
        verify_otp_plan(req, now, h) != Step::Reply(Reply::OtpVerified),
        !(verify_otp_plan(req, now, h) matches Step::Run(Action::ActivateAndConsume(_))),
{
}

/// Friendship edges are keyed by the canonical order of the two ids: the
/// smaller comes first, and the key does not depend on which of the two
/// asks; so a direct message from either side looks up the same edge.
pub proof fn friendship_key_is_canonical(a: Id, b: Id, content: String)
    requires
        a != b,
        non_blank(content@),
    ensures
        ordered(a, b).0 < ordered(a, b).1,
        ordered(a, b) == ordered(b, a),
        send_direct_plan(
            Some(Claims { user_id: a, email: arbitrary(), exp: 0 }),
            SendDirecMessage { recipient_id: b, content, conversation_id: None },
            Seq::empty(),
        ) == send_direct_plan(
            Some(Claims { user_id: b, email: arbitrary(), exp: 0 }),
            SendDirecMessage { recipient_id: a, content, conversation_id: None },
            Seq::empty(),
        ),
{
}

/// A resend within `RESEND_COOLDOWN` seconds of the newest code is refused
/// as too many requests, with the seconds left to wait.
pub proof fn resend_within_cooldown_is_throttled(
    req: EmailRequest,
    now: i64,
    h: Seq<Event>,
    last: Otp,
)
    requires
        email_ok(req.email@),
        h.len() >= 2,
        h[0] == Event::Flag(true),
        h[1] == Event::Otp(Lookup::Found(last)),
        whole_seconds(now - last.created_at) < RESEND_COOLDOWN,
    ensures
        resend_plan(req, now, h) == Step::Reply(
            Reply::Error {
                status: STATUS_TOO_MANY_REQUESTS,
                problem: Problem::ResendTooSoon,
                retry_after: Some((RESEND_COOLDOWN - whole_seconds(now - last.created_at)) as i64),
            },
        ),
{
}

/// With `MAX_UNUSED_OTPS` unused codes outstanding a resend is refused,
/// however long ago the newest code was made, and no new code is stored; for
/// a well-formed address the refusal is "too many requests".
pub proof fn resend_over_limit_is_refused(
    req: EmailRequest,
    now: i64,
    h: Seq<Event>,
    last: Otp,
    unused: u64,
)
    requires
        h.len() >= 3,
        h[0] == Event::Flag(true),
        h[1] == Event::Otp(Lookup::Found(last)),
        h[2] == Event::Count(unused),
        unused >= MAX_UNUSED_OTPS,
    ensures
        resend_plan(req, now, h) matches Step::Reply(Reply::Error { .. }),
        email_ok(req.email@) ==> (resend_plan(req, now, h) matches Step::Reply(
            Reply::Error { status, .. },
        ) && status == STATUS_TOO_MANY_REQUESTS),
{
}

/// Without a friendship between sender and recipient a direct message is
/// refused as unauthorised, whatever is handed back afterwards; the only
/// action asked before is the friendship lookup, so no message or
/// conversation is written.
pub proof fn message_without_friendship_is_refused(
    claims: Option<Claims>,
    body: SendDirecMessage,
    h: Seq<Event>,
)
    requires
        non_blank(body.content@),
        claims is Some,
        h.len() >= 1,
        !(h[0] matches Event::Exists(Lookup::Found(_))),
    ensures
        send_direct_plan(claims, body, h) == fail(STATUS_UNAUTHORIZED, Problem::NotFriends),
        send_direct_plan(claims, body, Seq::empty()) matches Step::Run(Action::FindFriendship { .. }),
{
}

/// A direct message without a conversation id goes into the pair's existing
/// direct conversation when the lookup finds one: the message is stored
/// there, and no second conversation is asked for.
pub proof fn direct_message_reuses_the_conversation(
    c: Claims,
    body: SendDirecMessage,
    existing: Id,
    h: Seq<Event>,
)
    requires
        non_blank(body.content@),
        body.conversation_id is None,
        h.len() >= 2,
        h[0] matches Event::Exists(Lookup::Found(_)),
        h[1] == Event::Exists(Lookup::Found(existing)),
    ensures
        send_direct_plan(Some(c), body, h.subrange(0, 1)) == Step::Run(
            Action::FindDirectConversation { user: c.user_id, other: body.recipient_id },
        ),
        send_direct_plan(Some(c), body, h.subrange(0, 2)) == Step::Run(
            Action::CreateMessage { conversation: existing, sender: c.user_id, content: body.content },
        ),
        forall|k: int|
            0 <= k <= h.len() ==> !(#[trigger] send_direct_plan(Some(c), body, h.subrange(0, k))
                matches Step::Run(Action::CreateDirectConversation { .. })),
{
    assert forall|k: int| 0 <= k <= h.len() implies !(#[trigger] send_direct_plan(
        Some(c),
        body,
        h.subrange(0, k),
    ) matches Step::Run(Action::CreateDirectConversation { .. })) by {
        if k > 0 {
            assert(h.subrange(0, k)[0] == h[0]);
        }
        if k > 1 {
            assert(h.subrange(0, k)[1] == h[1]);
        }
    }
}

/// The account lifecycle end to end: after a login whose password matches
/// and whose tokens are signed and session stored, the reply carries both
/// tokens; the session check then admits the refresh token while its session
/// is unexpired, and the refresh endpoint answers with a newly signed access
/// token without any password.
pub proof fn login_then_refresh(
    login: LoginRequest,
    user: User,
    access: String,
    refresh: String,
    session: Session,
    now: i64,
    fresh: String,
)
    requires
        email_ok(login.email@) && password_ok(login.password@),
        user.id is Some,
        !is_expired(session.expires_at, now),
    ensures
        login_plan(
            login,
            seq![
                Event::User(Lookup::Found(user)),
                Event::Flag(true),
                Event::Text(access),
                Event::Text(refresh),
                Event::Done,
            ],
        ) == Step::Reply(Reply::LoggedIn { access_token: access, refresh_token: refresh }),
        session_check_plan(Some(refresh), now, Seq::empty()) == Step::Run(Action::FindSession(refresh)),
        session_check_plan(Some(refresh), now, seq![Event::Session(Lookup::Found(session))])
            == Step::Reply(Reply::Admitted),
        refresh_plan(Some(session), seq![Event::User(Lookup::Found(user))]) == Step::Run(
            Action::SignAccessToken { user_id: user.id->0, email: user.email },
        ),
        refresh_plan(Some(session), seq![Event::User(Lookup::Found(user)), Event::Text(fresh)])
            == Step::Reply(Reply::Refreshed { access_token: fresh }),
{
}

/// A reset whose cookie equals the stored, unexpired token hash replaces the
/// password and deletes the token before it succeeds; a later attempt,
/// finding no token, fails as not found and never touches the password; and
/// a token found expired is deleted and the reset refused.
pub proof fn reset_consumes_the_token(
    req: ResetPassword,
    cookie: String,
    now: i64,
    stored: ResetToken,
    hash: String,
    later: Seq<Event>,
    stale: ResetToken,
    after: Event,
)
    requires
        email_ok(req.email@) && password_ok(req.new_password@),
        !is_expired(stored.expires_at, now),
        cookie@ == stored.token@,
        later.len() >= 1,
        later[0] == Event::Reset(Lookup::<ResetToken>::Missing),
        is_expired(stale.expires_at, now),
    ensures
        reset_password_plan(req, Some(cookie), now, seq![Event::Reset(Lookup::Found(stored))])
            == Step::Run(Action::HashSecret(req.new_password)),
        reset_password_plan(
            req,
            Some(cookie),
            now,
            seq![Event::Reset(Lookup::Found(stored)), Event::Text(hash)],
        ) == Step::Run(Action::UpdatePassword { email: req.email, password_hash: hash }),
        reset_password_plan(
            req,
            Some(cookie),
            now,
            seq![Event::Reset(Lookup::Found(stored)), Event::Text(hash), Event::Done],
        ) == Step::Run(Action::DeleteResetToken(req.email)),
        reset_password_plan(
            req,
            Some(cookie),
            now,
            seq![Event::Reset(Lookup::Found(stored)), Event::Text(hash), Event::Done, Event::Done],
        ) == Step::Reply(Reply::PasswordReset),
        reset_password_plan(req, Some(cookie), now, later) == fail(
            STATUS_NOT_FOUND,
            Problem::ResetTokenNotFound,
        ),
        reset_password_plan(req, Some(cookie), now, seq![Event::Reset(Lookup::Found(stale))])
            == Step::Run(Action::DeleteResetToken(req.email)),
        reset_password_plan(req, Some(cookie), now, seq![Event::Reset(Lookup::Found(stale)), after])
            == fail(STATUS_BAD_REQUEST, Problem::ResetTokenExpired),
{
}

/// Only hashes reach the store: whenever registration, reset or password
/// change asks to store a password, what it stores is the text handed back
/// for the step that hashed the submitted password, and that step is asked
/// just before.
pub proof fn only_hashes_are_stored(
    reg: RegisterRequest,
    reset: ResetPassword,
    change: ChangePassword,
    claims: Option<Claims>,
    cookie: Option<String>,
    now: i64,
    h: Seq<Event>,
)
    ensures
        register_plan(reg, h) matches Step::Run(Action::CreateUser { password_hash, .. }) ==> h.len()
            == 2 && h[1] == Event::Text(password_hash) && register_plan(reg, h.subrange(0, 1))
            == Step::Run(Action::HashSecret(reg.password)),
        reset_password_plan(reset, cookie, now, h) matches Step::Run(
            Action::UpdatePassword { password_hash, .. },
        ) ==> h.len() == 2 && h[1] == Event::Text(password_hash) && reset_password_plan(
            reset,
            cookie,
            now,
            h.subrange(0, 1),
        ) == Step::Run(Action::HashSecret(reset.new_password)),
        change_password_plan(claims, change, h) matches Step::Run(
            Action::UpdatePassword { password_hash, .. },
        ) ==> h.len() == 3 && h[2] == Event::Text(password_hash) && change_password_plan(
            claims,
            change,
            h.subrange(0, 2),
        ) == Step::Run(Action::HashSecret(change.new_password)),
{
    if h.len() >= 1 {
        assert(h.subrange(0, 1)[0] == h[0]);
    }
    if h.len() >= 2 {
        assert(h.subrange(0, 2)[0] == h[0]);
        assert(h.subrange(0, 2)[1] == h[1]);
    }
}

/// A request answered by anyone but its recipient is refused as forbidden,
/// whatever is handed back afterwards, and at no point is the friendship
/// stored or the request deleted.
pub proof fn only_the_recipient_accepts(
    request_id: Id,
    claims: Claims,
    h: Seq<Event>,
    request: FriendRequest,
)
    requires
        h.len() >= 1,
        h[0] == Event::Request(Lookup::Found(request)),
        request.to != claims.user_id,
    ensures
        accept_plan(Some(request_id), Some(claims), h) == fail(STATUS_FORBIDDEN, Problem::NotRecipient),
        forall|k: int|
            0 <= k <= h.len() ==> {
                let s = #[trigger] accept_plan(Some(request_id), Some(claims), h.subrange(0, k));
                !(s matches Step::Run(Action::CreateFriend { .. })) && !(s matches Step::Run(
                    Action::DeleteRequestAndFetch { .. },
                ))
            },
{
    assert forall|k: int| 0 <= k <= h.len() implies {
        let s = #[trigger] accept_plan(Some(request_id), Some(claims), h.subrange(0, k));
        !(s matches Step::Run(Action::CreateFriend { .. })) && !(s matches Step::Run(
            Action::DeleteRequestAndFetch { .. },
        ))
    } by {
        if k > 0 {
            assert(h.subrange(0, k)[0] == h[0]);
        }
    }
}

} // verus!
