//! The vocabulary of the endpoint flows. A flow is a function from its request
//! and the results seen so far to the next step: either an outside action for
//! the caller to perform (a store query, a hash check, a signature, a mail),
//! or the reply. The caller performs the action, appends the result to the
//! history and asks again.

use vstd::prelude::*;

use crate::models::{FriendRequest, Id, Otp, ResetToken, Session, User, UserPreview};

verus! {

pub const STATUS_OK: u16 = 200;
pub const STATUS_CREATED: u16 = 201;
pub const STATUS_NO_CONTENT: u16 = 204;
pub const STATUS_BAD_REQUEST: u16 = 400;
pub const STATUS_UNAUTHORIZED: u16 = 401;
pub const STATUS_FORBIDDEN: u16 = 403;
pub const STATUS_NOT_FOUND: u16 = 404;
pub const STATUS_CONFLICT: u16 = 409;
pub const STATUS_TOO_MANY_REQUESTS: u16 = 429;
pub const STATUS_INTERNAL: u16 = 500;

/// The answer of a store lookup.
pub enum Lookup<T> {
    Failed,
    Missing,
    Found(T),
}

/// The result of an action, as the caller hands it back.
pub enum Event {
    /// A write, a mail or a signature failed.
    Failed,
    /// A write went through.
    Done,
    /// A yes/no answer: whether a hash matches, whether an account exists.
    Flag(bool),
    /// A count of stored records.
    Count(u64),
    /// A text produced outside: a signed token, a mailed code, a cookie value.
    Text(String),
    /// The id of a record just created.
    Created(Id),
    User(Lookup<User>),
    Otp(Lookup<Otp>),
    Reset(Lookup<ResetToken>),
    Session(Lookup<Session>),
    Request(Lookup<FriendRequest>),
    Preview(Lookup<UserPreview>),
    /// Whether a record exists, for lookups whose record the flow does not read.
    Exists(Lookup<Id>),
    /// Two lookups made side by side: a friendship edge and a pending request
    /// (by its sender) between the same two users.
    Relations(Lookup<Id>, Lookup<Id>),
    /// Two writes made side by side; each is true when it went through.
    Both(bool, bool),
    /// A deletion made beside a lookup.
    DeletedAnd(bool, Lookup<UserPreview>),
}

/// An outside action that a flow asks for.
pub enum Action {
    /// Look up the active account with this e-mail address.
    FindActiveUser(String),
    /// Whether any account, active or not, has this e-mail address.
    UserExists(String),
    /// Hash a secret with a fresh salt and hand back the hash.
    HashSecret(String),
    /// Store a new inactive account with this password hash.
    CreateUser { fullname: String, email: String, password_hash: String },
    /// Draw a one-time code for this address, store its hash, and hand back
    /// the plain code.
    StoreOtp(String),
    /// Mail a code, without waiting for the outcome.
    SendOtpEmail { address: String, code: String },
    /// Look up the newest unused one-time code of this address.
    FindUnusedOtp(String),
    /// Look up the newest one-time code of this address, used or not.
    FindLastOtp(String),
    /// Count the unused one-time codes of this address.
    CountUnusedOtps(String),
    /// Check a plain text against a stored hash.
    CheckSecret { hash: String, plain: String },
    /// Activate the account and consume its one-time code, side by side.
    ActivateAndConsume(String),
    SignAccessToken { user_id: Id, email: String },
    SignRefreshToken { user_id: Id, email: String },
    CreateSession { user_id: Id, email: String, refresh_token: String },
    DeleteSession(String),
    FindSession(String),
    /// Draw a reset token for this address, store its hash (replacing any
    /// earlier one), and hand back the hash for the cookie.
    StoreResetToken(String),
    FindResetToken(String),
    /// Store a new password hash for the account with this address.
    UpdatePassword { email: String, password_hash: String },
    DeleteResetToken(String),
    /// Look up the active account with this id.
    FindUserById(Id),
    /// Look up, side by side, a friendship and a pending request between two users.
    FindRelations { a: Id, b: Id },
    CreateFriendRequest { from: Id, to: Id, message: Option<String> },
    FindFriendRequest(Id),
    /// Store the friendship of two users, in canonical order.
    CreateFriend { a: Id, b: Id },
    /// Delete a request and, side by side, fetch the preview of a user.
    DeleteRequestAndFetch { request: Id, user: Id },
    DeleteFriendRequest(Id),
    /// Look up the friendship edge of two users given in canonical order.
    FindFriendship { low: Id, high: Id },
    FindConversation(Id),
    FindDirectConversation { user: Id, other: Id },
    CreateDirectConversation { sender: Id, recipient: Id },
    /// Store a group conversation made by `creator`, with a name and members.
    CreateGroupConversation { creator: Id, name: Option<String>, members: Vec<Id> },
    CreateMessage { conversation: Id, sender: Id, content: String },
    /// Fold the message just created into its conversation and store it.
    UpdateConversation { conversation: Id, sender: Id },
}

/// Why a request was turned down.
#[derive(Debug, Clone, Copy, PartialEq, Eq, Structural)]
pub enum Problem {
    InvalidInput,
    EmailInUse,
    UserNotFound,
    WrongCredentials,
    LookupFailed,
    CreateFailed,
    OtpStoreFailed,
    TokenFailed,
    RefreshTokenFailed,
    SessionStoreFailed,
    MissingCookie,
    SessionDeleteFailed,
    MissingIdentity,
    OtpNotFound,
    OtpExpired,
    OtpMismatch,
    HashCheckFailed,
    ActivationFailed,
    OtpUpdateFailed,
    NoPreviousOtp,
    ResendTooSoon,
    ResendLimit,
    CountFailed,
    ResetTokenStoreFailed,
    ResetTokenNotFound,
    ResetTokenExpired,
    ResetTokenMismatch,
    PasswordUpdateFailed,
    ResetTokenDeleteFailed,
    InvalidPassword,
    HashFailed,
    WrongPassword,
    MissingToken,
    InvalidToken,
    TokenExpired,
    SelfRequest,
    TargetNotFound,
    AlreadyFriends,
    RequestAlreadySent,
    RequestAlreadyReceived,
    RequestNotFound,
    NotRecipient,
    FriendCreateFailed,
    RequestDeleteFailed,
    SenderLookupFailed,
    EmptyMessage,
    NotFriends,
    ConversationNotFound,
    ConversationCreateFailed,
    MessageCreateFailed,
    ConversationUpdateFailed,
}

/// The reply of a flow.
pub enum Reply {
    Error { status: u16, problem: Problem, retry_after: Option<i64> },
    /// A check let the request through.
    Admitted,
    Registered,
    LoggedIn { access_token: String, refresh_token: String },
    LoggedOut,
    Refreshed { access_token: String },
    OtpVerified,
    OtpResent,
    ResetIssued { cookie: String },
    PasswordReset,
    PasswordChanged,
    /// The account of the caller is to be shown.
    Profile,
    RequestSent,
    FriendAdded,
    RequestDeclined,
    MessageSent,
    ConversationReady(Id),
}

pub enum Step {
    Run(Action),
    Reply(Reply),
}

pub open spec fn fail(status: u16, problem: Problem) -> Step {
    Step::Reply(Reply::Error { status, problem, retry_after: None })
}

pub fn failure(status: u16, problem: Problem) -> (r: Step)
    ensures
        r == fail(status, problem),
{
    Step::Reply(Reply::Error { status, problem, retry_after: None })
}

impl Reply {
    pub open spec fn spec_status(&self) -> u16 {
        match self {
            Reply::Error { status, .. } => *status,
            Reply::RequestSent | Reply::MessageSent => STATUS_CREATED,
            Reply::RequestDeclined => STATUS_NO_CONTENT,
            _ => STATUS_OK,
        }
    }

    /// The HTTP status of the reply.
    pub fn status(&self) -> (r: u16)
        ensures
            r == self.spec_status(),
    {
        match self {
            Reply::Error { status, .. } => *status,
            Reply::RequestSent | Reply::MessageSent => STATUS_CREATED,
            Reply::RequestDeclined => STATUS_NO_CONTENT,
            _ => STATUS_OK,
        }
    }
}

} // verus!
