use std::collections::HashMap;
use vstd::prelude::*;

use crate::clock::now_millis;

verus! {

/// A document identifier: the twelve bytes of a store object id, read as a
/// big-endian number, so that ids compare as their bytes do.
pub type Id = u128;

/// Every id fits in twelve bytes.
pub open spec fn id_ok(id: Id) -> bool {
    id < 0x1_0000_0000_0000_0000_0000_0000u128
}

/// Relies on mongodb::bson::oid::ObjectId::new: a fresh twelve-byte object id
/// (time, process value and counter), read as a big-endian number.
#[verifier::external_body]
pub(crate) fn fresh_id() -> (r: Id)
    ensures
        id_ok(r),
{
    let b = mongodb::bson::oid::ObjectId::new().bytes();
    let mut wide = [0u8; 16];
    wide[4..].copy_from_slice(&b);
    u128::from_be_bytes(wide)
}

/// The value of a hexadecimal digit, either case; `None` for another character.
pub open spec fn hex_digit(c: char) -> Option<int> {
    if '0' <= c && c <= '9' {
        Some(c as int - '0' as int)
    } else if 'a' <= c && c <= 'f' {
        Some(c as int - 'a' as int + 10)
    } else if 'A' <= c && c <= 'F' {
        Some(c as int - 'A' as int + 10)
    } else {
        None
    }
}

/// Whether every character is a hexadecimal digit.
pub open spec fn all_hex(s: Seq<char>) -> bool {
    forall|i: int| 0 <= i < s.len() ==> (#[trigger] hex_digit(s[i])) is Some
}

/// The number that a run of hexadecimal digits writes, most significant first.
pub open spec fn hex_value(s: Seq<char>) -> int
    decreases s.len(),
{
    if s.len() == 0 {
        0
    } else {
        hex_value(s.drop_last()) * 16 + hex_digit(s.last())->0
    }
}

/// Sixteen to the power `n`.
pub open spec fn pow16(n: nat) -> int
    decreases n,
{
    if n == 0 {
        1
    } else {
        16 * pow16((n - 1) as nat)
    }
}

proof fn pow16_grows(m: nat, n: nat)
    requires
        m <= n,
    ensures
        1 <= pow16(m) <= pow16(n),
    decreases n,
{
    if n > m {
        pow16_grows(m, (n - 1) as nat);
    } else if n > 0 {
        pow16_grows(0, (n - 1) as nat);
    }
}

proof fn hex_value_bound(s: Seq<char>)
    requires
        all_hex(s),
    ensures
        0 <= hex_value(s) < pow16(s.len()),
    decreases s.len(),
{
    if s.len() > 0 {
        let t = s.drop_last();
        assert(all_hex(t)) by {
            assert forall|i: int| 0 <= i < t.len() implies (#[trigger] hex_digit(t[i])) is Some by {
                assert(t[i] == s[i]);
            }
        }
        hex_value_bound(t);
        assert(hex_digit(s[s.len() - 1]) is Some);
        let p = pow16(t.len());
        let d = hex_digit(s.last())->0;
        assert(0 <= d < 16);
        assert(hex_value(t) * 16 + d < p * 16) by (nonlinear_arith)
            requires
                0 <= hex_value(t) < p,
                0 <= d < 16,
        ;
    }
}

proof fn pow16_24()
    ensures
        pow16(24) == 0x1_0000_0000_0000_0000_0000_0000int,
{
    reveal_with_fuel(pow16, 25);
}

/// Reads an object id written as twenty-four hexadecimal digits, the form
/// in which ids travel in paths and bodies.
pub fn parse_object_id(s: &str) -> (r: Option<Id>)
    ensures
        r matches Some(id) ==> s@.len() == 24 && all_hex(s@) && id == hex_value(s@) && id_ok(id),
        r is None ==> !(s@.len() == 24 && all_hex(s@)),
{
    let n = s.unicode_len();
    if n != 24 {
        return None;
    }
    let mut v: u128 = 0;
    let mut i: usize = 0;
    while i < n
        invariant
            n == s@.len(),
            n == 24,
            i <= n,
            all_hex(s@.subrange(0, i as int)),
            v == hex_value(s@.subrange(0, i as int)),
        decreases n - i,
    {
        let c = s.get_char(i);
        let d: u128 = if '0' <= c && c <= '9' {
            (c as u32 - '0' as u32) as u128
        } else if 'a' <= c && c <= 'f' {
            (c as u32 - 'a' as u32 + 10) as u128
        } else if 'A' <= c && c <= 'F' {
            (c as u32 - 'A' as u32 + 10) as u128
        } else {
            assert(hex_digit(s@[i as int]) is None);
            return None;
        };
        let ghost pre = s@.subrange(0, i as int);
        let ghost next = s@.subrange(0, i + 1);
        assert(next.drop_last() =~= pre);
        assert(next.last() == c);
        assert(all_hex(next)) by {
            assert forall|j: int| 0 <= j < next.len() implies (#[trigger] hex_digit(next[j])) is Some by {
                if j < i {
                    assert(next[j] == pre[j]);
                }
            }
        }
        proof {
            hex_value_bound(pre);
            pow16_grows(pre.len(), 23);
            pow16_24();
            assert(v < 0x1000_0000_0000_0000_0000_0000int);
        }
        v = v * 16 + d;
        i = i + 1;
    }
    proof {
        assert(s@.subrange(0, 24) =~= s@);
        hex_value_bound(s@);
        pow16_24();
    }
    Some(v)
}

#[derive(Debug, Clone, Copy, PartialEq, Eq, Structural)]
pub enum ConversationType {
    Direct,
    Group,
}

/// A user account. `password` holds the hash, never the password.
pub struct User {
    pub id: Option<Id>,
    pub fullname: String,
    pub email: String,
    pub password: String,
    pub avatar_url: Option<String>,
    pub avatar_id: Option<String>,
    pub bio: Option<String>,
    pub phone: Option<String>,
    pub is_active: bool,
    pub created_at: i64,
    pub updated_at: i64,
}

/// What is shown of an account: everything but the password hash and the
/// activation flag.
pub struct UserResponse {
    pub id: Option<Id>,
    pub fullname: String,
    pub email: String,
    pub avatar_url: Option<String>,
    pub avatar_id: Option<String>,
    pub bio: Option<String>,
    pub phone: Option<String>,
    pub created_at: i64,
    pub updated_at: i64,
}

impl UserResponse {
    pub fn from_user(user: User) -> (r: UserResponse)
        ensures
            r.id == user.id,
            r.fullname == user.fullname,
            r.email == user.email,
            r.avatar_url == user.avatar_url,
            r.avatar_id == user.avatar_id,
            r.bio == user.bio,
            r.phone == user.phone,
            r.created_at == user.created_at,
            r.updated_at == user.updated_at,
    {
        UserResponse {
            id: user.id,
            fullname: user.fullname,
            email: user.email,
            avatar_url: user.avatar_url,
            avatar_id: user.avatar_id,
            bio: user.bio,
            phone: user.phone,
            created_at: user.created_at,
            updated_at: user.updated_at,
        }
    }
}

pub struct UserPreview {
    pub id: Id,
    pub fullname: Option<String>,
    pub avatar_url: Option<String>,
    pub bio: Option<String>,
}

/// A stored one-time code; `code` holds its hash.
pub struct Otp {
    pub id: Option<Id>,
    pub email: String,
    pub code: String,
    pub expires_at: i64,
    pub is_used: bool,
    pub created_at: i64,
    pub updated_at: i64,
}

/// A stored password-reset token; `token` holds its hash.
pub struct ResetToken {
    pub id: Option<Id>,
    pub email: String,
    pub token: String,
    pub expires_at: i64,
    pub created_at: i64,
    pub updated_at: i64,
}

/// A refresh-token grant.
pub struct Session {
    pub user_id: Option<Id>,
    pub email: String,
    pub refresh_token: String,
    pub expires_at: i64,
    pub created_at: i64,
    pub updated_at: i64,
}

/// A friendship edge, stored with the smaller id first.
pub struct Friend {
    pub id: Option<Id>,
    pub user_a_id: Id,
    pub user_b_id: Id,
    pub created_at: i64,
}

pub struct FriendPreview {
    pub id: Id,
    pub fullname: Option<String>,
}

/// A friendship with both sides' previews joined in.
pub struct PopulatedFriendShip {
    pub id: Id,
    pub user_a: FriendPreview,
    pub user_b: FriendPreview,
    pub created_at: i64,
}

/// A pending friend request from `from` to `to`.
pub struct FriendRequest {
    pub id: Option<Id>,
    pub from: Id,
    pub to: Id,
    pub message: Option<String>,
    pub created_at: i64,
    pub updated_at: i64,
}

impl FriendRequest {
    pub fn new(from: Id, to: Id, message: Option<String>) -> (r: FriendRequest)
        ensures
            r.id is None,
            r.from == from,
            r.to == to,
            r.message == message,
            r.created_at == r.updated_at,
    {
        let now = now_millis();
        FriendRequest { id: None, from, to, message, created_at: now, updated_at: now }
    }
}

pub struct Message {
    pub id: Option<Id>,
    pub coversation_id: Id,
    pub sender_id: Id,
    pub content: Option<String>,
    pub image_url: Option<String>,
    pub created_at: i64,
    pub updated_at: i64,
}

impl Message {
    /// A new text message with a fresh id, dated now.
    pub fn new(conversation_id: Id, sender_id: Id, content: Option<String>) -> (r: Message)
        ensures
            r.id matches Some(i) && id_ok(i),
            r.coversation_id == conversation_id,
            r.sender_id == sender_id,
            r.content == content,
            r.image_url is None,
            r.created_at == r.updated_at,
    {
        let id = fresh_id();
        let now = now_millis();
        Message {
            id: Some(id),
            coversation_id: conversation_id,
            sender_id,
            content,
            image_url: None,
            created_at: now,
            updated_at: now,
        }
    }
}

pub struct Participant {
    pub user_id: Id,
    pub joined_at: Option<i64>,
}

pub struct Group {
    pub name: Option<String>,
    pub created_by: Option<Id>,
}

/// The denormalised copy of a conversation's latest message.
pub struct LastMessage {
    pub _id: Id,
    pub content: Option<String>,
    pub sender_id: Option<Id>,
    pub created_at: i64,
}

pub struct Conversation {
    pub id: Option<Id>,
    pub _type: ConversationType,
    pub participant_ids: Vec<Participant>,
    pub group: Option<Group>,
    pub last_message_at: i64,
    pub seen_by: Vec<Id>,
    pub last_message: Option<LastMessage>,
    pub unread_counts: HashMap<Id, i32>,
    pub created_at: i64,
    pub updated_at: i64,
}

} // verus!
