use std::collections::HashMap;
use vstd::prelude::*;

use crate::auth::Claims;
use crate::clock::now_millis;
use crate::flow::{
    fail, failure, Action, Event, Lookup, Problem, Reply, Step, STATUS_BAD_REQUEST,
    STATUS_INTERNAL, STATUS_NOT_FOUND, STATUS_UNAUTHORIZED,
};
use crate::friends::{copy_text, ordered, swap_objectid};
use crate::models::{
    fresh_id, id_ok, Conversation, ConversationType, Group, Id, LastMessage, Message, Participant,
};
use crate::validation::{is_non_blank, non_blank};

verus! {

broadcast use vstd::std_specs::hash::group_hash_axioms;

pub struct SendDirecMessage {
    pub recipient_id: Id,
    pub content: String,
    pub conversation_id: Option<Id>,
}

pub struct SendGroupMessage {
    pub group_id: Id,
    pub content: String,
}

pub struct CreateConversationRequest {
    pub _type: ConversationType,
    pub name: Option<String>,
    pub participant_ids: Option<Vec<Id>>,
}

/// The user ids of a participant list, in order.
pub open spec fn member_ids(ps: Seq<Participant>) -> Seq<Id> {
    ps.map_values(|p: Participant| p.user_id)
}

impl Conversation {
    /// A two-party conversation between `sender_id` and `recipient_id`, with a
    /// fresh id, dated now, with no message yet.
    pub fn new(_type: ConversationType, sender_id: Id, recipient_id: Id) -> (r: Conversation)
        ensures
            r.id matches Some(i) && id_ok(i),
            r._type == _type,
            member_ids(r.participant_ids@) == seq![sender_id, recipient_id],
            forall|i: int| 0 <= i < r.participant_ids@.len() ==> (#[trigger] r.participant_ids@[i]).joined_at is Some,
            r.group is None,
            r.seen_by@.len() == 0,
            r.last_message is None,
            r.unread_counts@ == Map::<Id, i32>::empty(),
    {
        let now = now_millis();
        let mut participants: Vec<Participant> = Vec::new();
        participants.push(Participant { user_id: sender_id, joined_at: Some(now) });
        participants.push(Participant { user_id: recipient_id, joined_at: Some(now) });
        assert(member_ids(participants@) =~= seq![sender_id, recipient_id]);
        Conversation {
            id: Some(fresh_id()),
            _type,
            participant_ids: participants,
            group: None,
            last_message_at: now,
            seen_by: Vec::new(),
            last_message: None,
            unread_counts: HashMap::new(),
            created_at: now,
            updated_at: now,
        }
    }

    /// A group conversation made by `creator`: the creator first, then the
    /// members in order; fresh id, dated now, no message yet.
    pub fn new_group(creator: Id, name: Option<String>, members: &Vec<Id>) -> (r: Conversation)
        ensures
            r.id matches Some(i) && id_ok(i),
            r._type == ConversationType::Group,
            member_ids(r.participant_ids@) == seq![creator] + members@,
            r.group matches Some(g) && g.name == name && g.created_by == Some(creator),
            r.seen_by@.len() == 0,
            r.last_message is None,
            r.unread_counts@ == Map::<Id, i32>::empty(),
    {
        let now = now_millis();
        let mut participants: Vec<Participant> = Vec::new();
        participants.push(Participant { user_id: creator, joined_at: Some(now) });
        let mut i: usize = 0;
        while i < members.len()
            invariant
                i <= members@.len(),
                member_ids(participants@) == seq![creator] + members@.subrange(0, i as int),
            decreases members.len() - i,
        {
            let ghost prev = participants@;
            participants.push(Participant { user_id: members[i], joined_at: Some(now) });
            assert(member_ids(participants@) =~= member_ids(prev).push(members@[i as int]));
            assert(members@.subrange(0, i + 1) =~= members@.subrange(0, i as int).push(members@[i as int]));
            assert(member_ids(participants@) =~= seq![creator] + members@.subrange(0, i + 1));
            i = i + 1;
        }
        assert(members@.subrange(0, members@.len() as int) =~= members@);
        Conversation {
            id: Some(fresh_id()),
            _type: ConversationType::Group,
            participant_ids: participants,
            group: Some(Group { name, created_by: Some(creator) }),
            last_message_at: now,
            seen_by: Vec::new(),
            last_message: None,
            unread_counts: HashMap::new(),
            created_at: now,
            updated_at: now,
        }
    }
}

/// An unread counter, zero where none is stored.
pub open spec fn unread_of(m: Map<Id, i32>, k: Id) -> int {
    if m.contains_key(k) {
        m[k] as int
    } else {
        0
    }
}

/// The counters after a message from `sender` to the participants `ps`: each
/// participant has one counter, set to zero for the sender and raised by one
/// for everyone else (however many times it is listed); the counters of
/// anyone else are kept.
pub open spec fn counts_after(m: Map<Id, i32>, ps: Seq<Id>, sender: Id) -> Map<Id, i32> {
    Map::new(
        |k: Id| m.contains_key(k) || ps.contains(k),
        |k: Id|
            if ps.contains(k) {
                if k == sender {
                    0i32
                } else {
                    (unread_of(m, k) + 1) as i32
                }
            } else {
                m[k]
            },
    )
}

/// Two conversations that differ at most in their unread counters.
pub open spec fn same_but_counts(a: Conversation, b: Conversation) -> bool {
    &&& a.id == b.id
    &&& a._type == b._type
    &&& a.participant_ids == b.participant_ids
    &&& a.group == b.group
    &&& a.last_message_at == b.last_message_at
    &&& a.seen_by == b.seen_by
    &&& a.last_message == b.last_message
    &&& a.created_at == b.created_at
    &&& a.updated_at == b.updated_at
}

/// No participant's counter passes `i32::MAX`.
pub open spec fn counts_fit(m: Map<Id, i32>, ps: Seq<Id>, sender: Id) -> bool {
    forall|i: int| 0 <= i < ps.len() && ps[i] != sender ==> unread_of(m, #[trigger] ps[i]) < i32::MAX
}

/// Whether `id` is listed among the first `end` participants.
fn listed_before(ps: &Vec<Participant>, end: usize, id: Id) -> (r: bool)
    requires
        end <= ps@.len(),
    ensures
        r == member_ids(ps@).subrange(0, end as int).contains(id),
{
    let ghost ids = member_ids(ps@).subrange(0, end as int);
    let mut j: usize = 0;
    while j < end
        invariant
            end <= ps@.len(),
            j <= end,
            ids == member_ids(ps@).subrange(0, end as int),
            forall|x: int| 0 <= x < j ==> ids[x] != id,
        decreases end - j,
    {
        if ps[j].user_id == id {
            assert(ids[j as int] == id);
            return true;
        }
        j = j + 1;
    }
    false
}

/// Folds a message just stored into its conversation: clears `seen_by`, makes
/// the message the last one, and updates the unread counters.
pub fn update_conversation_after_create_message(
    conversation: &mut Conversation,
    message: &Message,
    sender_id: Id,
)
    requires
        message.id is Some,
        counts_fit(old(conversation).unread_counts@, member_ids(old(conversation).participant_ids@), sender_id),
    ensures
        final(conversation).seen_by@.len() == 0,
        final(conversation).last_message_at == message.created_at,
        final(conversation).last_message == Some(
            LastMessage {
                _id: message.id->0,
                content: message.content,
                sender_id: Some(sender_id),
                created_at: message.created_at,
            },
        ),
        final(conversation).unread_counts@ == counts_after(
            old(conversation).unread_counts@,
            member_ids(old(conversation).participant_ids@),
            sender_id,
        ),
        final(conversation).id == old(conversation).id,
        final(conversation)._type == old(conversation)._type,
        final(conversation).participant_ids == old(conversation).participant_ids,
        final(conversation).group == old(conversation).group,
        final(conversation).created_at == old(conversation).created_at,
        final(conversation).updated_at == old(conversation).updated_at,
{
    conversation.seen_by.clear();
    conversation.last_message_at = message.created_at;
    conversation.last_message = Some(
        LastMessage {
            _id: message.id.unwrap(),
            content: copy_text(&message.content),
            sender_id: Some(sender_id),
            created_at: message.created_at,
        },
    );
    let ghost ids = member_ids(conversation.participant_ids@);
    let ghost start = conversation.unread_counts@;
    let ghost pre = *conversation;
    let n = conversation.participant_ids.len();
    let mut i: usize = 0;
    while i < n
        invariant
            n == conversation.participant_ids@.len(),
            ids == member_ids(conversation.participant_ids@),
            i <= n,
            counts_fit(start, ids, sender_id),
            same_but_counts(*conversation, pre),
            conversation.unread_counts@ == counts_after(start, ids.subrange(0, i as int), sender_id),
        decreases n - i,
    {
        let member = conversation.participant_ids[i].user_id;
        let ghost before = conversation.unread_counts@;
        let ghost prefix = ids.subrange(0, i as int);
        let ghost next = ids.subrange(0, i + 1);
        assert(next =~= prefix.push(member));
        assert forall|k: Id| next.contains(k) <==> prefix.contains(k) || k == member by {
            if next.contains(k) {
                let x = choose|x: int| 0 <= x < next.len() && next[x] == k;
                if x < i {
                    assert(prefix[x] == k);
                }
            }
            if prefix.contains(k) {
                let x = choose|x: int| 0 <= x < prefix.len() && prefix[x] == k;
                assert(next[x] == k);
            }
            if k == member {
                assert(next[i as int] == k);
            }
        }
        if !listed_before(&conversation.participant_ids, i, member) {
            if member == sender_id {
                conversation.unread_counts.insert(member, 0);
            } else {
                let cur: i32 = match conversation.unread_counts.get(&member) {
                    Some(v) => *v,
                    None => 0,
                };
                assert(ids[i as int] == member);
                assert(cur == unread_of(start, member));
                conversation.unread_counts.insert(member, cur + 1);
            }
            assert(conversation.unread_counts@ =~= counts_after(start, next, sender_id));
        } else {
            assert(before =~= counts_after(start, next, sender_id));
        }
        i = i + 1;
    }
    assert(ids.subrange(0, n as int) =~= ids);
}

/// Where the conversation of a direct message stands once the friendship is
/// known: `Ok((cid, k))` when it is found or made, with `k` the index of the
/// next result; `Err(step)` while it is still sought, or when that fails. A
/// given id must name a stored conversation; without one the direct
/// conversation of the pair is looked up, and made only when there is none.
pub open spec fn direct_conversation(c: Claims, body: SendDirecMessage, h: Seq<Event>) -> Result<
    (Id, int),
    Step,
> {
    match body.conversation_id {
        Some(cid) => if h.len() <= 1 {
            Err(Step::Run(Action::FindConversation(cid)))
        } else {
            match h[1] {
                Event::Exists(Lookup::Found(_)) => Ok((cid, 2)),
                Event::Exists(Lookup::Missing) => Err(
                    fail(STATUS_NOT_FOUND, Problem::ConversationNotFound),
                ),
                _ => Err(fail(STATUS_INTERNAL, Problem::LookupFailed)),
            }
        },
        None => if h.len() <= 1 {
            Err(Step::Run(Action::FindDirectConversation { user: c.user_id, other: body.recipient_id }))
        } else {
            match h[1] {
                Event::Exists(Lookup::Found(cid)) => Ok((cid, 2)),
                Event::Exists(Lookup::Missing) => if h.len() == 2 {
                    Err(
                        Step::Run(
                            Action::CreateDirectConversation {
                                sender: c.user_id,
                                recipient: body.recipient_id,
                            },
                        ),
                    )
                } else {
                    match h[2] {
                        Event::Created(cid) => Ok((cid, 3)),
                        _ => Err(fail(STATUS_INTERNAL, Problem::ConversationCreateFailed)),
                    }
                },
                _ => Err(fail(STATUS_INTERNAL, Problem::LookupFailed)),
            }
        },
    }
}

/// Sending a direct message: non-blank text, an identity, and a friendship
/// with the recipient (looked up in canonical order; a failed lookup counts
/// as none); then the conversation is found, or made; the message is stored
/// and folded into the conversation.
pub open spec fn send_direct_plan(claims: Option<Claims>, body: SendDirecMessage, h: Seq<Event>) -> Step {
    if !non_blank(body.content@) {
        fail(STATUS_BAD_REQUEST, Problem::EmptyMessage)
    } else {
        match claims {
            None => fail(STATUS_UNAUTHORIZED, Problem::MissingIdentity),
            Some(c) => {
                let pair = ordered(c.user_id, body.recipient_id);
                if h.len() == 0 {
                    Step::Run(Action::FindFriendship { low: pair.0, high: pair.1 })
                } else if !(h[0] matches Event::Exists(Lookup::Found(_))) {
                    fail(STATUS_UNAUTHORIZED, Problem::NotFriends)
                } else {
                    match direct_conversation(c, body, h) {
                        Err(step) => step,
                        Ok((cid, k)) => if h.len() == k {
                            Step::Run(
                                Action::CreateMessage {
                                    conversation: cid,
                                    sender: c.user_id,
                                    content: body.content,
                                },
                            )
                        } else if !(h[k] is Done) {
                            fail(STATUS_INTERNAL, Problem::MessageCreateFailed)
                        } else if h.len() == k + 1 {
                            Step::Run(Action::UpdateConversation { conversation: cid, sender: c.user_id })
                        } else if h[k + 1] is Done {
                            Step::Reply(Reply::MessageSent)
                        } else {
                            fail(STATUS_INTERNAL, Problem::ConversationUpdateFailed)
                        },
                    }
                }
            },
        }
    }
}

fn locate_conversation(c: &Claims, body: &SendDirecMessage, h: &Vec<Event>) -> (r: Result<
    (Id, usize),
    Step,
>)
    requires
        h@.len() >= 1,
    ensures
        match r {
            Ok((cid, k)) => direct_conversation(*c, *body, h@) == Ok::<(Id, int), Step>((cid, k as int))
                && k <= h@.len(),
            Err(s) => direct_conversation(*c, *body, h@) == Err::<(Id, int), Step>(s),
        },
{
    match body.conversation_id {
        Some(cid) => {
            if h.len() <= 1 {
                return Err(Step::Run(Action::FindConversation(cid)));
            }
            match &h[1] {
                Event::Exists(Lookup::Found(_)) => Ok((cid, 2)),
                Event::Exists(Lookup::Missing) => Err(
                    failure(STATUS_NOT_FOUND, Problem::ConversationNotFound),
                ),
                _ => Err(failure(STATUS_INTERNAL, Problem::LookupFailed)),
            }
        },
        None => {
            if h.len() <= 1 {
                return Err(
                    Step::Run(
                        Action::FindDirectConversation { user: c.user_id, other: body.recipient_id },
                    ),
                );
            }
            match &h[1] {
                Event::Exists(Lookup::Found(cid)) => Ok((*cid, 2)),
                Event::Exists(Lookup::Missing) => {
                    if h.len() == 2 {
                        return Err(
                            Step::Run(
                                Action::CreateDirectConversation {
                                    sender: c.user_id,
                                    recipient: body.recipient_id,
                                },
                            ),
                        );
                    }
                    match &h[2] {
                        Event::Created(cid) => Ok((*cid, 3)),
                        _ => Err(failure(STATUS_INTERNAL, Problem::ConversationCreateFailed)),
                    }
                },
                _ => Err(failure(STATUS_INTERNAL, Problem::LookupFailed)),
            }
        },
    }
}

pub fn send_direct_message(claims: &Option<Claims>, body: &SendDirecMessage, h: &Vec<Event>) -> (r:
    Step)
    ensures
        r == send_direct_plan(*claims, *body, h@),
{
    if !is_non_blank(body.content.as_str()) {
        return failure(STATUS_BAD_REQUEST, Problem::EmptyMessage);
    }
    let c = match claims {
        None => return failure(STATUS_UNAUTHORIZED, Problem::MissingIdentity),
        Some(c) => c,
    };
    let (low, high) = swap_objectid(c.user_id, body.recipient_id);
    if h.len() == 0 {
        return Step::Run(Action::FindFriendship { low, high });
    }
    if !matches!(h[0], Event::Exists(Lookup::Found(_))) {
        return failure(STATUS_UNAUTHORIZED, Problem::NotFriends);
    }
    let (cid, k) = match locate_conversation(c, body, h) {
        Err(step) => return step,
        Ok(found) => found,
    };
    if h.len() == k {
        return Step::Run(
            Action::CreateMessage { conversation: cid, sender: c.user_id, content: body.content.clone() },
        );
    }
    if !matches!(h[k], Event::Done) {
        return failure(STATUS_INTERNAL, Problem::MessageCreateFailed);
    }
    if h.len() == k + 1 {
        return Step::Run(Action::UpdateConversation { conversation: cid, sender: c.user_id });
    }
    if matches!(h[k + 1], Event::Done) {
        Step::Reply(Reply::MessageSent)
    } else {
        failure(STATUS_INTERNAL, Problem::ConversationUpdateFailed)
    }
}

/// Whether a conversation request is well formed: at least one participant,
/// and a name for a group.
pub open spec fn conversation_request_ok(req: CreateConversationRequest) -> bool {
    !(req._type == ConversationType::Group && req.name is None) && req.participant_ids is Some
        && req.participant_ids->0@.len() > 0
}

/// Opening a conversation: a direct one is found with its first participant,
/// or made; a group one is always made.
pub open spec fn create_conversation_plan(
    claims: Option<Claims>,
    req: CreateConversationRequest,
    h: Seq<Event>,
) -> Step {
    match claims {
        None => fail(STATUS_UNAUTHORIZED, Problem::MissingIdentity),
        Some(c) => if !conversation_request_ok(req) {
            fail(STATUS_BAD_REQUEST, Problem::InvalidInput)
        } else if req._type == ConversationType::Direct {
            let other = req.participant_ids->0@[0];
            if h.len() == 0 {
                Step::Run(Action::FindDirectConversation { user: c.user_id, other })
            } else {
                match h[0] {
                    Event::Exists(Lookup::Found(cid)) => Step::Reply(Reply::ConversationReady(cid)),
                    Event::Exists(Lookup::Missing) => if h.len() == 1 {
                        Step::Run(Action::CreateDirectConversation { sender: c.user_id, recipient: other })
                    } else {
                        match h[1] {
                            Event::Created(cid) => Step::Reply(Reply::ConversationReady(cid)),
                            _ => fail(STATUS_INTERNAL, Problem::ConversationCreateFailed),
                        }
                    },
                    _ => fail(STATUS_INTERNAL, Problem::LookupFailed),
                }
            }
        } else if h.len() == 0 {
            Step::Run(
                Action::CreateGroupConversation {
                    creator: c.user_id,
                    name: req.name,
                    members: req.participant_ids->0,
                },
            )
        } else {
            match h[0] {
                Event::Created(cid) => Step::Reply(Reply::ConversationReady(cid)),
                _ => fail(STATUS_INTERNAL, Problem::ConversationCreateFailed),
            }
        },
    }
}

/// Two steps that are the same but for which `Vec` holds the same ids.
pub open spec fn same_step(a: Step, b: Step) -> bool {
    match (a, b) {
        (
            Step::Run(Action::CreateGroupConversation { creator: c1, name: n1, members: m1 }),
            Step::Run(Action::CreateGroupConversation { creator: c2, name: n2, members: m2 }),
        ) => c1 == c2 && n1 == n2 && m1@ == m2@,
        _ => a == b,
    }
}

fn copy_ids(v: &Vec<Id>) -> (r: Vec<Id>)
    ensures
        r@ == v@,
{
    let mut out: Vec<Id> = Vec::new();
    let mut i: usize = 0;
    while i < v.len()
        invariant
            i <= v@.len(),
            out@ == v@.subrange(0, i as int),
        decreases v.len() - i,
    {
        out.push(v[i]);
        i = i + 1;
    }
    assert(v@.subrange(0, v@.len() as int) =~= v@);
    out
}

pub fn create_conversation(claims: &Option<Claims>, req: &CreateConversationRequest, h: &Vec<Event>) -> (r:
    Step)
    ensures
        same_step(r, create_conversation_plan(*claims, *req, h@)),
{
    let c = match claims {
        None => return failure(STATUS_UNAUTHORIZED, Problem::MissingIdentity),
        Some(c) => c,
    };
    let is_group = match req._type {
        ConversationType::Group => true,
        ConversationType::Direct => false,
    };
    let members = match &req.participant_ids {
        Some(m) => m,
        None => return failure(STATUS_BAD_REQUEST, Problem::InvalidInput),
    };
    if (is_group && req.name.is_none()) || members.len() == 0 {
        return failure(STATUS_BAD_REQUEST, Problem::InvalidInput);
    }
    if !is_group {
        let other = members[0];
        if h.len() == 0 {
            return Step::Run(Action::FindDirectConversation { user: c.user_id, other });
        }
        match &h[0] {
            Event::Exists(Lookup::Found(cid)) => Step::Reply(Reply::ConversationReady(*cid)),
            Event::Exists(Lookup::Missing) => if h.len() == 1 {
                Step::Run(Action::CreateDirectConversation { sender: c.user_id, recipient: other })
            } else {
                match &h[1] {
                    Event::Created(cid) => Step::Reply(Reply::ConversationReady(*cid)),
                    _ => failure(STATUS_INTERNAL, Problem::ConversationCreateFailed),
                }
            },
            _ => failure(STATUS_INTERNAL, Problem::LookupFailed),
        }
    } else if h.len() == 0 {
        Step::Run(
            Action::CreateGroupConversation {
                creator: c.user_id,
                name: copy_text(&req.name),
                members: copy_ids(members),
            },
        )
    } else {
        match &h[0] {
            Event::Created(cid) => Step::Reply(Reply::ConversationReady(*cid)),
            _ => failure(STATUS_INTERNAL, Problem::ConversationCreateFailed),
        }
    }
}

} // verus!
