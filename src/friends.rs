use vstd::prelude::*;

use crate::auth::Claims;
use crate::clock::now_millis;
use crate::flow::{
    fail, failure, Action, Event, Lookup, Problem, Reply, Step, STATUS_BAD_REQUEST,
    STATUS_FORBIDDEN, STATUS_INTERNAL, STATUS_NOT_FOUND, STATUS_UNAUTHORIZED,
};
use crate::models::{Friend, FriendPreview, Id, PopulatedFriendShip};

verus! {

/// The body of a friend request.
pub struct FriendRequestParams {
    pub to_user_id: Id,
    pub message: Option<String>,
}

/// The canonical order of two user ids: the smaller first.
pub open spec fn ordered(a: Id, b: Id) -> (Id, Id) {
    if a < b {
        (a, b)
    } else {
        (b, a)
    }
}

/// Puts two user ids in canonical order.
pub fn swap_objectid(a: Id, b: Id) -> (r: (Id, Id))
    ensures
        r == ordered(a, b),
{
    if a < b {
        (a, b)
    } else {
        (b, a)
    }
}

impl Friend {
    /// The friendship of two users, stored in canonical order and dated now.
    pub fn new(user_a: Id, user_b: Id) -> (r: Friend)
        ensures
            r.id is None,
            (r.user_a_id, r.user_b_id) == ordered(user_a, user_b),
    {
        let (a, b) = swap_objectid(user_a, user_b);
        Friend { id: None, user_a_id: a, user_b_id: b, created_at: now_millis() }
    }
}

pub(crate) fn copy_text(t: &Option<String>) -> (r: Option<String>)
    ensures
        r == *t,
{
    match t {
        Some(s) => Some(s.clone()),
        None => None,
    }
}

/// Sending a friend request: not to oneself, only to an existing active
/// user, and not when the two are friends already or a request is pending
/// either way (the two checks are made side by side; a failed check counts
/// as nothing found).
pub open spec fn send_request_plan(
    claims: Option<Claims>,
    params: FriendRequestParams,
    h: Seq<Event>,
) -> Step {
    match claims {
        None => fail(STATUS_UNAUTHORIZED, Problem::MissingIdentity),
        Some(c) => if params.to_user_id == c.user_id {
            fail(STATUS_BAD_REQUEST, Problem::SelfRequest)
        } else if h.len() == 0 {
            Step::Run(Action::FindUserById(params.to_user_id))
        } else {
            match h[0] {
                Event::Exists(Lookup::Found(_)) => if h.len() == 1 {
                    Step::Run(Action::FindRelations { a: c.user_id, b: params.to_user_id })
                } else {
                    match h[1] {
                        Event::Relations(Lookup::Found(_), _) => fail(
                            STATUS_BAD_REQUEST,
                            Problem::AlreadyFriends,
                        ),
                        Event::Relations(_, Lookup::Found(sender)) => if sender == c.user_id {
                            fail(STATUS_BAD_REQUEST, Problem::RequestAlreadySent)
                        } else {
                            fail(STATUS_BAD_REQUEST, Problem::RequestAlreadyReceived)
                        },
                        Event::Relations(_, _) => if h.len() == 2 {
                            Step::Run(
                                Action::CreateFriendRequest {
                                    from: c.user_id,
                                    to: params.to_user_id,
                                    message: params.message,
                                },
                            )
                        } else if h[2] is Done {
                            Step::Reply(Reply::RequestSent)
                        } else {
                            fail(STATUS_INTERNAL, Problem::CreateFailed)
                        },
                        _ => fail(STATUS_INTERNAL, Problem::LookupFailed),
                    }
                },
                Event::Exists(Lookup::Missing) => fail(STATUS_NOT_FOUND, Problem::TargetNotFound),
                _ => fail(STATUS_INTERNAL, Problem::LookupFailed),
            }
        },
    }
}

pub fn send_friend_request(claims: &Option<Claims>, params: &FriendRequestParams, h: &Vec<Event>) -> (r:
    Step)
    ensures
        r == send_request_plan(*claims, *params, h@),
{
    let c = match claims {
        None => return failure(STATUS_UNAUTHORIZED, Problem::MissingIdentity),
        Some(c) => c,
    };
    if params.to_user_id == c.user_id {
        return failure(STATUS_BAD_REQUEST, Problem::SelfRequest);
    }
    if h.len() == 0 {
        return Step::Run(Action::FindUserById(params.to_user_id));
    }
    match &h[0] {
        Event::Exists(Lookup::Found(_)) => {
            if h.len() == 1 {
                return Step::Run(Action::FindRelations { a: c.user_id, b: params.to_user_id });
            }
            match &h[1] {
                Event::Relations(Lookup::Found(_), _) => failure(
                    STATUS_BAD_REQUEST,
                    Problem::AlreadyFriends,
                ),
                Event::Relations(_, Lookup::Found(sender)) => if *sender == c.user_id {
                    failure(STATUS_BAD_REQUEST, Problem::RequestAlreadySent)
                } else {
                    failure(STATUS_BAD_REQUEST, Problem::RequestAlreadyReceived)
                },
                Event::Relations(_, _) => if h.len() == 2 {
                    Step::Run(
                        Action::CreateFriendRequest {
                            from: c.user_id,
                            to: params.to_user_id,
                            message: copy_text(&params.message),
                        },
                    )
                } else if matches!(h[2], Event::Done) {
                    Step::Reply(Reply::RequestSent)
                } else {
                    failure(STATUS_INTERNAL, Problem::CreateFailed)
                },
                _ => failure(STATUS_INTERNAL, Problem::LookupFailed),
            }
        },
        Event::Exists(Lookup::Missing) => failure(STATUS_NOT_FOUND, Problem::TargetNotFound),
        _ => failure(STATUS_INTERNAL, Problem::LookupFailed),
    }
}

/// The part shared by accepting and declining: a well-formed request id, an
/// identity, a stored request, and the identity as its recipient. `None`
/// when all of these hold.
pub open spec fn answer_guard(request_id: Option<Id>, claims: Option<Claims>, h: Seq<Event>) -> Option<
    Step,
> {
    match request_id {
        None => Some(fail(STATUS_BAD_REQUEST, Problem::InvalidInput)),
        Some(rid) => match claims {
            None => Some(fail(STATUS_UNAUTHORIZED, Problem::MissingIdentity)),
            Some(c) => if h.len() == 0 {
                Some(Step::Run(Action::FindFriendRequest(rid)))
            } else {
                match h[0] {
                    Event::Request(Lookup::Found(req)) => if req.to != c.user_id {
                        Some(fail(STATUS_FORBIDDEN, Problem::NotRecipient))
                    } else {
                        None
                    },
                    Event::Request(Lookup::Missing) => Some(
                        fail(STATUS_NOT_FOUND, Problem::RequestNotFound),
                    ),
                    _ => Some(fail(STATUS_INTERNAL, Problem::LookupFailed)),
                }
            },
        },
    }
}

fn answer_check(request_id: Option<Id>, claims: &Option<Claims>, h: &Vec<Event>) -> (r: Option<Step>)
    ensures
        r == answer_guard(request_id, *claims, h@),
{
    let rid = match request_id {
        None => return Some(failure(STATUS_BAD_REQUEST, Problem::InvalidInput)),
        Some(rid) => rid,
    };
    let c = match claims {
        None => return Some(failure(STATUS_UNAUTHORIZED, Problem::MissingIdentity)),
        Some(c) => c,
    };
    if h.len() == 0 {
        return Some(Step::Run(Action::FindFriendRequest(rid)));
    }
    match &h[0] {
        Event::Request(Lookup::Found(req)) => if req.to != c.user_id {
            Some(failure(STATUS_FORBIDDEN, Problem::NotRecipient))
        } else {
            None
        },
        Event::Request(Lookup::Missing) => Some(failure(STATUS_NOT_FOUND, Problem::RequestNotFound)),
        _ => Some(failure(STATUS_INTERNAL, Problem::LookupFailed)),
    }
}

/// Accepting a request: past the guard, store the friendship, then delete the
/// request while fetching the sender's preview.
pub open spec fn accept_plan(request_id: Option<Id>, claims: Option<Claims>, h: Seq<Event>) -> Step {
    match answer_guard(request_id, claims, h) {
        Some(s) => s,
        None => {
            let req = h[0]->Request_0->Found_0;
            if h.len() == 1 {
                Step::Run(Action::CreateFriend { a: req.from, b: req.to })
            } else if !(h[1] is Done) {
                fail(STATUS_INTERNAL, Problem::FriendCreateFailed)
            } else if h.len() == 2 {
                Step::Run(Action::DeleteRequestAndFetch { request: request_id->0, user: req.from })
            } else {
                match h[2] {
                    Event::DeletedAnd(true, Lookup::Found(_)) => Step::Reply(Reply::FriendAdded),
                    Event::DeletedAnd(true, _) => fail(STATUS_INTERNAL, Problem::SenderLookupFailed),
                    _ => fail(STATUS_INTERNAL, Problem::RequestDeleteFailed),
                }
            }
        },
    }
}

pub fn accept_friend_request(request_id: Option<Id>, claims: &Option<Claims>, h: &Vec<Event>) -> (r:
    Step)
    ensures
        r == accept_plan(request_id, *claims, h@),
{
    if let Some(s) = answer_check(request_id, claims, h) {
        return s;
    }
    let (from, to) = match &h[0] {
        Event::Request(Lookup::Found(req)) => (req.from, req.to),
        _ => { return failure(STATUS_INTERNAL, Problem::LookupFailed); },
    };
    if h.len() == 1 {
        return Step::Run(Action::CreateFriend { a: from, b: to });
    }
    if !matches!(h[1], Event::Done) {
        return failure(STATUS_INTERNAL, Problem::FriendCreateFailed);
    }
    if h.len() == 2 {
        return Step::Run(Action::DeleteRequestAndFetch { request: request_id.unwrap(), user: from });
    }
    match &h[2] {
        Event::DeletedAnd(true, Lookup::Found(_)) => Step::Reply(Reply::FriendAdded),
        Event::DeletedAnd(true, _) => failure(STATUS_INTERNAL, Problem::SenderLookupFailed),
        _ => failure(STATUS_INTERNAL, Problem::RequestDeleteFailed),
    }
}

/// Declining a request: past the guard, delete it.
pub open spec fn decline_plan(request_id: Option<Id>, claims: Option<Claims>, h: Seq<Event>) -> Step {
    match answer_guard(request_id, claims, h) {
        Some(s) => s,
        None => if h.len() == 1 {
            Step::Run(Action::DeleteFriendRequest(request_id->0))
        } else if h[1] is Done {
            Step::Reply(Reply::RequestDeclined)
        } else {
            fail(STATUS_INTERNAL, Problem::RequestDeleteFailed)
        },
    }
}

pub fn decline_friend_request(request_id: Option<Id>, claims: &Option<Claims>, h: &Vec<Event>) -> (r:
    Step)
    ensures
        r == decline_plan(request_id, *claims, h@),
{
    if let Some(s) = answer_check(request_id, claims, h) {
        return s;
    }
    if h.len() == 1 {
        return Step::Run(Action::DeleteFriendRequest(request_id.unwrap()));
    }
    if matches!(h[1], Event::Done) {
        Step::Reply(Reply::RequestDeclined)
    } else {
        failure(STATUS_INTERNAL, Problem::RequestDeleteFailed)
    }
}

/// The side of a friendship that is not `user`.
pub open spec fn other_side(f: PopulatedFriendShip, user: Id) -> FriendPreview {
    if f.user_a.id == user {
        f.user_b
    } else {
        f.user_a
    }
}

/// The friends of `user`: for each of its friendships, in order, the other side.
pub fn list_friends(user: Id, friendships: Vec<PopulatedFriendShip>) -> (r: Vec<FriendPreview>)
    ensures
        r@.len() == friendships@.len(),
        forall|i: int| 0 <= i < r@.len() ==> r@[i] == other_side(#[trigger] friendships@[i], user),
{
    let ghost all = friendships@;
    let mut rest = friendships;
    let mut out: Vec<FriendPreview> = Vec::new();
    while rest.len() > 0
        invariant
            out@.len() + rest@.len() == all.len(),
            rest@ == all.subrange(out@.len() as int, all.len() as int),
            forall|i: int| 0 <= i < out@.len() ==> out@[i] == other_side(#[trigger] all[i], user),
        decreases rest.len(),
    {
        let f = rest.remove(0);
        let side = if f.user_a.id == user {
            f.user_b
        } else {
            f.user_a
        };
        out.push(side);
    }
    out
}

} // verus!
