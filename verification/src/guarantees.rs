//! What the registry and the fan-out promise, stated over the models that the
//! contracts of `Registry` and `Connection` use.

use crate::outbound::OutboundHandle;
use crate::registry::{
    audience, distinct, handle_of, ids, is_member, lemma_each_member_once, lemma_with_member,
    lemma_without, served_once, with_member, without, MemberView,
};
use vstd::prelude::*;

verus! {

/// When a client is registered and announced, the announcement goes exactly
/// once to every client that was a member before, and once to the newcomer.
/// The newcomer's identifier then names the queue that it registered, every
/// other identifier the queue that it named before.
pub proof fn join_reaches_every_member_once(
    members: Seq<MemberView>,
    id: Seq<char>,
    handle: OutboundHandle,
    other: Seq<char>,
)
    requires
        distinct(members),
        is_member(members, other) || other == id,
    ensures
        served_once(audience(with_member(members, id, handle), None), other),
        handle_of(with_member(members, id, handle), id) == handle,
        other != id ==> handle_of(with_member(members, id, handle), other) == handle_of(
            members,
            other,
        ),
{
    lemma_with_member(members, id, handle);
    lemma_each_member_once(with_member(members, id, handle), other);
}

/// When a client has been deregistered, the announcement of its leaving goes
/// exactly once to every member that remains, whose identifier names the
/// queue that it named before, and no broadcast after that reaches the
/// client, whoever the broadcast leaves out.
pub proof fn leave_reaches_the_rest_and_not_the_leaver(
    members: Seq<MemberView>,
    id: Seq<char>,
    other: Seq<char>,
    skip: Option<Seq<char>>,
)
    requires
        distinct(members),
    ensures
        !audience(without(members, id), skip).contains(id),
        other != id && is_member(members, other) ==> served_once(
            audience(without(members, id), None),
            other,
        ) && handle_of(without(members, id), other) == handle_of(members, other),
{
    let rest = without(members, id);
    lemma_without(members, id);
    lemma_each_member_once(rest, other);
    lemma_each_member_once(rest, id);
    match skip {
        Some(left_out) => {
            lemma_without(rest, left_out);
            lemma_each_member_once(without(rest, left_out), id);
        },
        None => {},
    }
}

/// A message that a member sends goes exactly once to every other member and
/// never to the sender: with N members, to N - 1 of them, and to nobody else.
pub proof fn relay_reaches_all_but_the_sender(
    members: Seq<MemberView>,
    origin: Seq<char>,
    other: Seq<char>,
)
    requires
        distinct(members),
    ensures
        !audience(members, Some(origin)).contains(origin),
        other != origin && is_member(members, other) ==> served_once(
            audience(members, Some(origin)),
            other,
        ),
        audience(members, Some(origin)).contains(other) ==> is_member(members, other),
        is_member(members, origin) ==> audience(members, Some(origin)).len() == members.len() - 1,
{
    let rest = without(members, origin);
    lemma_without(members, origin);
    lemma_each_member_once(rest, origin);
    lemma_each_member_once(rest, other);
}

/// A broadcast serves every member whether or not the queues of the others
/// take the payload: who is served depends on the membership alone.
pub proof fn broadcast_reaches_every_member_once(members: Seq<MemberView>, other: Seq<char>)
    requires
        distinct(members),
        is_member(members, other),
    ensures
        served_once(audience(members, None), other),
{
    lemma_each_member_once(members, other);
}

/// A second registration under an identifier replaces the first: the
/// identifier then names the second queue only, as if the first had never
/// been registered, and one deregistration removes the identifier although
/// the second client is still connected.
pub proof fn duplicate_registration_replaces(
    members: Seq<MemberView>,
    id: Seq<char>,
    first: OutboundHandle,
    second: OutboundHandle,
)
    requires
        distinct(members),
    ensures
        with_member(with_member(members, id, first), id, second) == with_member(
            members,
            id,
            second,
        ),
        handle_of(with_member(with_member(members, id, first), id, second), id) == second,
        served_once(ids(with_member(with_member(members, id, first), id, second)), id),
        !is_member(without(with_member(with_member(members, id, first), id, second), id), id),
{
    let rest = without(members, id);
    let once = with_member(members, id, first);
    lemma_without(members, id);
    lemma_with_member(members, id, first);
    assert(without(once, id) =~= rest);
    let twice = with_member(once, id, second);
    assert(twice =~= with_member(members, id, second));
    lemma_with_member(members, id, second);
    lemma_each_member_once(twice, id);
    lemma_without(twice, id);
}

} // verus!
