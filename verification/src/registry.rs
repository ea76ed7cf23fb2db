//! The registry of connected clients and the fan-out of one payload to their
//! outbound queues.

use crate::error::RelayError;
use crate::message::ChatMessage;
use crate::outbound::OutboundHandle;
use crate::wire::{encode, wire};
use vstd::prelude::*;

verus! {

/// One registered client as mathematical values: its identifier and the
/// sending end of its outbound queue.
pub struct MemberView {
    pub id: Seq<char>,
    pub handle: OutboundHandle,
}

/// The identifiers of a membership, in its order.
pub open spec fn ids(members: Seq<MemberView>) -> Seq<Seq<char>> {
    Seq::new(members.len(), |i: int| members[i].id)
}

/// No identifier is registered twice.
pub open spec fn distinct(members: Seq<MemberView>) -> bool {
    forall|i: int, j: int| 0 <= i < j < members.len() ==> members[i].id != members[j].id
}

/// `id` is registered.
pub open spec fn is_member(members: Seq<MemberView>, id: Seq<char>) -> bool {
    exists|i: int| 0 <= i < members.len() && (#[trigger] members[i]).id == id
}

/// Where `id` is registered, if it is.
pub open spec fn slot(members: Seq<MemberView>, id: Seq<char>) -> int {
    choose|i: int| 0 <= i < members.len() && (#[trigger] members[i]).id == id
}

/// The membership after `id` has been deregistered: its entry is gone, the
/// others keep their order. Nothing changes where `id` is not registered.
pub open spec fn without(members: Seq<MemberView>, id: Seq<char>) -> Seq<MemberView> {
    if is_member(members, id) {
        members.remove(slot(members, id))
    } else {
        members
    }
}

/// The membership after `id` has been registered with `handle`: an earlier
/// entry under `id` is replaced, and the new entry comes last.
pub open spec fn with_member(
    members: Seq<MemberView>,
    id: Seq<char>,
    handle: OutboundHandle,
) -> Seq<MemberView> {
    without(members, id).push(MemberView { id, handle })
}

/// The identifiers that one fan-out goes to, in the order in which they are
/// served: every member, or every member but `skip`.
pub open spec fn audience(members: Seq<MemberView>, skip: Option<Seq<char>>) -> Seq<Seq<char>> {
    match skip {
        Some(id) => ids(without(members, id)),
        None => ids(members),
    }
}

/// The queue that `id` is registered with, where it is registered.
pub open spec fn handle_of(members: Seq<MemberView>, id: Seq<char>) -> OutboundHandle
    recommends
        is_member(members, id),
{
    members[slot(members, id)].handle
}

/// `id` stands among `names` at exactly one place.
pub open spec fn served_once(names: Seq<Seq<char>>, id: Seq<char>) -> bool {
    exists|i: int|
        0 <= i < names.len() && (#[trigger] names[i]) == id && forall|j: int|
            0 <= j < names.len() && (#[trigger] names[j]) == id ==> j == i
}

/// One registered client: its identifier and the sending end of its queue.
pub struct Member {
    id: String,
    handle: OutboundHandle,
}

impl View for Member {
    type V = MemberView;

    closed spec fn view(&self) -> MemberView {
        MemberView { id: self.id@, handle: self.handle }
    }
}

impl Member {
    /// The client's identifier.
    pub fn id(&self) -> (id: &str)
        ensures
            id@ == self@.id,
    {
        self.id.as_str()
    }

    /// The sending end of the client's queue.
    pub fn handle(&self) -> (handle: &OutboundHandle)
        ensures
            *handle == self@.handle,
    {
        &self.handle
    }
}

/// The members that a sequence of entries stands for.
pub open spec fn views(entries: Seq<Member>) -> Seq<MemberView> {
    Seq::new(entries.len(), |i: int| entries[i]@)
}

/// What became of one attempt to enqueue a payload.
#[derive(Debug)]
pub struct Delivery {
    /// The member whose queue was tried.
    pub recipient: String,
    /// What the queue answered: whether it took the payload. The queue is
    /// shared with its consumer, so no contract of this library speaks of this
    /// flag; who is served never depends on it.
    pub accepted: bool,
}

/// The members that a list of deliveries went to, in its order.
pub open spec fn recipients(deliveries: Seq<Delivery>) -> Seq<Seq<char>> {
    Seq::new(deliveries.len(), |i: int| deliveries[i].recipient@)
}

/// One fan-out: the payload, encoded once, and each attempt to enqueue it.
#[derive(Debug)]
pub struct Broadcast {
    /// The wire form that every recipient was offered.
    pub payload: String,
    /// One entry for each member served, in the registry's order.
    pub deliveries: Vec<Delivery>,
}

/// The clients that are connected, each with the sending end of its queue.
pub struct Registry {
    members: Vec<Member>,
}

impl View for Registry {
    type V = Seq<MemberView>;

    closed spec fn view(&self) -> Seq<MemberView> {
        views(self.members@)
    }
}

/// Deregistering keeps the identifiers distinct, removes `id`, and leaves
/// every other member registered with the queue that it had.
pub proof fn lemma_without(members: Seq<MemberView>, id: Seq<char>)
    requires
        distinct(members),
    ensures
        distinct(without(members, id)),
        !is_member(without(members, id), id),
        forall|other: Seq<char>|
            other != id ==> is_member(without(members, id), other) == is_member(members, other),
        forall|other: Seq<char>|
            other != id && is_member(members, other) ==> #[trigger] handle_of(
                without(members, id),
                other,
            ) == handle_of(members, other),
{
    let rest = without(members, id);
    if is_member(members, id) {
        let k = slot(members, id);
        assert(rest.len() == members.len() - 1);
        assert forall|j: int| 0 <= j < rest.len() implies #[trigger] rest[j] == members[if j < k {
            j
        } else {
            j + 1
        }] by {}
        assert forall|other: Seq<char>| other != id implies is_member(rest, other) == is_member(
            members,
            other,
        ) by {
            if is_member(members, other) {
                let i = slot(members, other);
                let j = if i < k { i } else { i - 1 };
                assert(rest[j].id == other);
            }
            if is_member(rest, other) {
                let j = slot(rest, other);
                let i = if j < k { j } else { j + 1 };
                assert(members[i].id == other);
            }
        }
        assert forall|other: Seq<char>| other != id && is_member(members, other) implies handle_of(
            rest,
            other,
        ) == handle_of(members, other) by {
            let j = slot(rest, other);
            let back = if j < k { j } else { j + 1 };
            assert(rest[j] == members[back]);
            lemma_slot_is_unique(members, other, back);
        }
    }
}

/// Among members with distinct identifiers, the place where `id` stands is
/// the one that `slot` names.
pub proof fn lemma_slot_is_unique(members: Seq<MemberView>, id: Seq<char>, at: int)
    requires
        distinct(members),
        0 <= at < members.len(),
        members[at].id == id,
    ensures
        is_member(members, id),
        slot(members, id) == at,
{
    let k = slot(members, id);
    if k < at {
        assert(members[k].id != members[at].id);
    } else if at < k {
        assert(members[at].id != members[k].id);
    }
}

/// Registering keeps the identifiers distinct, puts `id` last with `handle`,
/// and leaves every other member as it was.
pub proof fn lemma_with_member(members: Seq<MemberView>, id: Seq<char>, handle: OutboundHandle)
    requires
        distinct(members),
    ensures
        distinct(with_member(members, id, handle)),
        is_member(with_member(members, id, handle), id),
        slot(with_member(members, id, handle), id) == with_member(members, id, handle).len() - 1,
        handle_of(with_member(members, id, handle), id) == handle,
        forall|other: Seq<char>|
            other != id ==> is_member(with_member(members, id, handle), other) == is_member(
                members,
                other,
            ),
        forall|other: Seq<char>|
            other != id && is_member(members, other) ==> #[trigger] handle_of(
                with_member(members, id, handle),
                other,
            ) == handle_of(members, other),
{
    lemma_without(members, id);
    let rest = without(members, id);
    let all = with_member(members, id, handle);
    let last = all.len() - 1;
    assert(all[last].id == id);
    assert forall|i: int, j: int| 0 <= i < j < all.len() implies all[i].id != all[j].id by {
        if j == last {
            assert(rest[i].id == all[i].id);
        } else {
            assert(rest[i].id != rest[j].id);
        }
    }
    let k = slot(all, id);
    assert(k == last) by {
        if k < last {
            assert(all[k].id != all[last].id);
        }
    }
    assert forall|other: Seq<char>| other != id implies is_member(all, other) == is_member(
        members,
        other,
    ) by {
        if is_member(rest, other) {
            let i = slot(rest, other);
            assert(all[i].id == other);
        }
        if is_member(all, other) {
            let i = slot(all, other);
            assert(rest[i].id == other);
        }
    }
    assert forall|other: Seq<char>| other != id && is_member(members, other) implies handle_of(
        all,
        other,
    ) == handle_of(members, other) by {
        let j = slot(rest, other);
        assert(rest[j].id == other);
        assert(all[j] == rest[j]);
        lemma_slot_is_unique(all, other, j);
    }
}

/// Among members with distinct identifiers, the identifiers are those of the
/// members, and each stands at exactly one place.
pub proof fn lemma_each_member_once(members: Seq<MemberView>, id: Seq<char>)
    requires
        distinct(members),
    ensures
        ids(members).contains(id) == is_member(members, id),
        is_member(members, id) ==> served_once(ids(members), id),
{
    let names = ids(members);
    if is_member(members, id) {
        let k = slot(members, id);
        assert(names[k] == id);
        assert forall|j: int|
            0 <= j < names.len() && (#[trigger] names[j]) == id implies j == k by {
            if j < k {
                assert(members[j].id != members[k].id);
            } else if k < j {
                assert(members[k].id != members[j].id);
            }
        }
    }
    if names.contains(id) {
        let i = choose|i: int| 0 <= i < names.len() && names[i] == id;
        assert(members[i].id == id);
    }
}

impl Registry {
    /// No identifier is registered twice. This holds of every registry.
    #[verifier::type_invariant]
    pub open spec fn inv(&self) -> bool {
        distinct(self@)
    }

    /// A registry without members.
    pub fn new() -> (registry: Registry)
        ensures
            distinct(registry@),
            registry@ == Seq::<MemberView>::empty(),
    {
        let registry = Registry { members: Vec::new() };
        assert(registry@ =~= Seq::<MemberView>::empty());
        registry
    }

    /// The number of members.
    pub fn len(&self) -> (n: usize)
        ensures
            distinct(self@),
            n == self@.len(),
    {
        proof {
            use_type_invariant(self);
        }
        self.members.len()
    }

    /// Where `id` is registered.
    fn find(&self, id: &str) -> (at: Option<usize>)
        ensures
            distinct(self@),
            at is Some == is_member(self@, id@),
            at matches Some(i) ==> {
                &&& i < self@.len()
                &&& self@[i as int].id == id@
                &&& slot(self@, id@) == i
            },
    {
        proof {
            use_type_invariant(self);
        }
        let wanted: String = id.to_owned();
        let mut i: usize = 0;
        while i < self.members.len()
            invariant
                distinct(self@),
                i <= self.members@.len(),
                wanted@ == id@,
                forall|j: int| 0 <= j < i ==> (#[trigger] self@[j]).id != id@,
            decreases self.members@.len() - i,
        {
            if self.members[i].id == wanted {
                proof {
                    lemma_slot_is_unique(self@, id@, i as int);
                }
                return Some(i);
            }
            i += 1;
        }
        None
    }

    /// Whether `id` is registered.
    pub fn contains(&self, id: &str) -> (found: bool)
        ensures
            distinct(self@),
            found == is_member(self@, id@),
    {
        self.find(id).is_some()
    }

    /// The members at this moment. While the view is held the registry cannot
    /// change, so it never shows half of an insertion or a removal.
    pub fn snapshot(&self) -> (members: &Vec<Member>)
        ensures
            distinct(self@),
            views(members@) == self@,
    {
        proof {
            use_type_invariant(self);
        }
        &self.members
    }

    /// Moves the entries out and leaves the registry empty.
    fn take_members(&mut self) -> (members: Vec<Member>)
        ensures
            members == old(self).members,
            final(self).members@.len() == 0,
    {
        let mut taken = Registry { members: Vec::new() };
        std::mem::swap(self, &mut taken);
        taken.members
    }

    /// Registers `id` with `handle`. An entry that `id` already had is
    /// replaced without notice: the queue that it named is no longer served.
    pub fn register(&mut self, id: String, handle: OutboundHandle)
        ensures
            distinct(final(self)@),
            final(self)@ == with_member(old(self)@, id@, handle),
    {
        proof {
            use_type_invariant(&*self);
        }
        self.deregister(id.as_str());
        let member = Member { id, handle };
        proof {
            lemma_with_member(old(self)@, member@.id, member@.handle);
            assert(views(self.members@.push(member)) =~= self@.push(member@));
        }
        let mut members = self.take_members();
        members.push(member);
        *self = Registry { members };
    }

    /// Removes the entry of `id`, whoever registered it, and says whether
    /// there was one. Nothing changes where `id` is not registered.
    pub fn deregister(&mut self, id: &str) -> (removed: bool)
        ensures
            distinct(final(self)@),
            final(self)@ == without(old(self)@, id@),
            removed == is_member(old(self)@, id@),
    {
        match self.find(id) {
            Some(i) => {
                proof {
                    lemma_without(self@, id@);
                    assert(views(self.members@.remove(i as int)) =~= self@.remove(i as int));
                }
                let mut members = self.take_members();
                members.remove(i);
                *self = Registry { members };
                true
            },
            None => false,
        }
    }

    /// Offers `payload` to the queue of every member but `skip`, in the
    /// registry's order, and records each attempt.
    fn fan_out(&self, skip: Option<&str>, payload: &str) -> (deliveries: Vec<Delivery>)
        ensures
            distinct(self@),
            recipients(deliveries@) == audience(
                self@,
                match skip {
                    Some(id) => Some(id@),
                    None => None,
                },
            ),
    {
        proof {
            use_type_invariant(self);
        }
        let skipped: Option<usize> = match skip {
            Some(id) => self.find(id),
            None => None,
        };
        let ghost served: Seq<MemberView> = match skip {
            Some(id) => without(self@, id@),
            None => self@,
        };
        let mut deliveries: Vec<Delivery> = Vec::new();
        let mut i: usize = 0;
        while i < self.members.len()
            invariant
                i <= self.members@.len(),
                self@.len() == self.members@.len(),
                skipped matches Some(k) ==> k < self@.len() && served == self@.remove(k as int),
                skipped is None ==> served == self@,
                deliveries@.len() == (if skipped is Some && skipped->0 < i {
                    i - 1
                } else {
                    i as int
                }),
                forall|j: int|
                    0 <= j < deliveries@.len() ==> (#[trigger] deliveries@[j]).recipient@
                        == served[j].id,
            decreases self.members@.len() - i,
        {
            if skipped != Some(i) {
                let member = &self.members[i];
                let accepted = member.handle.offer(payload);
                assert(self@[i as int].id == member.id@);
                deliveries.push(Delivery { recipient: member.id.clone(), accepted });
            }
            i += 1;
        }
        assert(recipients(deliveries@) =~= ids(served));
        deliveries
    }

    /// Offers an already encoded payload to every member, whatever becomes of
    /// each attempt.
    pub fn broadcast_payload(&self, payload: &str) -> (deliveries: Vec<Delivery>)
        ensures
            distinct(self@),
            recipients(deliveries@) == audience(self@, None),
    {
        self.fan_out(None, payload)
    }

    /// Offers an already encoded payload to every member but `origin`,
    /// whatever becomes of each attempt.
    pub fn relay_payload(&self, origin: &str, payload: &str) -> (deliveries: Vec<Delivery>)
        ensures
            distinct(self@),
            recipients(deliveries@) == audience(self@, Some(origin@)),
    {
        self.fan_out(Some(origin), payload)
    }

    /// Encodes `msg` once and offers it to every member. A queue that does
    /// not take it is passed over; that is no failure of the broadcast.
    pub fn broadcast(&self, msg: &ChatMessage) -> (out: Result<Broadcast, RelayError>)
        ensures
            distinct(self@),
            out matches Ok(sent) && sent.payload@ == wire(msg@) && recipients(sent.deliveries@)
                == audience(self@, None),
    {
        proof {
            use_type_invariant(self);
        }
        match encode(msg) {
            Ok(payload) => {
                let deliveries = self.fan_out(None, payload.as_str());
                Ok(Broadcast { payload, deliveries })
            },
            Err(e) => Err(e),
        }
    }

    /// Encodes `msg` once and offers it to every member but `origin`, the
    /// client that sent it.
    pub fn relay(&self, origin: &str, msg: &ChatMessage) -> (out: Result<Broadcast, RelayError>)
        ensures
            distinct(self@),
            out matches Ok(sent) && sent.payload@ == wire(msg@) && recipients(sent.deliveries@)
                == audience(self@, Some(origin@)),
    {
        proof {
            use_type_invariant(self);
        }
        match encode(msg) {
            Ok(payload) => {
                let deliveries = self.fan_out(Some(origin), payload.as_str());
                Ok(Broadcast { payload, deliveries })
            },
            Err(e) => Err(e),
        }
    }
}

} // verus!
