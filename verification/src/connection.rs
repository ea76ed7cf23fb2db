//! The life cycle of one connection: it registers and announces itself, turns
//! inbound frames into broadcasts, and deregisters and announces its leaving.
//!
//! Waiting for a frame and writing one are the caller's part. The caller hands
//! in what the transport yielded and the time, and carries on while the
//! connection has not reached `Phase::Disconnecting`.

use crate::error::RelayError;
use crate::message::{joined_text, left_text, system_user, ChatMessage, MessageView};
use crate::outbound::OutboundHandle;
use crate::registry::{
    audience, distinct, handle_of, is_member, lemma_with_member, lemma_without, recipients,
    with_member, without, Broadcast, Registry,
};
use crate::wire::{encode, wire};
use vstd::prelude::*;

verus! {

/// Where a connection stands in its life.
#[derive(Clone, Copy, Debug, PartialEq, Eq, Structural)]
pub enum Phase {
    /// The transport is up; the client is not registered yet.
    Connecting,
    /// Registered and announced; inbound frames are relayed.
    Active,
    /// The transport has ended or failed; the client is still registered.
    Disconnecting,
    /// Deregistered, its leaving announced.
    Terminated,
}

/// What the transport yielded to a connection.
#[derive(Debug)]
pub enum Inbound {
    /// A text frame with its text.
    Text(String),
    /// A text frame whose content does not decode as text.
    Undecodable,
    /// Any frame that is not a text frame.
    NonText,
    /// The end of the inbound stream.
    Closed,
    /// An error while reading.
    Failed,
    /// The outbound side could not write to the transport.
    OutboundFailed,
}

/// What a connection did with one inbound frame.
#[derive(Debug)]
pub enum Outcome {
    /// Nothing: the frame was not a decodable text frame.
    Ignored,
    /// The text was broadcast to the other members.
    Relayed(Broadcast),
    /// The connection has begun to disconnect.
    Ended,
}

/// The message that `id` sends with the body `text`, accepted at `now`.
pub open spec fn chat_message(id: Seq<char>, text: Seq<char>, now: u64) -> MessageView {
    MessageView { user: id, message: text, timestamp: now }
}

/// The notification that `id` has connected, made at `now`.
pub open spec fn joined_message(id: Seq<char>, now: u64) -> MessageView {
    MessageView { user: system_user(), message: joined_text(id), timestamp: now }
}

/// The notification that `id` has disconnected, made at `now`.
pub open spec fn left_message(id: Seq<char>, now: u64) -> MessageView {
    MessageView { user: system_user(), message: left_text(id), timestamp: now }
}

/// One client's connection: the identifier that it gave and its phase.
#[derive(Debug)]
pub struct Connection {
    id: String,
    phase: Phase,
}

impl Connection {
    /// The identifier that the client gave.
    pub closed spec fn id_view(&self) -> Seq<char> {
        self.id@
    }

    /// The phase that the connection is in.
    pub closed spec fn phase_view(&self) -> Phase {
        self.phase
    }

    /// A connection for the client `id`, not yet registered. Any text is
    /// taken as an identifier.
    pub fn new(id: String) -> (conn: Connection)
        ensures
            conn.id_view() == id@,
            conn.phase_view() == Phase::Connecting,
    {
        Connection { id, phase: Phase::Connecting }
    }

    /// The identifier that the client gave.
    pub fn id(&self) -> (id: &str)
        ensures
            id@ == self.id_view(),
    {
        self.id.as_str()
    }

    /// The phase that the connection is in.
    pub fn phase(&self) -> (phase: Phase)
        ensures
            phase == self.phase_view(),
    {
        self.phase
    }

    /// Registers the client with `handle` and announces it to every member,
    /// itself included: `Connecting` becomes `Active`. This succeeds on every
    /// `Connecting` connection; in any other phase nothing changes.
    pub fn activate(
        &mut self,
        registry: &mut Registry,
        handle: OutboundHandle,
        now: u64,
    ) -> (out: Result<Broadcast, RelayError>)
        ensures
            distinct(final(registry)@),
            final(self).id_view() == old(self).id_view(),
            old(self).phase_view() != Phase::Connecting ==> out == Err::<Broadcast, RelayError>(
                RelayError::OutOfPhase,
            ),
            old(self).phase_view() == Phase::Connecting ==> {
                &&& final(self).phase_view() == Phase::Active
                &&& final(registry)@ == with_member(old(registry)@, old(self).id_view(), handle)
                &&& is_member(final(registry)@, old(self).id_view())
                &&& handle_of(final(registry)@, old(self).id_view()) == handle
                &&& out matches Ok(sent) && {
                    &&& sent.payload@ == wire(joined_message(old(self).id_view(), now))
                    &&& recipients(sent.deliveries@) == audience(final(registry)@, None)
                }
            },
            out is Err ==> final(self).phase_view() == old(self).phase_view() && final(registry)@
                == old(registry)@,
    {
        proof {
            use_type_invariant(&*registry);
        }
        match self.phase {
            Phase::Connecting => {},
            _ => {
                return Err(RelayError::OutOfPhase);
            },
        }
        let announcement = ChatMessage::joined(self.id.as_str(), now);
        let payload = match encode(&announcement) {
            Ok(payload) => payload,
            Err(e) => {
                return Err(e);
            },
        };
        proof {
            lemma_with_member(registry@, self.id@, handle);
        }
        registry.register(self.id.clone(), handle);
        self.phase = Phase::Active;
        let deliveries = registry.broadcast_payload(payload.as_str());
        Ok(Broadcast { payload, deliveries })
    }

    /// Takes one thing that the transport yielded while the connection is
    /// `Active`. A text is stamped with `now` and relayed to every member but
    /// this client. A frame that is no decodable text is ignored. The end of
    /// the stream or a transport error makes the connection `Disconnecting`.
    pub fn receive(&mut self, registry: &Registry, frame: Inbound, now: u64) -> (out: Result<
        Outcome,
        RelayError,
    >)
        ensures
            distinct(registry@),
            final(self).id_view() == old(self).id_view(),
            old(self).phase_view() != Phase::Active ==> out == Err::<Outcome, RelayError>(
                RelayError::OutOfPhase,
            ) && final(self).phase_view() == old(self).phase_view(),
            old(self).phase_view() == Phase::Active ==> match frame {
                Inbound::Text(text) => {
                    &&& final(self).phase_view() == Phase::Active
                    &&& out matches Ok(Outcome::Relayed(sent)) && {
                        &&& sent.payload@ == wire(chat_message(old(self).id_view(), text@, now))
                        &&& recipients(sent.deliveries@) == audience(
                            registry@,
                            Some(old(self).id_view()),
                        )
                    }
                },
                Inbound::Undecodable | Inbound::NonText => {
                    &&& out == Ok::<Outcome, RelayError>(Outcome::Ignored)
                    &&& final(self).phase_view() == Phase::Active
                },
                Inbound::Closed | Inbound::Failed | Inbound::OutboundFailed => {
                    &&& out == Ok::<Outcome, RelayError>(Outcome::Ended)
                    &&& final(self).phase_view() == Phase::Disconnecting
                },
            },
    {
        proof {
            use_type_invariant(&*registry);
        }
        match self.phase {
            Phase::Active => {},
            _ => {
                return Err(RelayError::OutOfPhase);
            },
        }
        match frame {
            Inbound::Text(text) => {
                let msg = ChatMessage::new(self.id.clone(), text, now);
                match registry.relay(self.id.as_str(), &msg) {
                    Ok(sent) => Ok(Outcome::Relayed(sent)),
                    Err(e) => Err(e),
                }
            },
            Inbound::Undecodable | Inbound::NonText => Ok(Outcome::Ignored),
            Inbound::Closed | Inbound::Failed | Inbound::OutboundFailed => {
                self.phase = Phase::Disconnecting;
                Ok(Outcome::Ended)
            },
        }
    }

    /// Ends a `Disconnecting` connection: removes the entry under the
    /// client's identifier, whoever registered it, and then announces the
    /// leaving to the members that remain. This succeeds on every
    /// `Disconnecting` connection; in any other phase nothing changes.
    pub fn finish(&mut self, registry: &mut Registry, now: u64) -> (out: Result<
        Broadcast,
        RelayError,
    >)
        ensures
            distinct(final(registry)@),
            final(self).id_view() == old(self).id_view(),
            old(self).phase_view() != Phase::Disconnecting ==> {
                &&& out == Err::<Broadcast, RelayError>(RelayError::OutOfPhase)
                &&& final(self).phase_view() == old(self).phase_view()
                &&& final(registry)@ == old(registry)@
            },
            old(self).phase_view() == Phase::Disconnecting ==> {
                &&& final(self).phase_view() == Phase::Terminated
                &&& final(registry)@ == without(old(registry)@, old(self).id_view())
                &&& !is_member(final(registry)@, old(self).id_view())
                &&& out matches Ok(sent) && {
                    &&& sent.payload@ == wire(left_message(old(self).id_view(), now))
                    &&& recipients(sent.deliveries@) == audience(final(registry)@, None)
                }
            },
    {
        proof {
            use_type_invariant(&*registry);
        }
        match self.phase {
            Phase::Disconnecting => {},
            _ => {
                return Err(RelayError::OutOfPhase);
            },
        }
        proof {
            lemma_without(registry@, self.id@);
        }
        registry.deregister(self.id.as_str());
        self.phase = Phase::Terminated;
        let announcement = ChatMessage::left(self.id.as_str(), now);
        registry.broadcast(&announcement)
    }
}

} // verus!
