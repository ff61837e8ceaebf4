//! The peer: the per-process RPC multiplexer.
//!
//! A [`Peer`] owns the bookkeeping for any number of connections: it mints
//! connection and message identifiers, queues outbound envelopes, registers a
//! response slot for every dispatched request, and tears a connection's state
//! down consistently on disconnect or transport failure.
//!
//! The peer is a sequential state machine.  An embedding owns the transports
//! and drives each connection's I/O; every decision the I/O loop takes is a
//! call into this module — [`Peer::io_step`] and [`Peer::io_next_outgoing`] —
//! so the embedding performs the reads, writes and waits but decides nothing.

use vstd::prelude::*;

use crate::error::RpcError;
use crate::proto::{
    is_request_kind, response_kind, spec_build_typed_envelope, spec_response_kind,
    build_typed_envelope, Envelope, Payload, PayloadKind,
};

verus! {

/// Identifies one transport attachment of a [`Peer`].  Minted by the peer;
/// unique within that peer's lifetime and never reused, even after the
/// connection is torn down.
#[derive(Clone, Copy, PartialEq, Eq, Hash, Debug, Structural)]
pub struct ConnectionId(pub u32);

/// The logical identity of a peer process, assigned out of band.  It appears
/// only inside envelopes, to attribute forwarded traffic to its originator; a
/// peer never mints one and never equates it with a [`ConnectionId`].
#[derive(Clone, Copy, PartialEq, Eq, Hash, Debug, Structural)]
pub struct PeerId(pub u32);

/// The unforgeable token required to answer one received request: the
/// connection the request arrived on, and the request's message id.
#[derive(Clone, Copy, PartialEq, Eq, Debug, Structural)]
pub struct Receipt {
    /// The connection the request arrived on.
    pub sender_id: ConnectionId,
    /// The message id of the request envelope.
    pub message_id: u32,
}

/// An inbound non-response envelope decoded for in-process dispatch.
#[derive(Clone, PartialEq, Eq, Debug)]
pub struct TypedEnvelope {
    /// The connection the envelope arrived on.
    pub sender_id: ConnectionId,
    /// The logical originator, present iff the envelope was forwarded.
    pub original_sender_id: Option<PeerId>,
    /// The envelope's message id on its sender's connection.
    pub message_id: u32,
    /// The decoded content.
    pub payload: Payload,
}

impl TypedEnvelope {
    /// The logical originator of a forwarded envelope, or an error when the
    /// envelope was not forwarded.
    pub fn original_sender_id(&self) -> (r: Result<PeerId, RpcError>)
        ensures
            r == match self.original_sender_id {
                Some(id) => Result::<PeerId, RpcError>::Ok(id),
                None => Result::<PeerId, RpcError>::Err(RpcError::MissingOriginalSenderId),
            },
    {
        match self.original_sender_id {
            Some(id) => Ok(id),
            None => Err(RpcError::MissingOriginalSenderId),
        }
    }

    /// The receipt needed to answer this envelope.  Only requests carry one.
    pub fn receipt(&self) -> (r: Receipt)
        requires
            is_request_kind(self.payload.spec_kind()),
        ensures
            r == (Receipt { sender_id: self.sender_id, message_id: self.message_id }),
    {
        Receipt { sender_id: self.sender_id, message_id: self.message_id }
    }
}

/// Per-connection bookkeeping.
///
/// Message ids are minted from a counter that starts at zero and only ever
/// grows, so `response_channels` can be kept dense: slot `i` records whether
/// message id `i` belongs to a request whose response is still owed.  The
/// counter itself is the number of slots.
pub struct Connection {
    /// Envelopes accepted for transmission and not yet handed to the
    /// transport, front first.
    outgoing: Vec<Envelope>,
    /// Slot `i` is `true` iff message id `i` awaits its response.
    response_channels: Vec<bool>,
    /// The envelopes already handed to the transport, in order.
    wire: Ghost<Seq<Envelope>>,
}

impl Connection {
    /// The next message id this connection will mint; also the number of
    /// message ids minted so far.
    pub closed spec fn spec_next_message_id(&self) -> int {
        self.response_channels@.len() as int
    }

    /// True iff a response delivery slot is registered for `mid`.
    pub closed spec fn spec_pending(&self, mid: u32) -> bool {
        mid < self.response_channels@.len() && self.response_channels@[mid as int]
    }

    /// Every message id minted so far, in minting order.
    pub open spec fn spec_allocated_ids(&self) -> Seq<u32> {
        Seq::new(self.spec_next_message_id() as nat, |i: int| i as u32)
    }

    /// Envelopes accepted for transmission and not yet written, front first.
    pub closed spec fn spec_outgoing(&self) -> Seq<Envelope> {
        self.outgoing@
    }

    /// Envelopes already written to the transport, in order.
    pub closed spec fn spec_wire(&self) -> Seq<Envelope> {
        self.wire@
    }

    /// Every envelope accepted for transmission, in the order accepted:
    /// first what was written, then what still waits.
    pub open spec fn spec_enqueue_history(&self) -> Seq<Envelope> {
        self.spec_wire() + self.spec_outgoing()
    }

    /// Well-formedness: the message id counter fits its wire type.
    pub closed spec fn wf(&self) -> bool {
        self.response_channels@.len() <= u32::MAX
    }

    /// Mint the next message id, registering a response slot for it iff
    /// `register`.  `None` once the id space is exhausted.
    fn mint_message_id(&mut self, register: bool) -> (r: Option<u32>)
        requires
            old(self).wf(),
        ensures
            final(self).wf(),
            r is Some <==> old(self).spec_next_message_id() < u32::MAX,
            r is None ==> *final(self) == *old(self),
            r matches Some(mid) ==> {
                &&& mid == old(self).spec_next_message_id()
                &&& !old(self).spec_pending(mid)
                &&& final(self).spec_next_message_id() == old(self).spec_next_message_id() + 1
                &&& forall|m: u32|
                    (#[trigger] final(self).spec_pending(m)) == (old(self).spec_pending(m) || (
                    register && m == mid))
                &&& final(self).spec_outgoing() == old(self).spec_outgoing()
                &&& final(self).spec_wire() == old(self).spec_wire()
            },
    {
        if self.response_channels.len() >= u32::MAX as usize {
            return None;
        }
        let mid = self.response_channels.len() as u32;
        self.response_channels.push(register);
        Some(mid)
    }

    /// Append an envelope to the outbound queue.
    fn enqueue(&mut self, envelope: Envelope)
        ensures
            final(self).wf() == old(self).wf(),
            final(self).spec_next_message_id() == old(self).spec_next_message_id(),
            forall|m: u32|
                (#[trigger] final(self).spec_pending(m)) == old(self).spec_pending(m),
            final(self).spec_outgoing() == old(self).spec_outgoing().push(envelope),
            final(self).spec_wire() == old(self).spec_wire(),
    {
        self.outgoing.push(envelope);
    }
}

/// The per-process RPC multiplexer.  See the module documentation.
pub struct Peer {
    /// Slot `i` holds the connection with id `i`, or `None` once that
    /// connection is torn down.  Ids are never reused, so the vector only
    /// grows.
    connections: Vec<Option<Connection>>,
}

impl Peer {
    /// Well-formedness: every live connection is well formed, and the
    /// connection id counter fits its wire type.
    pub closed spec fn wf(&self) -> bool {
        &&& self.connections@.len() <= u32::MAX
        &&& forall|i: int|
            0 <= i < self.connections@.len() ==> ((#[trigger] self.connections@[i]) matches Some(c)
                ==> c.wf())
    }

    /// The next connection id this peer will mint; also the number of
    /// connection ids minted so far.
    pub closed spec fn spec_next_connection_id(&self) -> int {
        self.connections@.len() as int
    }

    /// True iff `id` names a live connection of this peer.
    pub closed spec fn spec_has_connection(&self, id: ConnectionId) -> bool {
        id.0 < self.connections@.len() && self.connections@[id.0 as int] is Some
    }

    /// The live connection named by `id`.
    pub closed spec fn spec_connection(&self, id: ConnectionId) -> Connection
        recommends
            self.spec_has_connection(id),
    {
        self.connections@[id.0 as int]->Some_0
    }

    /// Create a peer with no connections.
    pub fn new() -> (r: Peer)
        ensures
            r.wf(),
            r.spec_next_connection_id() == 0,
            forall|c: ConnectionId| !(#[trigger] r.spec_has_connection(c)),
    {
        Peer { connections: Vec::new() }
    }

    /// Attach a new connection, minting a fresh connection id.  The new
    /// connection starts with no queued envelopes, no pending requests, and a
    /// message id counter at zero.  The embedding is expected to start an I/O
    /// task for the id; the peer does not spawn.
    pub fn add_connection(&mut self) -> (id: ConnectionId)
        requires
            old(self).wf(),
            old(self).spec_next_connection_id() < u32::MAX,
        ensures
            final(self).wf(),
            id.0 == old(self).spec_next_connection_id(),
            !old(self).spec_has_connection(id),
            final(self).spec_has_connection(id),
            final(self).spec_next_connection_id() == old(self).spec_next_connection_id() + 1,
            final(self).spec_connection(id).spec_next_message_id() == 0,
            forall|m: u32| !(#[trigger] final(self).spec_connection(id).spec_pending(m)),
            final(self).spec_connection(id).spec_outgoing() == Seq::<Envelope>::empty(),
            final(self).spec_connection(id).spec_wire() == Seq::<Envelope>::empty(),
            forall|other: ConnectionId|
                other != id ==> #[trigger] final(self).spec_has_connection(other) == old(
                    self,
                ).spec_has_connection(other),
            forall|other: ConnectionId|
                other != id && old(self).spec_has_connection(other)
                    ==> #[trigger] final(self).spec_connection(other) == old(self).spec_connection(
                    other,
                ),
    {
        let id = ConnectionId(self.connections.len() as u32);
        self.connections.push(
            Some(
                Connection {
                    outgoing: Vec::new(),
                    response_channels: Vec::new(),
                    wire: Ghost(Seq::empty()),
                },
            ),
        );
        id
    }

    /// Tear down connection `id`: drop its response slots, failing every
    /// request in flight on it, and forget the connection.  Unknown ids are a
    /// no-op; the id is dead either way, since ids are never reused.
    pub fn disconnect(&mut self, id: ConnectionId)
        requires
            old(self).wf(),
        ensures
            final(self).wf(),
            disconnect_post(*old(self), *final(self), id),
    {
        let idx = id.0 as usize;
        if idx < self.connections.len() {
            self.connections[idx] = None;
        }
    }

    /// Tear down every connection, as `disconnect` does for one.
    pub fn reset(&mut self)
        requires
            old(self).wf(),
        ensures
            final(self).wf(),
            final(self).spec_next_connection_id() == old(self).spec_next_connection_id(),
            forall|c: ConnectionId| !(#[trigger] final(self).spec_has_connection(c)),
    {
        let mut i: usize = 0;
        while i < self.connections.len()
            invariant
                self.connections@.len() == old(self).connections@.len(),
                old(self).wf(),
                i <= self.connections@.len(),
                forall|j: int| 0 <= j < i ==> (#[trigger] self.connections@[j]) is None,
                forall|j: int|
                    i <= j < self.connections@.len() ==> (#[trigger] self.connections@[j]) == old(
                        self,
                    ).connections@[j],
            decreases self.connections@.len() - i,
        {
            self.connections[i] = None;
            i = i + 1;
        }
    }

    /// Fire-and-forget: mint a message id on `receiver_id`'s connection and
    /// queue `message` for transmission.  No response slot is registered.
    pub fn send(&mut self, receiver_id: ConnectionId, message: Payload) -> (r: Result<
        (),
        RpcError,
    >)
        requires
            old(self).wf(),
        ensures
            final(self).wf(),
            r is Ok <==> old(self).spec_has_connection(receiver_id) && old(self).spec_connection(
                receiver_id,
            ).spec_next_message_id() < u32::MAX,
            r is Err ==> r == Err::<(), RpcError>(RpcError::ConnectionClosed) && peer_unchanged(
                *old(self),
                *final(self),
            ),
            r is Ok ==> enqueue_post(
                *old(self),
                *final(self),
                receiver_id,
                (Envelope {
                    message_id: old(self).spec_connection(receiver_id).spec_next_message_id()
                        as u32,
                    responding_to: None,
                    original_sender_id: None,
                    payload: message,
                }),
            ),
    {
        self.enqueue_message(receiver_id, None, None, message)
    }

    /// As `send`, but tag the envelope as forwarded traffic originated by
    /// `sender_id`.
    pub fn forward_send(
        &mut self,
        sender_id: ConnectionId,
        receiver_id: ConnectionId,
        message: Payload,
    ) -> (r: Result<(), RpcError>)
        requires
            old(self).wf(),
        ensures
            final(self).wf(),
            r is Ok <==> old(self).spec_has_connection(receiver_id) && old(self).spec_connection(
                receiver_id,
            ).spec_next_message_id() < u32::MAX,
            r is Err ==> r == Err::<(), RpcError>(RpcError::ConnectionClosed) && peer_unchanged(
                *old(self),
                *final(self),
            ),
            r is Ok ==> enqueue_post(
                *old(self),
                *final(self),
                receiver_id,
                (Envelope {
                    message_id: old(self).spec_connection(receiver_id).spec_next_message_id()
                        as u32,
                    responding_to: None,
                    original_sender_id: Some(sender_id.0),
                    payload: message,
                }),
            ),
    {
        self.enqueue_message(receiver_id, None, Some(sender_id.0), message)
    }

    /// Queue one envelope on `receiver_id`'s connection, minting its message
    /// id.  The shared body of every non-request operation that transmits.
    fn enqueue_message(
        &mut self,
        receiver_id: ConnectionId,
        responding_to: Option<u32>,
        original_sender_id: Option<u32>,
        message: Payload,
    ) -> (r: Result<(), RpcError>)
        requires
            old(self).wf(),
        ensures
            final(self).wf(),
            r is Ok <==> old(self).spec_has_connection(receiver_id) && old(self).spec_connection(
                receiver_id,
            ).spec_next_message_id() < u32::MAX,
            r is Err ==> r == Err::<(), RpcError>(RpcError::ConnectionClosed) && peer_unchanged(
                *old(self),
                *final(self),
            ),
            r is Ok ==> enqueue_post(
                *old(self),
                *final(self),
                receiver_id,
                (Envelope {
                    message_id: old(self).spec_connection(receiver_id).spec_next_message_id()
                        as u32,
                    responding_to,
                    original_sender_id,
                    payload: message,
                }),
            ),
    {
        let idx = receiver_id.0 as usize;
        if idx >= self.connections.len() {
            return Err(RpcError::ConnectionClosed);
        }
        match &mut self.connections[idx] {
            None => Err(RpcError::ConnectionClosed),
            Some(conn) => {
                match conn.mint_message_id(false) {
                    None => Err(RpcError::ConnectionClosed),
                    Some(mid) => {
                        conn.enqueue(message.into_envelope(mid, responding_to, original_sender_id));
                        Ok(())
                    },
                }
            },
        }
    }

    /// Dispatch `request` on `receiver_id`'s connection: mint a message id,
    /// register a response slot for it, and queue the request envelope.  The
    /// returned token resolves through [`PendingRequest::finish`] once the
    /// embedding delivers the reply — or the teardown — for that slot.
    pub fn request(&mut self, receiver_id: ConnectionId, request: Payload) -> (r: Result<
        PendingRequest,
        RpcError,
    >)
        requires
            old(self).wf(),
            is_request_kind(request.spec_kind()),
        ensures
            final(self).wf(),
            r is Ok <==> old(self).spec_has_connection(receiver_id) && old(self).spec_connection(
                receiver_id,
            ).spec_next_message_id() < u32::MAX,
            r is Err ==> r == Err::<PendingRequest, RpcError>(RpcError::ConnectionClosed)
                && peer_unchanged(*old(self), *final(self)),
            r matches Ok(pr) ==> {
                &&& pr.connection_id == receiver_id
                &&& Some(pr.expected) == spec_response_kind(request.spec_kind())
                &&& request_post(
                    *old(self),
                    *final(self),
                    receiver_id,
                    (Envelope {
                        message_id: pr.message_id,
                        responding_to: None,
                        original_sender_id: None,
                        payload: request,
                    }),
                    pr.message_id,
                )
            },
    {
        self.request_internal(None, receiver_id, request)
    }

    /// As `request`, but tag the envelope as forwarded traffic originated by
    /// `sender_id`, so the receiver can attribute it.
    pub fn forward_request(
        &mut self,
        sender_id: ConnectionId,
        receiver_id: ConnectionId,
        request: Payload,
    ) -> (r: Result<PendingRequest, RpcError>)
        requires
            old(self).wf(),
            is_request_kind(request.spec_kind()),
        ensures
            final(self).wf(),
            r is Ok <==> old(self).spec_has_connection(receiver_id) && old(self).spec_connection(
                receiver_id,
            ).spec_next_message_id() < u32::MAX,
            r is Err ==> r == Err::<PendingRequest, RpcError>(RpcError::ConnectionClosed)
                && peer_unchanged(*old(self), *final(self)),
            r matches Ok(pr) ==> {
                &&& pr.connection_id == receiver_id
                &&& Some(pr.expected) == spec_response_kind(request.spec_kind())
                &&& request_post(
                    *old(self),
                    *final(self),
                    receiver_id,
                    (Envelope {
                        message_id: pr.message_id,
                        responding_to: None,
                        original_sender_id: Some(sender_id.0),
                        payload: request,
                    }),
                    pr.message_id,
                )
            },
    {
        self.request_internal(Some(sender_id), receiver_id, request)
    }

    /// The shared body of `request` and `forward_request`:
    /// `original_sender_id` is the forwarding originator, if any.
    pub fn request_internal(
        &mut self,
        original_sender_id: Option<ConnectionId>,
        receiver_id: ConnectionId,
        request: Payload,
    ) -> (r: Result<PendingRequest, RpcError>)
        requires
            old(self).wf(),
            is_request_kind(request.spec_kind()),
        ensures
            final(self).wf(),
            r is Ok <==> old(self).spec_has_connection(receiver_id) && old(self).spec_connection(
                receiver_id,
            ).spec_next_message_id() < u32::MAX,
            r is Err ==> r == Err::<PendingRequest, RpcError>(RpcError::ConnectionClosed)
                && peer_unchanged(*old(self), *final(self)),
            r matches Ok(pr) ==> {
                &&& pr.connection_id == receiver_id
                &&& Some(pr.expected) == spec_response_kind(request.spec_kind())
                &&& request_post(
                    *old(self),
                    *final(self),
                    receiver_id,
                    (Envelope {
                        message_id: pr.message_id,
                        responding_to: None,
                        original_sender_id: match original_sender_id {
                            Some(cid) => Some(cid.0),
                            None => None,
                        },
                        payload: request,
                    }),
                    pr.message_id,
                )
            },
    {
        let expected = match response_kind(request.kind()) {
            Some(k) => k,
            None => {
                return Err(RpcError::ConnectionClosed);
            },
        };
        let orig = match original_sender_id {
            Some(cid) => Some(cid.0),
            None => None,
        };
        let idx = receiver_id.0 as usize;
        if idx >= self.connections.len() {
            return Err(RpcError::ConnectionClosed);
        }
        match &mut self.connections[idx] {
            None => Err(RpcError::ConnectionClosed),
            Some(conn) => {
                match conn.mint_message_id(true) {
                    None => Err(RpcError::ConnectionClosed),
                    Some(mid) => {
                        conn.enqueue(request.into_envelope(mid, None, orig));
                        Ok(
                            PendingRequest {
                                connection_id: receiver_id,
                                message_id: mid,
                                expected,
                            },
                        )
                    },
                }
            },
        }
    }

    /// Answer a received request: queue `response` on the connection named by
    /// the receipt, correlated to the request through `responding_to`.  The
    /// response envelope gets a fresh message id of its own.
    pub fn respond(&mut self, receipt: Receipt, response: Payload) -> (r: Result<(), RpcError>)
        requires
            old(self).wf(),
        ensures
            final(self).wf(),
            r is Ok <==> old(self).spec_has_connection(receipt.sender_id) && old(
                self,
            ).spec_connection(receipt.sender_id).spec_next_message_id() < u32::MAX,
            r is Err ==> r == Err::<(), RpcError>(RpcError::ConnectionClosed) && peer_unchanged(
                *old(self),
                *final(self),
            ),
            r is Ok ==> enqueue_post(
                *old(self),
                *final(self),
                receipt.sender_id,
                (Envelope {
                    message_id: old(self).spec_connection(
                        receipt.sender_id,
                    ).spec_next_message_id() as u32,
                    responding_to: Some(receipt.message_id),
                    original_sender_id: None,
                    payload: response,
                }),
            ),
    {
        self.enqueue_message(receipt.sender_id, Some(receipt.message_id), None, response)
    }

    /// Answer a received request with a failure: as `respond`, with an error
    /// payload carrying `error`.
    pub fn respond_with_error(&mut self, receipt: Receipt, error: crate::proto::Error) -> (r:
        Result<(), RpcError>)
        requires
            old(self).wf(),
        ensures
            final(self).wf(),
            r is Ok <==> old(self).spec_has_connection(receipt.sender_id) && old(
                self,
            ).spec_connection(receipt.sender_id).spec_next_message_id() < u32::MAX,
            r is Err ==> r == Err::<(), RpcError>(RpcError::ConnectionClosed) && peer_unchanged(
                *old(self),
                *final(self),
            ),
            r is Ok ==> enqueue_post(
                *old(self),
                *final(self),
                receipt.sender_id,
                (Envelope {
                    message_id: old(self).spec_connection(
                        receipt.sender_id,
                    ).spec_next_message_id() as u32,
                    responding_to: Some(receipt.message_id),
                    original_sender_id: None,
                    payload: Payload::Error(error),
                }),
            ),
    {
        self.enqueue_message(receipt.sender_id, Some(receipt.message_id), None, Payload::Error(error))
    }
}

/// A request dispatched on a connection, awaiting its reply.
#[derive(Clone, Copy, PartialEq, Eq, Debug, Structural)]
pub struct PendingRequest {
    /// The connection the request went out on.
    pub connection_id: ConnectionId,
    /// The message id minted for the request envelope; the reply names it in
    /// `responding_to`.
    pub message_id: u32,
    /// The payload kind the reply must decode into.
    pub expected: PayloadKind,
}

/// What a pending request resolves to once its response slot yields
/// `delivery`.  `None` — the slot was dropped by teardown — means the
/// connection closed.  An error payload fails the request with the remote
/// message; any other payload must decode into the expected response kind.
pub open spec fn spec_finish(pr: PendingRequest, delivery: Option<Envelope>) -> Result<
    Payload,
    RpcError,
> {
    match delivery {
        None => Err(RpcError::ConnectionClosed),
        Some(reply) => match reply.payload {
            Payload::Error(e) => Err(RpcError::RemoteError(e.message)),
            p => if p.spec_kind() == pr.expected {
                Ok(p)
            } else {
                Err(RpcError::WrongResponseType)
            },
        },
    }
}

impl PendingRequest {
    /// Resolve this request from what its response slot delivered.
    pub fn finish(self, delivery: Option<Envelope>) -> (r: Result<Payload, RpcError>)
        ensures
            r == spec_finish(self, delivery),
    {
        match delivery {
            None => Err(RpcError::ConnectionClosed),
            Some(reply) => match reply.payload {
                Payload::Error(e) => Err(RpcError::RemoteError(e.message)),
                p => {
                    if p.kind() == self.expected {
                        Ok(p)
                    } else {
                        Err(RpcError::WrongResponseType)
                    }
                },
            },
        }
    }
}

/// What a connection's I/O task observed: one envelope read, a failed read or
/// write, or the closure of the inbound queue by its consumer.
#[derive(Clone, PartialEq, Eq, Debug)]
pub enum IoEvent {
    /// The transport yielded an envelope.
    Incoming(Envelope),
    /// The transport read failed; the codec could not produce an envelope.
    ReadFailed,
    /// Writing the current outbound envelope to the transport failed.
    WriteFailed,
    /// The consumer of the inbound queue is gone: the application no longer
    /// wants messages from this connection.
    InboundClosed,
}

/// How a terminated I/O task reports its cause.
#[derive(Clone, Copy, PartialEq, Eq, Debug, Structural)]
pub enum IoOutcome {
    /// Orderly shutdown: the connection was torn down locally, or the
    /// application dropped the inbound queue.
    CleanShutdown,
    /// A transport read failed: the task received an invalid RPC message.
    ReadError,
    /// A transport write failed: the task failed to write an RPC message.
    WriteError,
}

/// What the I/O task must do next, as decided by [`Peer::io_step`].
#[derive(Clone, PartialEq, Eq, Debug)]
pub enum IoAction {
    /// Hand `envelope` to the response slot registered for `responding_to`;
    /// the slot was removed, so a later reply to the same id is unknown.
    Deliver {
        /// The request the reply answers.
        responding_to: u32,
        /// The reply itself.
        envelope: Envelope,
    },
    /// A reply named a request id with no registered slot: log a warning and
    /// carry on.  The connection stays up.
    UnknownResponse {
        /// The unknown request id.
        responding_to: u32,
    },
    /// Push this typed envelope onto the inbound queue.  Should the consumer
    /// be gone, report [`IoEvent::InboundClosed`] back.
    Dispatch {
        /// The decoded envelope.
        envelope: TypedEnvelope,
    },
    /// The envelope has no typed form: log an error and carry on.  The
    /// connection stays up.
    Unbuildable,
    /// The task must tear down nothing further — the peer already has — and
    /// terminate, reporting `outcome`.
    Terminate {
        /// How the task ends.
        outcome: IoOutcome,
    },
}

/// Relation between peer states across delivering a reply for request `mid`
/// on connection `id`: exactly that response slot is removed, everything else
/// is untouched.
pub open spec fn deliver_post(pre: Peer, post: Peer, id: ConnectionId, mid: u32) -> bool {
    &&& others_unchanged(pre, post, id)
    &&& pre.spec_has_connection(id)
    &&& post.spec_has_connection(id)
    &&& pre.spec_connection(id).spec_pending(mid)
    &&& !post.spec_connection(id).spec_pending(mid)
    &&& post.spec_connection(id).spec_next_message_id() == pre.spec_connection(
        id,
    ).spec_next_message_id()
    &&& forall|m: u32|
        (#[trigger] post.spec_connection(id).spec_pending(m)) == (pre.spec_connection(
            id,
        ).spec_pending(m) && m != mid)
    &&& post.spec_connection(id).spec_outgoing() == pre.spec_connection(id).spec_outgoing()
    &&& post.spec_connection(id).spec_wire() == pre.spec_connection(id).spec_wire()
}

/// Full characterization of [`Peer::io_step`]: what each event does to the
/// peer and which action it commands.
pub open spec fn io_step_post(
    pre: Peer,
    post: Peer,
    id: ConnectionId,
    event: IoEvent,
    action: IoAction,
) -> bool {
    match event {
        IoEvent::ReadFailed => disconnect_post(pre, post, id) && action == (IoAction::Terminate {
            outcome: IoOutcome::ReadError,
        }),
        IoEvent::WriteFailed => disconnect_post(pre, post, id) && action == (IoAction::Terminate {
            outcome: IoOutcome::WriteError,
        }),
        IoEvent::InboundClosed => disconnect_post(pre, post, id) && action
            == (IoAction::Terminate { outcome: IoOutcome::CleanShutdown }),
        IoEvent::Incoming(envelope) => if !pre.spec_has_connection(id) {
            peer_unchanged(pre, post) && action == (IoAction::Terminate {
                outcome: IoOutcome::CleanShutdown,
            })
        } else {
            match envelope.responding_to {
                Some(mid) => if pre.spec_connection(id).spec_pending(mid) {
                    deliver_post(pre, post, id, mid) && action == (IoAction::Deliver {
                        responding_to: mid,
                        envelope,
                    })
                } else {
                    peer_unchanged(pre, post) && action == (IoAction::UnknownResponse {
                        responding_to: mid,
                    })
                },
                None => peer_unchanged(pre, post) && match spec_build_typed_envelope(
                    id,
                    envelope,
                ) {
                    Some(te) => action == (IoAction::Dispatch { envelope: te }),
                    None => action == IoAction::Unbuildable,
                },
            }
        },
    }
}

/// What polling a connection's outbound queue yields.
#[derive(Clone, PartialEq, Eq, Debug)]
pub enum OutgoingPoll {
    /// The front envelope, now counted as written; the task writes it to the
    /// transport next.
    Ready(Envelope),
    /// Nothing is queued; the task should wait for outbound activity.
    Idle,
    /// The connection is gone — the peer tore it down — so the task must
    /// terminate cleanly.
    Closed,
}

/// Relation between peer states across dequeuing `envelope` for writing on
/// connection `id`: the queue's front moves to the write log, nothing else
/// changes.
pub open spec fn write_post(pre: Peer, post: Peer, id: ConnectionId, envelope: Envelope) -> bool {
    &&& others_unchanged(pre, post, id)
    &&& pre.spec_has_connection(id)
    &&& post.spec_has_connection(id)
    &&& pre.spec_connection(id).spec_outgoing().len() > 0
    &&& envelope == pre.spec_connection(id).spec_outgoing()[0]
    &&& post.spec_connection(id).spec_next_message_id() == pre.spec_connection(
        id,
    ).spec_next_message_id()
    &&& forall|m: u32|
        (#[trigger] post.spec_connection(id).spec_pending(m)) == pre.spec_connection(
            id,
        ).spec_pending(m)
    &&& post.spec_connection(id).spec_outgoing() == pre.spec_connection(
        id,
    ).spec_outgoing().drop_first()
    &&& post.spec_connection(id).spec_wire() == pre.spec_connection(id).spec_wire().push(envelope)
}

/// Full characterization of [`Peer::io_next_outgoing`].
pub open spec fn io_next_outgoing_post(pre: Peer, post: Peer, id: ConnectionId, r: OutgoingPoll) -> bool {
    if !pre.spec_has_connection(id) {
        peer_unchanged(pre, post) && r == OutgoingPoll::Closed
    } else if pre.spec_connection(id).spec_outgoing().len() == 0 {
        peer_unchanged(pre, post) && r == OutgoingPoll::Idle
    } else {
        r matches OutgoingPoll::Ready(envelope) && write_post(pre, post, id, envelope)
    }
}

impl Peer {
    /// One decision step of connection `id`'s I/O task.  The embedding reads
    /// from the transport, writes to it, and waits; every outcome it observes
    /// becomes an [`IoEvent`] here, and the returned [`IoAction`] is all it
    /// performs.  Reads are to be preferred over writes, so replies unblock
    /// requests promptly.
    ///
    /// On any failure event the peer tears the connection down before the
    /// task returns: the response slots are dropped — every request in flight
    /// resolves with `ConnectionClosed` — and the connection is forgotten.
    pub fn io_step(&mut self, connection_id: ConnectionId, event: IoEvent) -> (action: IoAction)
        requires
            old(self).wf(),
        ensures
            final(self).wf(),
            io_step_post(*old(self), *final(self), connection_id, event, action),
    {
        match event {
            IoEvent::ReadFailed => {
                self.disconnect(connection_id);
                IoAction::Terminate { outcome: IoOutcome::ReadError }
            },
            IoEvent::WriteFailed => {
                self.disconnect(connection_id);
                IoAction::Terminate { outcome: IoOutcome::WriteError }
            },
            IoEvent::InboundClosed => {
                self.disconnect(connection_id);
                IoAction::Terminate { outcome: IoOutcome::CleanShutdown }
            },
            IoEvent::Incoming(envelope) => {
                let idx = connection_id.0 as usize;
                if idx >= self.connections.len() {
                    return IoAction::Terminate { outcome: IoOutcome::CleanShutdown };
                }
                match &mut self.connections[idx] {
                    None => IoAction::Terminate { outcome: IoOutcome::CleanShutdown },
                    Some(conn) => {
                        match envelope.responding_to {
                            Some(mid) => {
                                let midx = mid as usize;
                                if midx < conn.response_channels.len()
                                    && conn.response_channels[midx] {
                                    conn.response_channels[midx] = false;
                                    IoAction::Deliver { responding_to: mid, envelope }
                                } else {
                                    IoAction::UnknownResponse { responding_to: mid }
                                }
                            },
                            None => {
                                match build_typed_envelope(connection_id, envelope) {
                                    Some(te) => IoAction::Dispatch { envelope: te },
                                    None => IoAction::Unbuildable,
                                }
                            },
                        }
                    },
                }
            },
        }
    }

    /// Dequeue the next envelope the I/O task must write on connection `id`.
    /// `Ready` moves the queue's front to the write log; `Closed` tells a
    /// task whose connection is gone to terminate cleanly.
    pub fn io_next_outgoing(&mut self, connection_id: ConnectionId) -> (r: OutgoingPoll)
        requires
            old(self).wf(),
        ensures
            final(self).wf(),
            io_next_outgoing_post(*old(self), *final(self), connection_id, r),
    {
        let idx = connection_id.0 as usize;
        if idx >= self.connections.len() {
            return OutgoingPoll::Closed;
        }
        match &mut self.connections[idx] {
            None => OutgoingPoll::Closed,
            Some(conn) => {
                if conn.outgoing.len() == 0 {
                    OutgoingPoll::Idle
                } else {
                    let envelope = conn.outgoing.remove(0);
                    conn.wire = Ghost(conn.wire@.push(envelope));
                    proof {
                        assert(conn.outgoing@ =~= old(self).spec_connection(
                            connection_id,
                        ).spec_outgoing().drop_first());
                    }
                    OutgoingPoll::Ready(envelope)
                }
            },
        }
    }
}

/// Both peers name the same connections with the same observable state: the
/// operation between them changed nothing.
pub open spec fn peer_unchanged(pre: Peer, post: Peer) -> bool {
    &&& post.spec_next_connection_id() == pre.spec_next_connection_id()
    &&& forall|c: ConnectionId|
        (#[trigger] post.spec_has_connection(c)) == pre.spec_has_connection(c)
    &&& forall|c: ConnectionId|
        pre.spec_has_connection(c) ==> (#[trigger] post.spec_connection(c))
            == pre.spec_connection(c)
}

/// Relation between peer states across an operation that touched only
/// connection `id`: every other connection, and the id counter, kept their
/// state.
pub open spec fn others_unchanged(pre: Peer, post: Peer, id: ConnectionId) -> bool {
    &&& post.spec_next_connection_id() == pre.spec_next_connection_id()
    &&& forall|c: ConnectionId|
        (#[trigger] post.spec_has_connection(c)) == pre.spec_has_connection(c)
    &&& forall|c: ConnectionId|
        c != id && pre.spec_has_connection(c) ==> (#[trigger] post.spec_connection(c))
            == pre.spec_connection(c)
}

/// Relation between peer states across a teardown of connection `id`, whether
/// by `disconnect`, by `reset`, or by the I/O task: the connection and its
/// response slots are gone — every request in flight on it resolves with
/// `ConnectionClosed` — and everything else is untouched.  The id counter
/// keeps its value: ids are never reused.
pub open spec fn disconnect_post(pre: Peer, post: Peer, id: ConnectionId) -> bool {
    &&& post.spec_next_connection_id() == pre.spec_next_connection_id()
    &&& !post.spec_has_connection(id)
    &&& forall|c: ConnectionId|
        c != id ==> (#[trigger] post.spec_has_connection(c)) == pre.spec_has_connection(c)
    &&& forall|c: ConnectionId|
        c != id && pre.spec_has_connection(c) ==> (#[trigger] post.spec_connection(c))
            == pre.spec_connection(c)
}

/// Relation between peer states across accepting `envelope` for transmission
/// on connection `id`: one message id minted, the envelope appended to the
/// outbound queue, no response slot registered, everything else untouched.
pub open spec fn enqueue_post(pre: Peer, post: Peer, id: ConnectionId, envelope: Envelope) -> bool {
    &&& others_unchanged(pre, post, id)
    &&& pre.spec_has_connection(id)
    &&& post.spec_has_connection(id)
    &&& post.spec_connection(id).spec_next_message_id() == pre.spec_connection(
        id,
    ).spec_next_message_id() + 1
    &&& forall|m: u32|
        (#[trigger] post.spec_connection(id).spec_pending(m)) == pre.spec_connection(
            id,
        ).spec_pending(m)
    &&& post.spec_connection(id).spec_outgoing() == pre.spec_connection(id).spec_outgoing().push(
        envelope,
    )
    &&& post.spec_connection(id).spec_wire() == pre.spec_connection(id).spec_wire()
}

/// Relation between peer states across dispatching a request on connection
/// `id`: as `enqueue_post`, and additionally the minted id `mid` — fresh, by
/// construction — now has a registered response slot.
pub open spec fn request_post(pre: Peer, post: Peer, id: ConnectionId, envelope: Envelope, mid: u32) -> bool {
    &&& others_unchanged(pre, post, id)
    &&& pre.spec_has_connection(id)
    &&& post.spec_has_connection(id)
    &&& mid == pre.spec_connection(id).spec_next_message_id()
    &&& !pre.spec_connection(id).spec_pending(mid)
    &&& post.spec_connection(id).spec_next_message_id() == pre.spec_connection(
        id,
    ).spec_next_message_id() + 1
    &&& forall|m: u32|
        (#[trigger] post.spec_connection(id).spec_pending(m)) == (pre.spec_connection(
            id,
        ).spec_pending(m) || m == mid)
    &&& post.spec_connection(id).spec_outgoing() == pre.spec_connection(id).spec_outgoing().push(
        envelope,
    )
    &&& post.spec_connection(id).spec_wire() == pre.spec_connection(id).spec_wire()
}

/// Once a connection is torn down, every request in flight on it resolves
/// with `ConnectionClosed` — not a panic and not a hang: the teardown drops
/// the request's response slot, and a dropped slot delivers nothing, which
/// `finish` resolves as `ConnectionClosed`.
pub proof fn lemma_disconnected_request_resolves_closed(
    pre: Peer,
    post: Peer,
    pr: PendingRequest,
)
    requires
        disconnect_post(pre, post, pr.connection_id),
    ensures
        !post.spec_has_connection(pr.connection_id),
        spec_finish(pr, None) == Err::<Payload, RpcError>(RpcError::ConnectionClosed),
{
}

/// A response is delivered at most once, and to the request that minted its
/// id: delivering a reply for `mid` removes that response slot, so the slot
/// is absent afterward and a second reply naming `mid` is reported unknown
/// while the connection stays up.
pub proof fn lemma_single_delivery(
    p0: Peer,
    p1: Peer,
    p2: Peer,
    id: ConnectionId,
    env1: Envelope,
    env2: Envelope,
    mid: u32,
    a1: IoAction,
    a2: IoAction,
)
    requires
        env1.responding_to == Some(mid),
        env2.responding_to == Some(mid),
        io_step_post(p0, p1, id, IoEvent::Incoming(env1), a1),
        a1 == (IoAction::Deliver { responding_to: mid, envelope: env1 }),
        io_step_post(p1, p2, id, IoEvent::Incoming(env2), a2),
    ensures
        !p1.spec_connection(id).spec_pending(mid),
        p1.spec_has_connection(id),
        a2 == (IoAction::UnknownResponse { responding_to: mid }),
        peer_unchanged(p1, p2),
{
}

/// Envelopes accepted on one connection reach the transport in acceptance
/// order: accepting appends to the enqueue history and writes nothing, so
/// the write log stays a prefix of the history.
pub proof fn lemma_enqueue_order(pre: Peer, post: Peer, id: ConnectionId, envelope: Envelope)
    requires
        enqueue_post(pre, post, id, envelope),
    ensures
        post.spec_connection(id).spec_wire() == pre.spec_connection(id).spec_wire(),
        post.spec_connection(id).spec_enqueue_history() == pre.spec_connection(
            id,
        ).spec_enqueue_history().push(envelope),
        post.spec_connection(id).spec_wire().is_prefix_of(
            post.spec_connection(id).spec_enqueue_history(),
        ),
{
    assert(post.spec_connection(id).spec_enqueue_history() =~= pre.spec_connection(
        id,
    ).spec_enqueue_history().push(envelope));
    assert(post.spec_connection(id).spec_wire() =~= post.spec_connection(
        id,
    ).spec_enqueue_history().subrange(0, post.spec_connection(id).spec_wire().len() as int));
}

/// Envelopes accepted on one connection reach the transport in acceptance
/// order: writing moves exactly the queue's front to the end of the write
/// log, the enqueue history is untouched, and the write log stays a prefix
/// of it.
pub proof fn lemma_write_order(pre: Peer, post: Peer, id: ConnectionId, envelope: Envelope)
    requires
        write_post(pre, post, id, envelope),
    ensures
        envelope == pre.spec_connection(id).spec_outgoing()[0],
        post.spec_connection(id).spec_wire() == pre.spec_connection(id).spec_wire().push(envelope),
        post.spec_connection(id).spec_enqueue_history() == pre.spec_connection(
            id,
        ).spec_enqueue_history(),
        post.spec_connection(id).spec_wire().is_prefix_of(
            post.spec_connection(id).spec_enqueue_history(),
        ),
{
    assert(post.spec_connection(id).spec_enqueue_history() =~= pre.spec_connection(
        id,
    ).spec_enqueue_history());
    assert(post.spec_connection(id).spec_wire() =~= post.spec_connection(
        id,
    ).spec_enqueue_history().subrange(0, post.spec_connection(id).spec_wire().len() as int));
}

/// Every request's message id is distinct from every id minted before it on
/// the same connection: ids are minted by a counter that only grows.
pub proof fn lemma_fresh_message_id(
    pre: Peer,
    post: Peer,
    id: ConnectionId,
    envelope: Envelope,
    mid: u32,
)
    requires
        pre.wf(),
        request_post(pre, post, id, envelope, mid),
    ensures
        forall|prior: u32|
            pre.spec_connection(id).spec_allocated_ids().contains(prior) ==> prior != mid,
        post.spec_connection(id).spec_allocated_ids() == pre.spec_connection(
            id,
        ).spec_allocated_ids().push(mid),
{
    let c = pre.spec_connection(id);
    let n = c.spec_next_message_id();
    assert(c.wf());
    assert forall|prior: u32| c.spec_allocated_ids().contains(prior) implies prior != mid by {
        let j = choose|j: int|
            0 <= j < c.spec_allocated_ids().len() && c.spec_allocated_ids()[j] == prior;
        assert(prior == j as u32);
        assert(0 <= j < n <= u32::MAX);
        assert(prior as int == j);
        assert(mid as int == n);
    }
    assert(post.spec_connection(id).spec_allocated_ids() =~= c.spec_allocated_ids().push(mid));
}

/// `disconnect` is idempotent: once the id is gone, a second teardown of the
/// same id changes nothing observable.
pub proof fn lemma_disconnect_idempotent(p0: Peer, p1: Peer, p2: Peer, id: ConnectionId)
    requires
        disconnect_post(p0, p1, id),
        disconnect_post(p1, p2, id),
    ensures
        p2.spec_next_connection_id() == p1.spec_next_connection_id(),
        forall|c: ConnectionId| (#[trigger] p2.spec_has_connection(c)) == p1.spec_has_connection(c),
        forall|c: ConnectionId|
            p1.spec_has_connection(c) ==> (#[trigger] p2.spec_connection(c)) == p1.spec_connection(
                c,
            ),
{
    assert forall|c: ConnectionId| (#[trigger] p2.spec_has_connection(c))
        == p1.spec_has_connection(c) by {
        if c != id {
            assert(p2.spec_has_connection(c) == p1.spec_has_connection(c));
        }
    }
    assert forall|c: ConnectionId| p1.spec_has_connection(c) implies (#[trigger] p2.spec_connection(
        c,
    )) == p1.spec_connection(c) by {
        assert(c != id);
    }
}

/// The round trip: a reply whose payload is exactly the responded payload, of
/// the kind the request is owed, resolves that request to exactly that
/// payload.
pub proof fn lemma_response_round_trip(
    pr: PendingRequest,
    reply: Envelope,
    response: Payload,
    request_kind: PayloadKind,
)
    requires
        spec_response_kind(request_kind) == Some(pr.expected),
        reply.payload == response,
        response.spec_kind() == pr.expected,
    ensures
        spec_finish(pr, Some(reply)) == Ok::<Payload, RpcError>(response),
{
    assert(pr.expected != PayloadKind::Error);
    assert(!(response matches Payload::Error(_)));
}

/// `respond(receipt, response)` followed by the originating peer reading the
/// reply resolves the originating request to exactly `response`: the reply is
/// delivered on the slot the request registered, and decodes back losslessly.
pub proof fn lemma_respond_resolves_request(
    a0: Peer,
    a1: Peer,
    a2: Peer,
    b0: Peer,
    b1: Peer,
    receiver: ConnectionId,
    request_envelope: Envelope,
    pr: PendingRequest,
    receipt: Receipt,
    response: Payload,
    reply: Envelope,
    action: IoAction,
)
    requires
        request_post(a0, a1, receiver, request_envelope, pr.message_id),
        Some(pr.expected) == spec_response_kind(request_envelope.payload.spec_kind()),
        receipt.message_id == pr.message_id,
        enqueue_post(b0, b1, receipt.sender_id, reply),
        reply.responding_to == Some(receipt.message_id),
        reply.payload == response,
        response.spec_kind() == pr.expected,
        io_step_post(a1, a2, receiver, IoEvent::Incoming(reply), action),
    ensures
        action == (IoAction::Deliver { responding_to: pr.message_id, envelope: reply }),
        spec_finish(pr, Some(reply)) == Ok::<Payload, RpcError>(response),
        !a2.spec_connection(receiver).spec_pending(pr.message_id),
{
    assert(a1.spec_has_connection(receiver));
    assert(a1.spec_connection(receiver).spec_pending(pr.message_id));
    lemma_response_round_trip(pr, reply, response, request_envelope.payload.spec_kind());
}

} // verus!
