//! The wire schema: envelopes, their payload variants, and the decoding of
//! inbound envelopes into their typed in-process form.
//!
//! Every wire unit is an [`Envelope`]: a message id, an optional reference to
//! the request it answers, an optional logical originator for forwarded
//! traffic, and one tagged [`Payload`].

use vstd::prelude::*;

use crate::peer::{ConnectionId, PeerId, TypedEnvelope};

verus! {

/// A buffer snapshot carried by [`OpenBufferResponse`].
#[derive(Clone, PartialEq, Eq, Debug)]
pub struct Buffer {
    /// The buffer's identity.
    pub id: u64,
    /// The buffer's current text.
    pub content: String,
    /// Identities of the edits applied so far.
    pub history: Vec<u64>,
    /// Identities of the active selections.
    pub selections: Vec<u64>,
}

/// Request: a liveness probe. Its response is [`Pong`] with the same `id`.
#[derive(Clone, Copy, PartialEq, Eq, Debug, Structural)]
pub struct Ping {
    /// Caller-chosen probe identity, echoed back by the responder.
    pub id: u32,
}

/// Response to [`Ping`].
#[derive(Clone, Copy, PartialEq, Eq, Debug, Structural)]
pub struct Pong {
    /// The probe identity this answers.
    pub id: u32,
}

/// Request: open a buffer at a path within a worktree.
#[derive(Clone, PartialEq, Eq, Debug)]
pub struct OpenBuffer {
    /// The worktree to resolve `path` in.
    pub worktree_id: u64,
    /// The path of the buffer to open.
    pub path: String,
}

/// Response to [`OpenBuffer`].
#[derive(Clone, PartialEq, Eq, Debug)]
pub struct OpenBufferResponse {
    /// The opened buffer, if the responder could produce one.
    pub buffer: Option<Buffer>,
}

/// Payload variant a responder uses to fail a request; carries a
/// human-readable message.
#[derive(Clone, PartialEq, Eq, Debug)]
pub struct Error {
    /// Why the request failed.
    pub message: String,
}

/// The tagged payload union carried by every envelope.
#[derive(Clone, PartialEq, Eq, Debug)]
pub enum Payload {
    /// A liveness probe request.
    Ping(Ping),
    /// The reply to a probe.
    Pong(Pong),
    /// A request to open a buffer.
    OpenBuffer(OpenBuffer),
    /// The reply to [`Payload::OpenBuffer`].
    OpenBufferResponse(OpenBufferResponse),
    /// A request failure.
    Error(Error),
}

/// The runtime type tag of a payload variant.
#[derive(Clone, Copy, PartialEq, Eq, Debug, Structural)]
pub enum PayloadKind {
    /// Tag of [`Payload::Ping`].
    Ping,
    /// Tag of [`Payload::Pong`].
    Pong,
    /// Tag of [`Payload::OpenBuffer`].
    OpenBuffer,
    /// Tag of [`Payload::OpenBufferResponse`].
    OpenBufferResponse,
    /// Tag of [`Payload::Error`].
    Error,
}

impl Payload {
    /// The type tag of this payload.
    pub open spec fn spec_kind(&self) -> PayloadKind {
        match self {
            Payload::Ping(_) => PayloadKind::Ping,
            Payload::Pong(_) => PayloadKind::Pong,
            Payload::OpenBuffer(_) => PayloadKind::OpenBuffer,
            Payload::OpenBufferResponse(_) => PayloadKind::OpenBufferResponse,
            Payload::Error(_) => PayloadKind::Error,
        }
    }

    /// The type tag of this payload.
    pub fn kind(&self) -> (k: PayloadKind)
        ensures
            k == self.spec_kind(),
    {
        match self {
            Payload::Ping(_) => PayloadKind::Ping,
            Payload::Pong(_) => PayloadKind::Pong,
            Payload::OpenBuffer(_) => PayloadKind::OpenBuffer,
            Payload::OpenBufferResponse(_) => PayloadKind::OpenBufferResponse,
            Payload::Error(_) => PayloadKind::Error,
        }
    }

    /// Wrap this payload in a wire envelope.
    pub fn into_envelope(
        self,
        message_id: u32,
        responding_to: Option<u32>,
        original_sender_id: Option<u32>,
    ) -> (e: Envelope)
        ensures
            e == (Envelope { message_id, responding_to, original_sender_id, payload: self }),
    {
        Envelope { message_id, responding_to, original_sender_id, payload: self }
    }
}

/// The response kind each request kind is owed; `None` for kinds that are not
/// requests.
pub open spec fn spec_response_kind(k: PayloadKind) -> Option<PayloadKind> {
    match k {
        PayloadKind::Ping => Some(PayloadKind::Pong),
        PayloadKind::OpenBuffer => Some(PayloadKind::OpenBufferResponse),
        PayloadKind::Pong => None,
        PayloadKind::OpenBufferResponse => None,
        PayloadKind::Error => None,
    }
}

/// The response kind each request kind is owed; `None` for kinds that are not
/// requests.
pub fn response_kind(k: PayloadKind) -> (r: Option<PayloadKind>)
    ensures
        r == spec_response_kind(k),
{
    match k {
        PayloadKind::Ping => Some(PayloadKind::Pong),
        PayloadKind::OpenBuffer => Some(PayloadKind::OpenBufferResponse),
        PayloadKind::Pong => None,
        PayloadKind::OpenBufferResponse => None,
        PayloadKind::Error => None,
    }
}

/// True iff `k` tags a request, i.e. a payload that is owed a response.
pub open spec fn is_request_kind(k: PayloadKind) -> bool {
    spec_response_kind(k) is Some
}

/// The wire unit.
#[derive(Clone, PartialEq, Eq, Debug)]
pub struct Envelope {
    /// Unique within the sender's connection.
    pub message_id: u32,
    /// Present iff this envelope is a reply; names the request answered.
    pub responding_to: Option<u32>,
    /// Present iff this envelope was forwarded; the logical originator.
    pub original_sender_id: Option<u32>,
    /// The typed content.
    pub payload: Payload,
}

/// What decoding an inbound non-response envelope for typed dispatch yields:
/// request kinds decode, with sender, message id and original sender preserved
/// exactly; response and error kinds have no typed-dispatch form.
pub open spec fn spec_build_typed_envelope(sender_id: ConnectionId, envelope: Envelope) -> Option<
    TypedEnvelope,
> {
    if is_request_kind(envelope.payload.spec_kind()) {
        Some(
            TypedEnvelope {
                sender_id,
                original_sender_id: match envelope.original_sender_id {
                    Some(id) => Some(PeerId(id)),
                    None => None,
                },
                message_id: envelope.message_id,
                payload: envelope.payload,
            },
        )
    } else {
        None
    }
}

/// Decode an inbound non-response envelope into its typed in-process form.
pub fn build_typed_envelope(sender_id: ConnectionId, envelope: Envelope) -> (r: Option<
    TypedEnvelope,
>)
    ensures
        r == spec_build_typed_envelope(sender_id, envelope),
{
    let is_request = response_kind(envelope.payload.kind()).is_some();
    if is_request {
        Some(
            TypedEnvelope {
                sender_id,
                original_sender_id: match envelope.original_sender_id {
                    Some(id) => Some(PeerId(id)),
                    None => None,
                },
                message_id: envelope.message_id,
                payload: envelope.payload,
            },
        )
    } else {
        None
    }
}

/// A forwarded envelope's originator survives typed dispatch: whenever an
/// envelope that carries an original sender decodes at all, the typed envelope
/// exposes exactly that originator.
pub proof fn lemma_forwarded_sender_preserved(
    sender_id: ConnectionId,
    envelope: Envelope,
    orig: u32,
    te: TypedEnvelope,
)
    requires
        envelope.original_sender_id == Some(orig),
        spec_build_typed_envelope(sender_id, envelope) == Some(te),
    ensures
        te.original_sender_id == Some(PeerId(orig)),
        te.message_id == envelope.message_id,
        te.payload == envelope.payload,
        te.sender_id == sender_id,
{
}

} // verus!
