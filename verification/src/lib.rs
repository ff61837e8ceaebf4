//! Core of a bidirectional, multiplexed RPC runtime.
//!
//! A [`peer::Peer`] multiplexes many in-flight request/response exchanges,
//! one-way sends, and forwarded traffic over any number of connections.  The
//! peer itself is a sequential state machine: it mints connection and message
//! identifiers, correlates responses with pending requests, queues outbound
//! envelopes, and tears connection state down consistently.  An embedding
//! drives each connection's transport I/O and feeds the resulting events back
//! into the peer.
//!
//! Every operation carries a full contract, and the laws that hold across
//! operations are stated and proved in `peer`: a torn-down connection fails
//! its in-flight requests (`lemma_disconnected_request_resolves_closed`), a
//! response is delivered at most once (`lemma_single_delivery`), envelopes
//! reach the wire in enqueue order (`lemma_enqueue_order`,
//! `lemma_write_order`), message ids are never reused
//! (`lemma_fresh_message_id`), teardown is idempotent
//! (`lemma_disconnect_idempotent`), and a matching response resolves its
//! request to exactly the responded payload
//! (`lemma_respond_resolves_request`).

pub mod error;
pub mod peer;
pub mod proto;
