use zrpc::error::RpcError;
use zrpc::peer::{
    ConnectionId, IoAction, IoEvent, IoOutcome, OutgoingPoll, Peer, PeerId, TypedEnvelope,
};
use zrpc::proto::{
    Buffer, Envelope, Error, OpenBuffer, OpenBufferResponse, Payload, Ping, Pong,
};

/// Pop the next wire envelope of connection `id`, failing the test when none
/// is queued.
fn take_outgoing(peer: &mut Peer, id: ConnectionId) -> Envelope {
    match peer.io_next_outgoing(id) {
        OutgoingPoll::Ready(envelope) => envelope,
        other => panic!("expected a queued envelope, got {:?}", other),
    }
}

/// The server-side request handler used by the round-trip tests.
fn handle_message(server: &mut Peer, envelope: TypedEnvelope) {
    match envelope.payload.clone() {
        Payload::Ping(ping) => {
            let receipt = envelope.receipt();
            server
                .respond(receipt, Payload::Pong(Pong { id: ping.id }))
                .unwrap();
        }
        Payload::OpenBuffer(message) => {
            let receipt = envelope.receipt();
            let response = match message.path.as_str() {
                "path/one" => {
                    assert_eq!(message.worktree_id, 1);
                    OpenBufferResponse {
                        buffer: Some(Buffer {
                            id: 101,
                            content: "path/one content".to_string(),
                            history: vec![],
                            selections: vec![],
                        }),
                    }
                }
                "path/two" => {
                    assert_eq!(message.worktree_id, 2);
                    OpenBufferResponse {
                        buffer: Some(Buffer {
                            id: 102,
                            content: "path/two content".to_string(),
                            history: vec![],
                            selections: vec![],
                        }),
                    }
                }
                _ => {
                    panic!("unexpected path {}", message.path);
                }
            };
            server
                .respond(receipt, Payload::OpenBufferResponse(response))
                .unwrap();
        }
        _ => panic!("unknown message type"),
    }
}

/// Drive one full request/response exchange between two peers.
fn roundtrip(
    client: &mut Peer,
    client_conn: ConnectionId,
    server: &mut Peer,
    server_conn: ConnectionId,
    request: Payload,
) -> Result<Payload, RpcError> {
    let pending = client.request(client_conn, request)?;
    let wire = take_outgoing(client, client_conn);
    match server.io_step(server_conn, IoEvent::Incoming(wire)) {
        IoAction::Dispatch { envelope } => handle_message(server, envelope),
        other => panic!("expected a dispatch, got {:?}", other),
    }
    let reply = take_outgoing(server, server_conn);
    match client.io_step(client_conn, IoEvent::Incoming(reply)) {
        IoAction::Deliver { envelope, .. } => pending.finish(Some(envelope)),
        other => panic!("expected a delivery, got {:?}", other),
    }
}

#[test]
fn test_request_response() {
    // Two clients attached to one server.
    let mut server = Peer::new();
    let mut client1 = Peer::new();
    let mut client2 = Peer::new();

    let client1_conn_id = client1.add_connection();
    let server_to_client1 = server.add_connection();
    let client2_conn_id = client2.add_connection();
    let server_to_client2 = server.add_connection();

    assert_eq!(
        roundtrip(
            &mut client1,
            client1_conn_id,
            &mut server,
            server_to_client1,
            Payload::Ping(Ping { id: 1 }),
        )
        .unwrap(),
        Payload::Pong(Pong { id: 1 })
    );

    assert_eq!(
        roundtrip(
            &mut client2,
            client2_conn_id,
            &mut server,
            server_to_client2,
            Payload::Ping(Ping { id: 2 }),
        )
        .unwrap(),
        Payload::Pong(Pong { id: 2 })
    );

    assert_eq!(
        roundtrip(
            &mut client1,
            client1_conn_id,
            &mut server,
            server_to_client1,
            Payload::OpenBuffer(OpenBuffer {
                worktree_id: 1,
                path: "path/one".to_string(),
            }),
        )
        .unwrap(),
        Payload::OpenBufferResponse(OpenBufferResponse {
            buffer: Some(Buffer {
                id: 101,
                content: "path/one content".to_string(),
                history: vec![],
                selections: vec![],
            }),
        })
    );

    assert_eq!(
        roundtrip(
            &mut client2,
            client2_conn_id,
            &mut server,
            server_to_client2,
            Payload::OpenBuffer(OpenBuffer {
                worktree_id: 2,
                path: "path/two".to_string(),
            }),
        )
        .unwrap(),
        Payload::OpenBufferResponse(OpenBufferResponse {
            buffer: Some(Buffer {
                id: 102,
                content: "path/two content".to_string(),
                history: vec![],
                selections: vec![],
            }),
        })
    );

    client1.disconnect(client1_conn_id);
    client2.disconnect(client1_conn_id);
}

#[test]
fn test_disconnect() {
    let mut client = Peer::new();
    let connection_id = client.add_connection();

    client.disconnect(connection_id);

    // The I/O task observes the closed outbound side and terminates cleanly.
    assert!(matches!(
        client.io_next_outgoing(connection_id),
        OutgoingPoll::Closed
    ));
    // Operations on the dead connection fail.
    assert_eq!(
        client.send(connection_id, Payload::Ping(Ping { id: 1 })),
        Err(RpcError::ConnectionClosed)
    );
}

#[test]
fn test_io_error() {
    let mut client = Peer::new();
    let connection_id = client.add_connection();

    let pending = client
        .request(connection_id, Payload::Ping(Ping { id: 42 }))
        .unwrap();

    // The remote end is gone: the next read fails, the peer tears down, and
    // the pending request resolves with the connection-closed error.
    assert!(matches!(
        client.io_step(connection_id, IoEvent::ReadFailed),
        IoAction::Terminate {
            outcome: IoOutcome::ReadError
        }
    ));
    let err = pending.finish(None).unwrap_err();
    assert_eq!(err, RpcError::ConnectionClosed);
    assert_eq!(err.message(), "connection was closed");
}

#[test]
fn message_ids_are_distinct() {
    let mut peer = Peer::new();
    let id = peer.add_connection();

    peer.send(id, Payload::Ping(Ping { id: 7 })).unwrap();
    let first = peer.request(id, Payload::Ping(Ping { id: 8 })).unwrap();
    let second = peer.request(id, Payload::Ping(Ping { id: 9 })).unwrap();

    // The counter only grows: the send took id 0, the requests 1 and 2.
    assert_eq!(first.message_id, 1);
    assert_eq!(second.message_id, 2);
    assert_ne!(first.message_id, second.message_id);
}

#[test]
fn envelopes_are_written_in_enqueue_order() {
    let mut peer = Peer::new();
    let id = peer.add_connection();

    peer.send(id, Payload::Ping(Ping { id: 1 })).unwrap();
    peer.send(id, Payload::Ping(Ping { id: 2 })).unwrap();
    peer.send(id, Payload::Ping(Ping { id: 3 })).unwrap();

    let first = take_outgoing(&mut peer, id);
    let second = take_outgoing(&mut peer, id);
    let third = take_outgoing(&mut peer, id);
    assert_eq!(first.payload, Payload::Ping(Ping { id: 1 }));
    assert_eq!(second.payload, Payload::Ping(Ping { id: 2 }));
    assert_eq!(third.payload, Payload::Ping(Ping { id: 3 }));
    assert_eq!((first.message_id, second.message_id, third.message_id), (0, 1, 2));
    assert_eq!(first.original_sender_id, None);
    assert!(matches!(peer.io_next_outgoing(id), OutgoingPoll::Idle));
}

#[test]
fn unknown_response_is_ignored() {
    let mut peer = Peer::new();
    let id = peer.add_connection();

    let reply = Payload::Pong(Pong { id: 5 }).into_envelope(0, Some(99), None);
    assert!(matches!(
        peer.io_step(id, IoEvent::Incoming(reply)),
        IoAction::UnknownResponse { responding_to: 99 }
    ));
    // The connection remains usable.
    assert!(peer.send(id, Payload::Ping(Ping { id: 1 })).is_ok());
}

#[test]
fn unbuildable_envelope_is_ignored() {
    let mut peer = Peer::new();
    let id = peer.add_connection();

    // A response payload without `responding_to` has no typed-dispatch form.
    let stray = Payload::Pong(Pong { id: 5 }).into_envelope(0, None, None);
    assert!(matches!(
        peer.io_step(id, IoEvent::Incoming(stray)),
        IoAction::Unbuildable
    ));
    // The connection remains usable.
    assert!(peer.send(id, Payload::Ping(Ping { id: 1 })).is_ok());
}

#[test]
fn inbound_queue_closure_terminates_cleanly() {
    let mut peer = Peer::new();
    let id = peer.add_connection();
    let pending = peer.request(id, Payload::Ping(Ping { id: 1 })).unwrap();

    assert!(matches!(
        peer.io_step(id, IoEvent::InboundClosed),
        IoAction::Terminate {
            outcome: IoOutcome::CleanShutdown
        }
    ));
    // Teardown ran: the in-flight request resolves with ConnectionClosed.
    assert_eq!(pending.finish(None), Err(RpcError::ConnectionClosed));
    assert!(matches!(peer.io_next_outgoing(id), OutgoingPoll::Closed));
}

#[test]
fn disconnect_is_idempotent() {
    let mut peer = Peer::new();
    let first = peer.add_connection();
    let second = peer.add_connection();

    peer.disconnect(first);
    peer.disconnect(first);

    // The second call was a no-op; the other connection is untouched.
    assert_eq!(
        peer.send(first, Payload::Ping(Ping { id: 1 })),
        Err(RpcError::ConnectionClosed)
    );
    assert!(peer.send(second, Payload::Ping(Ping { id: 1 })).is_ok());

    // Disconnecting an id the peer never minted is a no-op as well.
    peer.disconnect(ConnectionId(777));
    assert!(peer.send(second, Payload::Ping(Ping { id: 2 })).is_ok());
}

#[test]
fn reset_closes_every_connection_and_keeps_ids_dead() {
    let mut peer = Peer::new();
    let first = peer.add_connection();
    let second = peer.add_connection();

    peer.reset();

    assert_eq!(
        peer.send(first, Payload::Ping(Ping { id: 1 })),
        Err(RpcError::ConnectionClosed)
    );
    assert_eq!(
        peer.send(second, Payload::Ping(Ping { id: 1 })),
        Err(RpcError::ConnectionClosed)
    );
    // Ids are never reused: the next connection gets a fresh id.
    let third = peer.add_connection();
    assert_eq!(third, ConnectionId(2));
}

#[test]
fn wrong_response_type_fails_only_that_request() {
    let mut client = Peer::new();
    let mut server = Peer::new();
    let client_conn = client.add_connection();
    let server_conn = server.add_connection();

    let pending = client
        .request(
            client_conn,
            Payload::OpenBuffer(OpenBuffer {
                worktree_id: 1,
                path: "path/one".to_string(),
            }),
        )
        .unwrap();
    let wire = take_outgoing(&mut client, client_conn);
    let receipt = match server.io_step(server_conn, IoEvent::Incoming(wire)) {
        IoAction::Dispatch { envelope } => envelope.receipt(),
        other => panic!("expected a dispatch, got {:?}", other),
    };
    // The handler replies with a payload of the wrong type.
    server
        .respond(receipt, Payload::Pong(Pong { id: 1 }))
        .unwrap();
    let reply = take_outgoing(&mut server, server_conn);
    let delivered = match client.io_step(client_conn, IoEvent::Incoming(reply)) {
        IoAction::Deliver { envelope, .. } => envelope,
        other => panic!("expected a delivery, got {:?}", other),
    };
    let err = pending.finish(Some(delivered)).unwrap_err();
    assert_eq!(err, RpcError::WrongResponseType);
    assert_eq!(err.message(), "received response of the wrong type");

    // The connection remains up: a further exchange succeeds.
    assert_eq!(
        roundtrip(
            &mut client,
            client_conn,
            &mut server,
            server_conn,
            Payload::Ping(Ping { id: 6 }),
        )
        .unwrap(),
        Payload::Pong(Pong { id: 6 })
    );
}

#[test]
fn error_response_fails_the_request_with_the_remote_message() {
    let mut client = Peer::new();
    let mut server = Peer::new();
    let client_conn = client.add_connection();
    let server_conn = server.add_connection();

    let pending = client
        .request(client_conn, Payload::Ping(Ping { id: 3 }))
        .unwrap();
    let wire = take_outgoing(&mut client, client_conn);
    let receipt = match server.io_step(server_conn, IoEvent::Incoming(wire)) {
        IoAction::Dispatch { envelope } => envelope.receipt(),
        other => panic!("expected a dispatch, got {:?}", other),
    };
    server
        .respond_with_error(
            receipt,
            Error {
                message: "refused".to_string(),
            },
        )
        .unwrap();
    let reply = take_outgoing(&mut server, server_conn);
    let delivered = match client.io_step(client_conn, IoEvent::Incoming(reply)) {
        IoAction::Deliver { envelope, .. } => envelope,
        other => panic!("expected a delivery, got {:?}", other),
    };
    let err = pending.finish(Some(delivered)).unwrap_err();
    assert_eq!(err, RpcError::RemoteError("refused".to_string()));
    assert_eq!(err.message(), "refused");
}

#[test]
fn forwarded_request_carries_original_sender_id() {
    let mut forwarder = Peer::new();
    let mut receiver = Peer::new();
    let orig = ConnectionId(9);
    let to_receiver = forwarder.add_connection();
    let receiver_conn = receiver.add_connection();

    forwarder
        .forward_request(orig, to_receiver, Payload::Ping(Ping { id: 4 }))
        .unwrap();
    let wire = take_outgoing(&mut forwarder, to_receiver);
    assert_eq!(wire.original_sender_id, Some(9));

    let delivered = match receiver.io_step(receiver_conn, IoEvent::Incoming(wire)) {
        IoAction::Dispatch { envelope } => envelope,
        other => panic!("expected a dispatch, got {:?}", other),
    };
    assert_eq!(delivered.original_sender_id(), Ok(PeerId(9)));
}

#[test]
fn forward_send_tags_the_envelope() {
    let mut forwarder = Peer::new();
    let orig = ConnectionId(3);
    let out = forwarder.add_connection();

    forwarder
        .forward_send(orig, out, Payload::Ping(Ping { id: 5 }))
        .unwrap();
    let wire = take_outgoing(&mut forwarder, out);
    assert_eq!(wire.original_sender_id, Some(3));
    assert_eq!(wire.responding_to, None);
    assert_eq!(wire.payload, Payload::Ping(Ping { id: 5 }));
}

#[test]
fn missing_original_sender_id_is_an_error() {
    let mut sender = Peer::new();
    let mut receiver = Peer::new();
    let out = sender.add_connection();
    let inbound = receiver.add_connection();

    sender.send(out, Payload::Ping(Ping { id: 4 })).unwrap();
    let wire = take_outgoing(&mut sender, out);
    assert_eq!(wire.original_sender_id, None);

    let delivered = match receiver.io_step(inbound, IoEvent::Incoming(wire)) {
        IoAction::Dispatch { envelope } => envelope,
        other => panic!("expected a dispatch, got {:?}", other),
    };
    let err = delivered.original_sender_id().unwrap_err();
    assert_eq!(err, RpcError::MissingOriginalSenderId);
    assert_eq!(err.message(), "missing original_sender_id");
}

#[test]
fn responses_carry_fresh_ids_and_correlate_by_responding_to() {
    let mut client = Peer::new();
    let mut server = Peer::new();
    let client_conn = client.add_connection();
    let server_conn = server.add_connection();

    let pending = client
        .request(client_conn, Payload::Ping(Ping { id: 1 }))
        .unwrap();
    let wire = take_outgoing(&mut client, client_conn);
    assert_eq!(wire.responding_to, None);
    match server.io_step(server_conn, IoEvent::Incoming(wire)) {
        IoAction::Dispatch { envelope } => handle_message(&mut server, envelope),
        other => panic!("expected a dispatch, got {:?}", other),
    }
    let reply = take_outgoing(&mut server, server_conn);
    // The reply has a message id of its own; correlation uses responding_to.
    assert_eq!(reply.message_id, 0);
    assert_eq!(reply.responding_to, Some(pending.message_id));

    // A second reply to the same request id is reported unknown: the slot was
    // removed on first delivery.
    let duplicate = reply.clone();
    match client.io_step(client_conn, IoEvent::Incoming(reply)) {
        IoAction::Deliver { envelope, .. } => {
            assert_eq!(pending.finish(Some(envelope)), Ok(Payload::Pong(Pong { id: 1 })));
        }
        other => panic!("expected a delivery, got {:?}", other),
    }
    assert!(matches!(
        client.io_step(client_conn, IoEvent::Incoming(duplicate)),
        IoAction::UnknownResponse { responding_to } if responding_to == pending.message_id
    ));
}

#[test]
fn incoming_after_teardown_terminates_cleanly() {
    let mut peer = Peer::new();
    let id = peer.add_connection();
    peer.disconnect(id);

    // A read that races the teardown: the task is told to stop cleanly.
    let stray = Payload::Ping(Ping { id: 1 }).into_envelope(0, None, None);
    assert!(matches!(
        peer.io_step(id, IoEvent::Incoming(stray)),
        IoAction::Terminate {
            outcome: IoOutcome::CleanShutdown
        }
    ));
}

#[test]
fn request_on_unknown_connection_fails() {
    let mut peer = Peer::new();
    assert_eq!(
        peer.request(ConnectionId(0), Payload::Ping(Ping { id: 1 }))
            .unwrap_err(),
        RpcError::ConnectionClosed
    );
}

#[test]
fn write_failure_tears_down() {
    let mut peer = Peer::new();
    let id = peer.add_connection();
    let pending = peer.request(id, Payload::Ping(Ping { id: 1 })).unwrap();
    let _wire = take_outgoing(&mut peer, id);

    assert!(matches!(
        peer.io_step(id, IoEvent::WriteFailed),
        IoAction::Terminate {
            outcome: IoOutcome::WriteError
        }
    ));
    assert_eq!(pending.finish(None), Err(RpcError::ConnectionClosed));
    assert!(matches!(peer.io_next_outgoing(id), OutgoingPoll::Closed));
}
