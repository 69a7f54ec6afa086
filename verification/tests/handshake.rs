use openssl::rsa::{Padding, Rsa};
use osp::connection::{HandshakeState, InboundConnection};
use osp::crypto::{issue_challenge, ChallengeOutcome};
use osp::handshake::{
    expected_text, lookup_failed_text, missing_record_text, react, record_name_text, ErrorKind,
    HandshakeError, HandshakeEvent, HandshakeStep, Next, Reaction,
};
use osp::ident::Uuid;
use osp::packet::{ConnectionType, HandshakePacketGuestToHost, HandshakePacketHostToGuest};

fn fresh() -> InboundConnection<HandshakeState<()>> {
    InboundConnection::<HandshakeState<()>>::with_stream(())
}

fn hello(connection_type: ConnectionType) -> HandshakeEvent {
    HandshakeEvent::Packet(HandshakePacketGuestToHost::Hello { connection_type })
}

fn identify(hostname: &str) -> HandshakeEvent {
    HandshakeEvent::Packet(HandshakePacketGuestToHost::Identify { hostname: hostname.to_string() })
}

fn verify(challenge: Vec<u8>, nonce: Uuid) -> HandshakeEvent {
    HandshakeEvent::Packet(HandshakePacketGuestToHost::Verify { challenge, nonce })
}

fn aborted(kind: ErrorKind, message: &str) -> Reaction {
    Reaction {
        send: Some(HandshakePacketHostToGuest::Close {
            can_continue: false,
            err: Some(message.to_string()),
        }),
        next: Next::Failed(HandshakeError { kind, message: message.to_string() }),
    }
}

/// A connection that awaits `Verify`, with the plain challenge it issued.
fn awaiting_verify() -> (InboundConnection<HandshakeState<()>>, Vec<u8>) {
    let mut conn = fresh();
    conn.begin();
    conn.advance(hello(ConnectionType::Client));
    conn.advance(identify("example.test"));
    let challenge: Vec<u8> = (0..256).map(|i| (i % 251) as u8).collect();
    let reaction = conn.challenge_issued(ChallengeOutcome::Issued {
        challenge: challenge.clone(),
        encrypted_challenge: vec![9, 9, 9],
    });
    assert_eq!(
        reaction,
        Reaction {
            send: Some(HandshakePacketHostToGuest::Challenge {
                encrypted_challenge: vec![9, 9, 9],
                nonce: conn.nonce(),
            }),
            next: Next::Read,
        }
    );
    (conn, challenge)
}

#[test]
fn full_handshake_with_published_key_reaches_transfer() {
    let key = Rsa::generate(3072).unwrap();
    let pem = String::from_utf8(key.public_key_to_pem().unwrap()).unwrap();

    let mut conn = fresh();
    assert_eq!(conn.connection_type(), ConnectionType::Unknown);
    assert_eq!(conn.begin(), Reaction { send: None, next: Next::Read });

    let reaction = conn.advance(hello(ConnectionType::Unknown));
    assert_eq!(
        reaction,
        Reaction {
            send: Some(HandshakePacketHostToGuest::Acknowledge { ok: true, err: None }),
            next: Next::Read,
        }
    );

    let reaction = conn.advance(identify("example.test"));
    assert_eq!(
        reaction,
        Reaction { send: None, next: Next::Lookup { name: "_osp.example.test".to_string() } }
    );

    let reaction = conn.advance(HandshakeEvent::Records(vec![pem]));
    assert_eq!(reaction.next, Next::Read);
    let (encrypted, nonce) = match reaction.send {
        Some(HandshakePacketHostToGuest::Challenge { encrypted_challenge, nonce }) => {
            (encrypted_challenge, nonce)
        }
        other => panic!("expected a challenge, got {:?}", other),
    };
    assert_eq!(nonce, conn.nonce());
    assert_eq!(encrypted.len(), key.size() as usize);

    let mut plain = vec![0u8; key.size() as usize];
    let n = key.private_decrypt(&encrypted, &mut plain, Padding::PKCS1).unwrap();
    assert_eq!(n, 256);
    plain.truncate(n);

    let reaction = conn.advance(verify(plain, nonce));
    assert_eq!(
        reaction,
        Reaction {
            send: Some(HandshakePacketHostToGuest::Close { can_continue: true, err: None }),
            next: Next::Done,
        }
    );
    assert!(conn.is_complete());
    let transfer = conn.into_transfer().ok().unwrap();
    assert_eq!(transfer.connection_type(), ConnectionType::Unknown);
}

#[test]
fn hello_records_the_declared_connection_type() {
    let mut conn = fresh();
    conn.begin();
    conn.advance(hello(ConnectionType::Server));
    assert_eq!(conn.connection_type(), ConnectionType::Server);
    assert!(!conn.is_complete());
}

#[test]
fn begin_is_not_repeated_once_the_handshake_moved_on() {
    let mut conn = fresh();
    assert_eq!(conn.begin(), Reaction { send: None, next: Next::Read });
    conn.advance(hello(ConnectionType::Client));
    assert_eq!(
        conn.begin(),
        Reaction {
            send: None,
            next: Next::Failed(HandshakeError {
                kind: ErrorKind::InvalidInput,
                message: "Handshake already started".to_string(),
            }),
        }
    );
}

#[test]
fn anything_but_hello_first_is_invalid_input() {
    let mut conn = fresh();
    conn.begin();
    let reaction = conn.advance(identify("example.test"));
    assert_eq!(reaction, aborted(ErrorKind::InvalidInput, "Expected hello packet"));
    assert!(conn.into_transfer().is_err());
}

#[test]
fn anything_but_identify_second_is_invalid_input() {
    let mut conn = fresh();
    conn.begin();
    conn.advance(hello(ConnectionType::Client));
    let reaction = conn.advance(hello(ConnectionType::Client));
    assert_eq!(reaction, aborted(ErrorKind::InvalidInput, "Expected identify packet"));
}

#[test]
fn anything_but_verify_last_is_invalid_input() {
    let (mut conn, _) = awaiting_verify();
    let reaction = conn.advance(identify("example.test"));
    assert_eq!(
        reaction,
        aborted(ErrorKind::InvalidInput, "Expected challenge verification packet")
    );
}

#[test]
fn a_packet_while_the_record_is_awaited_is_invalid_input() {
    let mut conn = fresh();
    conn.begin();
    conn.advance(hello(ConnectionType::Client));
    conn.advance(identify("example.test"));
    let reaction = conn.advance(identify("example.test"));
    assert_eq!(reaction, aborted(ErrorKind::InvalidInput, "Expected challenge record"));
}

#[test]
fn empty_record_list_aborts_without_a_challenge() {
    let mut conn = fresh();
    conn.begin();
    conn.advance(hello(ConnectionType::Client));
    conn.advance(identify("example.test"));
    let reaction = conn.advance(HandshakeEvent::Records(vec![]));
    assert_eq!(
        reaction,
        aborted(
            ErrorKind::InvalidData,
            "Failed to resolve SRV record for example.test. Is it located at _osp.example.test?"
        )
    );
    assert!(!conn.is_complete());
}

#[test]
fn failed_lookup_aborts_as_io_failure() {
    let mut conn = fresh();
    conn.begin();
    conn.advance(hello(ConnectionType::Client));
    conn.advance(identify("example.test"));
    let reaction = conn.advance(HandshakeEvent::LookupFailed("no connections".to_string()));
    assert_eq!(
        reaction,
        aborted(
            ErrorKind::IoFailure,
            "Failed to resolve SRV record for example.test. Is it located at _osp.example.test?\n\nFurther Details: no connections"
        )
    );
}

#[test]
fn record_that_is_no_key_aborts_as_io_failure() {
    let mut conn = fresh();
    conn.begin();
    conn.advance(hello(ConnectionType::Client));
    conn.advance(identify("example.test"));
    let reaction = conn.advance(HandshakeEvent::Records(vec!["v=spf1 -all".to_string()]));
    match (&reaction.send, &reaction.next) {
        (
            Some(HandshakePacketHostToGuest::Close { can_continue: false, err: Some(told) }),
            Next::Failed(HandshakeError { kind: ErrorKind::IoFailure, message }),
        ) => {
            assert_eq!(told, message);
            assert!(!message.is_empty());
        }
        other => panic!("expected an explained abort, got {:?}", other),
    }
    assert!(!conn.is_complete());
}

#[test]
fn key_too_small_for_the_challenge_aborts_as_io_failure() {
    let key = Rsa::generate(2048).unwrap();
    let pem = key.public_key_to_pem().unwrap();
    match issue_challenge(&pem) {
        ChallengeOutcome::Failed { .. } => {}
        other => panic!("expected a failure, got {:?}", other),
    }
}

#[test]
fn only_the_first_record_is_used() {
    let key = Rsa::generate(3072).unwrap();
    let pem = String::from_utf8(key.public_key_to_pem().unwrap()).unwrap();
    let mut conn = fresh();
    conn.begin();
    conn.advance(hello(ConnectionType::Client));
    conn.advance(identify("example.test"));
    let reaction = conn.advance(HandshakeEvent::Records(vec![pem, "garbage".to_string()]));
    assert!(matches!(reaction.send, Some(HandshakePacketHostToGuest::Challenge { .. })));
}

#[test]
fn apply_asks_for_a_challenge_on_the_first_record() {
    let mut conn = fresh();
    conn.begin();
    conn.apply(hello(ConnectionType::Client));
    conn.apply(identify("example.test"));
    let reaction =
        conn.apply(HandshakeEvent::Records(vec!["first".to_string(), "second".to_string()]));
    assert_eq!(
        reaction,
        Reaction { send: None, next: Next::IssueChallenge { pem: b"first".to_vec() } }
    );
}

#[test]
fn issued_challenge_has_256_plain_bytes() {
    let key = Rsa::generate(3072).unwrap();
    let pem = key.public_key_to_pem().unwrap();
    match issue_challenge(&pem) {
        ChallengeOutcome::Issued { challenge, encrypted_challenge } => {
            assert_eq!(challenge.len(), 256);
            assert_eq!(encrypted_challenge.len(), 384);
            assert_ne!(challenge, vec![0u8; 256]);
            let mut plain = vec![0u8; 384];
            let n = key.private_decrypt(&encrypted_challenge, &mut plain, Padding::PKCS1).unwrap();
            assert_eq!(&plain[..n], &challenge[..]);
        }
        other => panic!("expected a challenge, got {:?}", other),
    }
}

#[test]
fn failed_challenge_is_explained_to_the_peer() {
    let mut conn = fresh();
    conn.begin();
    conn.advance(hello(ConnectionType::Client));
    conn.advance(identify("example.test"));
    let reaction =
        conn.challenge_issued(ChallengeOutcome::Failed { details: "bad key".to_string() });
    assert_eq!(reaction, aborted(ErrorKind::IoFailure, "bad key"));
}

#[test]
fn challenge_outcome_out_of_turn_is_invalid_input() {
    let mut conn = fresh();
    conn.begin();
    let reaction = conn.challenge_issued(ChallengeOutcome::Issued {
        challenge: vec![1],
        encrypted_challenge: vec![2],
    });
    assert_eq!(reaction, aborted(ErrorKind::InvalidInput, "Expected hello packet"));
}

#[test]
fn wrong_nonce_is_invalid_data_even_with_the_right_bytes() {
    let (mut conn, challenge) = awaiting_verify();
    let other = Uuid::from_u128(conn.nonce().as_u128() ^ 1);
    let reaction = conn.advance(verify(challenge, other));
    assert_eq!(reaction, aborted(ErrorKind::InvalidData, "Invalid nonce"));
    assert!(!conn.is_complete());
    assert!(conn.into_transfer().is_err());
}

#[test]
fn wrong_bytes_are_permission_denied() {
    let (mut conn, mut challenge) = awaiting_verify();
    challenge[255] ^= 1;
    let nonce = conn.nonce();
    let reaction = conn.advance(verify(challenge, nonce));
    assert_eq!(reaction, aborted(ErrorKind::PermissionDenied, "Challenge failed"));
    assert!(!conn.is_complete());
}

#[test]
fn shorter_answer_is_permission_denied() {
    let (mut conn, mut challenge) = awaiting_verify();
    challenge.pop();
    let nonce = conn.nonce();
    let reaction = conn.advance(verify(challenge, nonce));
    assert_eq!(reaction, aborted(ErrorKind::PermissionDenied, "Challenge failed"));
}

#[test]
fn right_nonce_and_bytes_complete_the_handshake() {
    let (mut conn, challenge) = awaiting_verify();
    let nonce = conn.nonce();
    let reaction = conn.advance(verify(challenge, nonce));
    assert_eq!(
        reaction,
        Reaction {
            send: Some(HandshakePacketHostToGuest::Close { can_continue: true, err: None }),
            next: Next::Done,
        }
    );
    assert!(conn.is_complete());
    assert_eq!(conn.into_transfer().ok().unwrap().connection_type(), ConnectionType::Client);
}

#[test]
fn malformed_frame_is_invalid_data() {
    let mut conn = fresh();
    conn.begin();
    let reaction = conn.advance(HandshakeEvent::Malformed);
    assert_eq!(reaction, aborted(ErrorKind::InvalidData, "Malformed packet"));
}

#[test]
fn transport_failure_aborts_without_a_message() {
    let mut conn = fresh();
    conn.begin();
    conn.advance(hello(ConnectionType::Client));
    let reaction = conn.advance(HandshakeEvent::TransportFailed("connection reset".to_string()));
    assert_eq!(
        reaction,
        Reaction {
            send: None,
            next: Next::Failed(HandshakeError {
                kind: ErrorKind::IoFailure,
                message: "connection reset".to_string(),
            }),
        }
    );
    assert!(!conn.is_complete());
}

#[test]
fn ended_handshake_answers_every_event_with_an_error() {
    let (mut conn, challenge) = awaiting_verify();
    let nonce = conn.nonce();
    conn.advance(verify(vec![0], nonce));
    let reaction = conn.advance(verify(challenge, nonce));
    assert_eq!(
        reaction,
        Reaction {
            send: None,
            next: Next::Failed(HandshakeError {
                kind: ErrorKind::InvalidInput,
                message: "Handshake already finished".to_string(),
            }),
        }
    );
    assert!(!conn.is_complete());
}

#[test]
fn react_leaves_its_inputs_alone() {
    let nonce = Uuid::from_u128(42);
    let step = HandshakeStep::AwaitIdentify;
    let (connection_type, next_step, reaction) =
        react(ConnectionType::Server, nonce, &step, identify("a.example"));
    assert_eq!(connection_type, ConnectionType::Server);
    assert_eq!(next_step, HandshakeStep::AwaitRecord { hostname: "a.example".to_string() });
    assert_eq!(
        reaction,
        Reaction { send: None, next: Next::Lookup { name: "_osp.a.example".to_string() } }
    );
}

#[test]
fn message_texts() {
    assert_eq!(record_name_text("example.test"), "_osp.example.test");
    assert_eq!(
        missing_record_text("h"),
        "Failed to resolve SRV record for h. Is it located at _osp.h?"
    );
    assert_eq!(
        lookup_failed_text("h", "d"),
        "Failed to resolve SRV record for h. Is it located at _osp.h?\n\nFurther Details: d"
    );
    assert_eq!(expected_text(&HandshakeStep::AwaitHello), "Expected hello packet");
    assert_eq!(expected_text(&HandshakeStep::Complete), "Handshake already finished");
}

#[test]
fn each_connection_gets_its_own_nonce() {
    assert_ne!(fresh().nonce(), fresh().nonce());
}
