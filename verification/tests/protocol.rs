use osp::codec::Packet;
use osp::connection::{HandshakeState, InboundConnection, TransferState};
use osp::crypto::ChallengeOutcome;
use osp::handshake::{ErrorKind, HandshakeError, HandshakeEvent, Next, Reaction};
use osp::ident::Uuid;
use osp::packet::{
    ConnectionType, HandshakePacketGuestToHost, HandshakePacketHostToGuest,
    TransferPacketGuestToHost, TransferPacketHostToGuest,
};
use osp::protocol::{PacketDecoder, PacketEncoder, Protocol, ProtocolError};

type HandshakeChannel = Protocol<u32, HandshakePacketGuestToHost, HandshakePacketHostToGuest>;

fn frame_of(content: &[u8]) -> Vec<u8> {
    let mut frame = (content.len() as u32).to_le_bytes().to_vec();
    frame.extend_from_slice(content);
    frame
}

/// A connection whose handshake succeeded, over the stream `stream`.
fn completed(stream: u32) -> InboundConnection<HandshakeState<u32>> {
    let mut conn = InboundConnection::<HandshakeState<u32>>::with_stream(stream);
    conn.begin();
    conn.advance(HandshakeEvent::Packet(HandshakePacketGuestToHost::Hello {
        connection_type: ConnectionType::Server,
    }));
    conn.advance(HandshakeEvent::Packet(HandshakePacketGuestToHost::Identify {
        hostname: "example.test".to_string(),
    }));
    conn.challenge_issued(ChallengeOutcome::Issued {
        challenge: vec![1, 2, 3],
        encrypted_challenge: vec![4],
    });
    let nonce = conn.nonce();
    conn.advance(HandshakeEvent::Packet(HandshakePacketGuestToHost::Verify {
        challenge: vec![1, 2, 3],
        nonce,
    }));
    assert!(conn.is_complete());
    conn
}

#[test]
fn frame_is_the_length_and_the_message() {
    let channel = HandshakeChannel::with_stream(0);
    let message = HandshakePacketHostToGuest::Acknowledge { ok: true, err: None };
    assert_eq!(channel.send_message(&message), Ok(vec![3, 0, 0, 0, 0, 1, 0]));
}

#[test]
fn encoder_and_decoder_agree() {
    let encoder = PacketEncoder::<HandshakePacketGuestToHost>::new();
    let decoder = PacketDecoder::<HandshakePacketGuestToHost>::new();
    let message = HandshakePacketGuestToHost::Identify { hostname: "example.test".to_string() };
    let frame = encoder.encode(&message).unwrap();
    assert_eq!(frame.len(), 4 + 1 + 4 + 12);
    assert_eq!(decoder.decode(&frame[4..]), Ok(message));
    assert_eq!(decoder.decode(&[8]), Err(ProtocolError::Malformed));
}

#[test]
fn partial_frame_stays_buffered_until_it_is_complete() {
    let mut channel = HandshakeChannel::with_stream(0);
    let message = HandshakePacketGuestToHost::Identify { hostname: "example.test".to_string() };
    let frame = frame_of(&message.encode().unwrap());

    assert_eq!(channel.read_frame(), Ok(None));
    for (i, byte) in frame.iter().enumerate() {
        assert_eq!(channel.read_frame(), Ok(None));
        assert_eq!(channel.buffered_len(), i);
        channel.receive(&[*byte]);
    }
    assert_eq!(channel.read_frame(), Ok(Some(message)));
    assert_eq!(channel.buffered_len(), 0);
    assert_eq!(channel.read_frame(), Ok(None));
}

#[test]
fn frames_that_arrive_together_are_read_one_by_one() {
    let mut channel = HandshakeChannel::with_stream(0);
    let first = HandshakePacketGuestToHost::Hello { connection_type: ConnectionType::Client };
    let second = HandshakePacketGuestToHost::Identify { hostname: "h".to_string() };
    let mut bytes = frame_of(&first.encode().unwrap());
    bytes.extend_from_slice(&frame_of(&second.encode().unwrap()));
    bytes.extend_from_slice(&[9, 0]);
    channel.receive(&bytes);
    assert_eq!(channel.read_frame(), Ok(Some(first)));
    assert_eq!(channel.read_frame(), Ok(Some(second)));
    assert_eq!(channel.read_frame(), Ok(None));
    assert_eq!(channel.buffered_len(), 2);
}

#[test]
fn malformed_frame_is_reported_and_skipped() {
    let mut channel = HandshakeChannel::with_stream(0);
    let good = HandshakePacketGuestToHost::Hello { connection_type: ConnectionType::Client };
    let mut bytes = frame_of(&[7, 7, 7]);
    bytes.extend_from_slice(&frame_of(&good.encode().unwrap()));
    channel.receive(&bytes);
    assert_eq!(channel.read_frame(), Err(ProtocolError::Malformed));
    assert_eq!(channel.read_frame(), Ok(Some(good)));
}

#[test]
fn empty_frame_is_malformed() {
    let mut channel = HandshakeChannel::with_stream(0);
    channel.receive(&[0, 0, 0, 0]);
    assert_eq!(channel.read_frame(), Err(ProtocolError::Malformed));
    assert_eq!(channel.buffered_len(), 0);
}

#[test]
fn stream_that_ends_inside_a_frame_is_truncated() {
    let mut channel = HandshakeChannel::with_stream(0);
    assert_eq!(channel.end_of_stream(), Ok(()));
    channel.receive(&[2, 0]);
    assert_eq!(channel.end_of_stream(), Err(ProtocolError::Truncated));
    channel.receive(&[0, 0, 0]);
    assert_eq!(channel.end_of_stream(), Err(ProtocolError::Truncated));
    channel.receive(&[1]);
    assert_eq!(channel.end_of_stream(), Ok(()));
}

#[test]
fn stream_is_handed_out_for_the_driver() {
    let mut channel = HandshakeChannel::with_stream(5);
    channel.receive(&[1, 2, 3]);
    *channel.stream_mut() += 1;
    assert_eq!(*channel.stream_mut(), 6);
    assert_eq!(channel.buffered_len(), 3);
}

#[test]
fn map_codecs_keeps_the_stream_and_the_buffered_bytes() {
    let mut channel = HandshakeChannel::with_stream(11);
    let early = TransferPacketGuestToHost { type_id: Uuid::from_u128(5), payload: vec![1, 2] };
    channel.receive(&frame_of(&early.encode().unwrap()));
    let mut rebased: Protocol<u32, TransferPacketGuestToHost, TransferPacketHostToGuest> =
        channel.map_codecs(|_| PacketDecoder::new(), |_| PacketEncoder::new());
    assert_eq!(*rebased.stream_mut(), 11);
    assert_eq!(rebased.read_frame(), Ok(Some(early)));
    let reply = TransferPacketHostToGuest { type_id: Uuid::from_u128(6), payload: vec![3] };
    let mut expected = vec![17, 0, 0, 0, 6];
    expected.extend_from_slice(&[0u8; 15]);
    expected.push(3);
    assert_eq!(rebased.send_message(&reply), Ok(expected));
}

#[test]
fn conversion_keeps_the_connection_type_the_stream_and_the_buffer() {
    let mut conn = completed(21);
    let early = TransferPacketGuestToHost { type_id: Uuid::from_u128(9), payload: vec![8; 3] };
    conn.receive(&frame_of(&early.encode().unwrap()));
    conn.receive(&[1]);
    let mut transfer: InboundConnection<TransferState<u32>> = conn.into_transfer().ok().unwrap();
    assert_eq!(transfer.connection_type(), ConnectionType::Server);
    assert_eq!(*transfer.stream_mut(), 21);
    assert_eq!(transfer.read_frame(), Ok(Some(early)));
    assert_eq!(transfer.read_frame(), Ok(None));
    assert_eq!(transfer.end_of_stream(), Err(ProtocolError::Truncated));
}

#[test]
fn handshake_frame_is_not_a_transfer_message_after_conversion() {
    let mut transfer = completed(1).into_transfer().ok().unwrap();
    let hello = HandshakePacketGuestToHost::Hello { connection_type: ConnectionType::Client };
    transfer.receive(&frame_of(&hello.encode().unwrap()));
    assert_eq!(transfer.read_frame(), Err(ProtocolError::Malformed));
}

#[test]
fn unfinished_handshake_is_handed_back() {
    let mut conn = InboundConnection::<HandshakeState<u32>>::with_stream(3);
    conn.begin();
    conn.receive(&[1, 2]);
    let mut back = match conn.into_transfer() {
        Err(back) => back,
        Ok(_) => panic!("an unfinished handshake was converted"),
    };
    assert_eq!(*back.stream_mut(), 3);
    assert_eq!(back.end_of_stream(), Err(ProtocolError::Truncated));
    assert!(!back.is_complete());
}

#[test]
fn poll_waits_for_a_frame_and_then_takes_the_step() {
    let mut conn = InboundConnection::<HandshakeState<u32>>::with_stream(0);
    conn.begin();
    assert_eq!(conn.poll(), None);
    let hello = HandshakePacketGuestToHost::Hello { connection_type: ConnectionType::Server };
    let frame = frame_of(&hello.encode().unwrap());
    conn.receive(&frame[..3]);
    assert_eq!(conn.poll(), None);
    assert_eq!(conn.connection_type(), ConnectionType::Unknown);
    conn.receive(&frame[3..]);
    assert_eq!(
        conn.poll(),
        Some(Reaction {
            send: Some(HandshakePacketHostToGuest::Acknowledge { ok: true, err: None }),
            next: Next::Read,
        })
    );
    assert_eq!(conn.connection_type(), ConnectionType::Server);
    assert_eq!(conn.poll(), None);
}

#[test]
fn poll_takes_a_malformed_frame_for_what_it_is() {
    let mut conn = InboundConnection::<HandshakeState<u32>>::with_stream(0);
    conn.begin();
    conn.receive(&frame_of(&[0, 9]));
    let message = "Malformed packet".to_string();
    assert_eq!(
        conn.poll(),
        Some(Reaction {
            send: Some(HandshakePacketHostToGuest::Close {
                can_continue: false,
                err: Some(message.clone()),
            }),
            next: Next::Failed(HandshakeError { kind: ErrorKind::InvalidData, message }),
        })
    );
}

#[test]
fn end_of_the_stream_aborts_the_handshake() {
    let mut conn = InboundConnection::<HandshakeState<u32>>::with_stream(0);
    conn.begin();
    assert_eq!(
        conn.stream_ended(),
        Reaction {
            send: None,
            next: Next::Failed(HandshakeError {
                kind: ErrorKind::IoFailure,
                message: "Stream closed".to_string(),
            }),
        }
    );

    let mut conn = InboundConnection::<HandshakeState<u32>>::with_stream(0);
    conn.begin();
    conn.receive(&[5, 0, 0, 0, 1]);
    assert_eq!(
        conn.stream_ended(),
        Reaction {
            send: None,
            next: Next::Failed(HandshakeError {
                kind: ErrorKind::IoFailure,
                message: "Stream closed inside a frame".to_string(),
            }),
        }
    );
    assert!(!conn.is_complete());
}

#[test]
fn connection_reads_and_frames_handshake_messages() {
    let mut conn = InboundConnection::<HandshakeState<u32>>::with_stream(0);
    let hello = HandshakePacketGuestToHost::Hello { connection_type: ConnectionType::Client };
    conn.receive(&frame_of(&hello.encode().unwrap()));
    assert_eq!(conn.read_frame(), Ok(Some(hello)));
    assert_eq!(conn.end_of_stream(), Ok(()));
    let close = HandshakePacketHostToGuest::Close { can_continue: true, err: None };
    assert_eq!(conn.send_message(&close), Ok(vec![3, 0, 0, 0, 2, 1, 0]));
    let reply = TransferPacketHostToGuest { type_id: Uuid::from_u128(0), payload: vec![] };
    let transfer = completed(0).into_transfer().ok().unwrap();
    assert_eq!(transfer.send_message(&reply).map(|frame| frame.len()), Ok(20));
}
