//! The life of one inbound connection.
//!
//! A connection is born in its handshake state, where the only way forward
//! is the handshake. Its transfer state has no constructor of its own: it is
//! reached by converting a connection whose handshake succeeded, and in no
//! other way. The conversion keeps the stream, the buffered bytes and the
//! peer's connection type, and replaces the handshake codecs by transfer
//! codecs, so that no handshake message can be read or sent afterwards.

use vstd::prelude::*;
use vstd::string::*;
use crate::ident::{Uuid, is_random_version};
use crate::packet::{
    ConnectionType,
    HandshakePacketGuestToHost,
    HandshakePacketHostToGuest,
    TransferPacketGuestToHost,
    TransferPacketHostToGuest,
};
use crate::codec::Packet;
use crate::wire::{block, parse_block};
use crate::protocol::{PacketDecoder, PacketEncoder, Protocol, ProtocolError, frame_fits};
use crate::crypto::{
    ChallengeOutcome,
    ChallengeOutcomeView,
    MAX_INPUT_LEN,
    issue_challenge,
    outcome_admissible,
    record_too_long,
};
use crate::handshake::{
    ErrorKind,
    HandshakeError,
    HandshakeErrorView,
    HandshakeEvent,
    HandshakeEventView,
    HandshakeStep,
    HandshakeStepView,
    HandshakeView,
    Next,
    NextView,
    Reaction,
    ReactionView,
    challenge_transition,
    react,
    react_to_challenge,
    transition,
};

verus! {

/// One peer session, in the state `TState`.
pub struct InboundConnection<TState> {
    connection_type: ConnectionType,
    state: TState,
}

/// The state of a connection whose peer has not yet proved its identity.
pub struct HandshakeState<S> {
    nonce: Uuid,
    step: HandshakeStep,
    protocol: Protocol<S, HandshakePacketGuestToHost, HandshakePacketHostToGuest>,
}

/// The state of a connection whose peer has proved its identity.
pub struct TransferState<S> {
    protocol: Protocol<S, TransferPacketGuestToHost, TransferPacketHostToGuest>,
}

/// The event that a complete frame stands for.
pub open spec fn frame_event(frame: Seq<u8>) -> HandshakeEventView {
    match HandshakePacketGuestToHost::parse(frame) {
        Some(packet) => HandshakeEventView::Packet(packet),
        None => HandshakeEventView::Malformed,
    }
}

/// The event that the end of the stream stands for: a failed transport,
/// and the text says whether a frame was cut short.
pub open spec fn end_event(buffered: Seq<u8>) -> HandshakeEventView {
    if buffered.len() > 0 && parse_block(buffered) is None {
        HandshakeEventView::TransportFailed("Stream closed inside a frame"@)
    } else {
        HandshakeEventView::TransportFailed("Stream closed"@)
    }
}

/// What [`InboundConnection::begin`] does: a fresh handshake starts by
/// awaiting `Hello`; a handshake that has moved on is not started again.
pub open spec fn begin_transition(s: HandshakeView) -> (HandshakeView, ReactionView) {
    if s.step is AwaitHello {
        (s, ReactionView { send: None, next: NextView::Read })
    } else {
        (
            s,
            ReactionView {
                send: None,
                next: NextView::Failed(
                    HandshakeErrorView {
                        kind: ErrorKind::InvalidInput,
                        message: "Handshake already started"@,
                    },
                ),
            },
        )
    }
}

impl<S> InboundConnection<HandshakeState<S>> {
    /// The state of the handshake.
    pub closed spec fn handshake(&self) -> HandshakeView {
        HandshakeView {
            connection_type: self.connection_type,
            nonce: self.state.nonce@,
            step: self.state.step@,
        }
    }

    /// The underlying stream.
    pub closed spec fn stream(&self) -> S {
        self.state.protocol.stream()
    }

    /// The bytes that arrived and were not yet consumed.
    pub closed spec fn buffered(&self) -> Seq<u8> {
        self.state.protocol.buffered()
    }

    /// A connection over an accepted stream: the peer's type is unknown, the
    /// nonce is fresh, and the handshake awaits `Hello`.
    pub fn with_stream(stream: S) -> (conn: Self)
        ensures
            conn.handshake().connection_type == ConnectionType::Unknown,
            conn.handshake().step == HandshakeStepView::AwaitHello,
            is_random_version(conn.handshake().nonce),
            conn.stream() == stream,
            conn.buffered() == Seq::<u8>::empty(),
    {
        InboundConnection {
            connection_type: ConnectionType::Unknown,
            state: HandshakeState {
                nonce: Uuid::new_v4(),
                step: HandshakeStep::AwaitHello,
                protocol: Protocol::with_stream(stream),
            },
        }
    }

    /// The peer's connection type, as far as it is known.
    pub fn connection_type(&self) -> (value: ConnectionType)
        ensures
            value == self.handshake().connection_type,
    {
        self.connection_type
    }

    /// The nonce of this handshake attempt.
    pub fn nonce(&self) -> (value: Uuid)
        ensures
            value@ == self.handshake().nonce,
    {
        self.state.nonce
    }

    /// Whether the peer has proved its identity.
    pub fn is_complete(&self) -> (complete: bool)
        ensures
            complete == (self.handshake().step is Complete),
    {
        match self.state.step {
            HandshakeStep::Complete => true,
            _ => false,
        }
    }

    /// Starts the handshake and says what to do first.
    pub fn begin(&mut self) -> (reaction: Reaction)
        ensures
            (final(self).handshake(), reaction@) == begin_transition(old(self).handshake()),
            final(self).stream() == old(self).stream(),
            final(self).buffered() == old(self).buffered(),
    {
        match self.state.step {
            HandshakeStep::AwaitHello => Reaction { send: None, next: Next::Read },
            _ => Reaction {
                send: None,
                next: Next::Failed(
                    HandshakeError {
                        kind: ErrorKind::InvalidInput,
                        message: String::from_str("Handshake already started"),
                    },
                ),
            },
        }
    }

    /// Takes one step of [`transition`]. Where the answer is
    /// [`Next::IssueChallenge`], the caller issues the challenge and reports
    /// it with [`Self::challenge_issued`]; [`Self::advance`] does both.
    pub fn apply(&mut self, event: HandshakeEvent) -> (reaction: Reaction)
        ensures
            (final(self).handshake(), reaction@) == transition(old(self).handshake(), event@),
            final(self).stream() == old(self).stream(),
            final(self).buffered() == old(self).buffered(),
    {
        let (connection_type, step, reaction) = react(
            self.connection_type,
            self.state.nonce,
            &self.state.step,
            event,
        );
        self.connection_type = connection_type;
        self.state.step = step;
        reaction
    }

    /// Takes the step of [`challenge_transition`].
    pub fn challenge_issued(&mut self, outcome: ChallengeOutcome) -> (reaction: Reaction)
        ensures
            (final(self).handshake(), reaction@) == challenge_transition(
                old(self).handshake(),
                outcome@,
            ),
            final(self).stream() == old(self).stream(),
            final(self).buffered() == old(self).buffered(),
    {
        let (step, reaction) = react_to_challenge(
            self.connection_type,
            self.state.nonce,
            &self.state.step,
            outcome,
        );
        self.state.step = step;
        reaction
    }

    /// Takes one step of the handshake, issuing the challenge where the step
    /// calls for one.
    ///
    /// Every event but awaited TXT records is answered exactly as
    /// [`transition`] says. Awaited records are answered as
    /// [`challenge_transition`] says, for whatever the key parser, the random
    /// source and the cipher gave; a record too long for the key parser is
    /// answered as a failure without asking any of them.
    pub fn advance(&mut self, event: HandshakeEvent) -> (reaction: Reaction)
        ensures
            !(reaction@.next is IssueChallenge),
            ({
                let direct = transition(old(self).handshake(), event@);
                if direct.1.next is IssueChallenge {
                    exists|outcome: ChallengeOutcomeView|
                        outcome_admissible(outcome) && (final(self).handshake(), reaction@)
                            == #[trigger] challenge_transition(direct.0, outcome)
                } else {
                    (final(self).handshake(), reaction@) == direct
                }
            }),
            ({
                let direct = transition(old(self).handshake(), event@);
                direct.1.next matches NextView::IssueChallenge { pem } && pem.len()
                    > MAX_INPUT_LEN ==> (final(self).handshake(), reaction@)
                    == challenge_transition(direct.0, record_too_long())
            }),
            final(self).stream() == old(self).stream(),
            final(self).buffered() == old(self).buffered(),
    {
        let reaction = self.apply(event);
        if let Next::IssueChallenge { pem } = &reaction.next {
            let outcome = issue_challenge(pem.as_slice());
            let ghost witness = outcome@;
            let answer = self.challenge_issued(outcome);
            assert((self.handshake(), answer@) == challenge_transition(
                transition(old(self).handshake(), event@).0,
                witness,
            ));
            answer
        } else {
            reaction
        }
    }

    /// The stream, for the driver to read from and write to.
    pub fn stream_mut(&mut self) -> (stream: &mut S)
        ensures
            *stream == old(self).stream(),
            final(self).stream() == *final(stream),
            final(self).buffered() == old(self).buffered(),
            final(self).handshake() == old(self).handshake(),
    {
        self.state.protocol.stream_mut()
    }

    /// Takes in bytes that the driver read from the stream.
    pub fn receive(&mut self, bytes: &[u8])
        ensures
            final(self).buffered() == old(self).buffered() + bytes@,
            final(self).stream() == old(self).stream(),
            final(self).handshake() == old(self).handshake(),
    {
        self.state.protocol.receive(bytes);
    }

    /// Takes the next frame out of the buffer and decodes it as a handshake
    /// message from the connecting peer.
    pub fn read_frame(&mut self) -> (r: Result<Option<HandshakePacketGuestToHost>, ProtocolError>)
        ensures
            match parse_block(old(self).buffered()) {
                Some((frame, rest)) => final(self).buffered() == rest && (
                match HandshakePacketGuestToHost::parse(frame) {
                    Some(value) => r matches Ok(Some(packet)) && packet@ == value,
                    None => r matches Err(e) && e == ProtocolError::Malformed,
                }),
                None => r matches Ok(None) && final(self).buffered() == old(self).buffered(),
            },
            final(self).stream() == old(self).stream(),
            final(self).handshake() == old(self).handshake(),
    {
        self.state.protocol.read_frame()
    }

    /// Tells whether the stream may end here.
    pub fn end_of_stream(&self) -> (r: Result<(), ProtocolError>)
        ensures
            r is Err <==> self.buffered().len() > 0 && parse_block(self.buffered()) is None,
            r matches Err(e) ==> e == ProtocolError::Truncated,
    {
        self.state.protocol.end_of_stream()
    }

    /// Takes the next frame out of the buffer, if one is complete, and takes
    /// the step for it: for the message that it holds, or for a malformed
    /// frame. While no frame is complete nothing changes and the result is
    /// `None`: the driver has to read more.
    pub fn poll(&mut self) -> (r: Option<Reaction>)
        ensures
            match parse_block(old(self).buffered()) {
                Some((frame, rest)) => {
                    &&& r matches Some(reaction)
                    &&& (final(self).handshake(), reaction@) == transition(
                        old(self).handshake(),
                        frame_event(frame),
                    )
                    &&& final(self).buffered() == rest
                },
                None => {
                    &&& r is None
                    &&& final(self).handshake() == old(self).handshake()
                    &&& final(self).buffered() == old(self).buffered()
                },
            },
            final(self).stream() == old(self).stream(),
    {
        match self.read_frame() {
            Ok(Some(packet)) => Some(self.apply(HandshakeEvent::Packet(packet))),
            Ok(None) => None,
            Err(_) => Some(self.apply(HandshakeEvent::Malformed)),
        }
    }

    /// Takes the step for the end of the stream.
    pub fn stream_ended(&mut self) -> (reaction: Reaction)
        ensures
            (final(self).handshake(), reaction@) == transition(
                old(self).handshake(),
                end_event(old(self).buffered()),
            ),
            final(self).stream() == old(self).stream(),
            final(self).buffered() == old(self).buffered(),
    {
        let reason = match self.end_of_stream() {
            Ok(()) => String::from_str("Stream closed"),
            Err(_) => String::from_str("Stream closed inside a frame"),
        };
        self.apply(HandshakeEvent::TransportFailed(reason))
    }

    /// The frame that carries a handshake message to the connecting peer.
    pub fn send_message(&self, message: &HandshakePacketHostToGuest) -> (r: Result<
        Vec<u8>,
        ProtocolError,
    >)
        ensures
            r is Ok <==> frame_fits::<HandshakePacketHostToGuest>(message@),
            r matches Ok(frame) ==> frame@ == block(HandshakePacketHostToGuest::wire(message@)),
            r matches Err(e) ==> e == ProtocolError::Malformed,
    {
        self.state.protocol.send_message(message)
    }

    /// Converts the connection to its transfer state if the handshake
    /// succeeded, and hands it back unchanged if not.
    pub fn into_transfer(self) -> (r: Result<InboundConnection<TransferState<S>>, Self>)
        ensures
            r is Ok <==> self.handshake().step is Complete,
            r matches Ok(conn) ==> conn.connection_type_spec() == self.handshake().connection_type
                && conn.stream() == self.stream() && conn.buffered() == self.buffered(),
            r matches Err(conn) ==> conn == self,
    {
        if self.is_complete() {
            Ok(InboundConnection::<TransferState<S>>::from(self))
        } else {
            Err(self)
        }
    }
}

impl<S> InboundConnection<TransferState<S>> {
    /// The peer's connection type.
    pub closed spec fn connection_type_spec(&self) -> ConnectionType {
        self.connection_type
    }

    /// The underlying stream.
    pub closed spec fn stream(&self) -> S {
        self.state.protocol.stream()
    }

    /// The bytes that arrived and were not yet consumed.
    pub closed spec fn buffered(&self) -> Seq<u8> {
        self.state.protocol.buffered()
    }

    /// The one way into the transfer state: from a connection whose
    /// handshake succeeded. The stream, the buffered bytes and the connection
    /// type carry over; the codecs are made anew for the transfer messages.
    /// It is reached through [`InboundConnection::into_transfer`] alone.
    fn from(value: InboundConnection<HandshakeState<S>>) -> (conn: Self)
        requires
            value.handshake().step is Complete,
        ensures
            conn.connection_type_spec() == value.handshake().connection_type,
            conn.stream() == value.stream(),
            conn.buffered() == value.buffered(),
    {
        let decoder_factory = |_old: PacketDecoder<HandshakePacketGuestToHost>| -> (made:
            PacketDecoder<TransferPacketGuestToHost>) { PacketDecoder::new() };
        let encoder_factory = |_old: PacketEncoder<HandshakePacketHostToGuest>| -> (made:
            PacketEncoder<TransferPacketHostToGuest>) { PacketEncoder::new() };
        InboundConnection {
            connection_type: value.connection_type,
            state: TransferState {
                protocol: value.state.protocol.map_codecs(decoder_factory, encoder_factory),
            },
        }
    }

    /// The peer's connection type.
    #[verifier::when_used_as_spec(connection_type_spec)]
    pub fn connection_type(&self) -> (value: ConnectionType)
        ensures
            value == self.connection_type_spec(),
    {
        self.connection_type
    }

    /// The stream, for the driver to read from and write to.
    pub fn stream_mut(&mut self) -> (stream: &mut S)
        ensures
            *stream == old(self).stream(),
            final(self).stream() == *final(stream),
            final(self).buffered() == old(self).buffered(),
            final(self).connection_type_spec() == old(self).connection_type_spec(),
    {
        self.state.protocol.stream_mut()
    }

    /// Takes in bytes that the driver read from the stream.
    pub fn receive(&mut self, bytes: &[u8])
        ensures
            final(self).buffered() == old(self).buffered() + bytes@,
            final(self).stream() == old(self).stream(),
            final(self).connection_type_spec() == old(self).connection_type_spec(),
    {
        self.state.protocol.receive(bytes);
    }

    /// Takes the next frame out of the buffer and decodes it as a
    /// transfer-phase message from the connecting peer.
    pub fn read_frame(&mut self) -> (r: Result<Option<TransferPacketGuestToHost>, ProtocolError>)
        ensures
            match parse_block(old(self).buffered()) {
                Some((frame, rest)) => final(self).buffered() == rest && (
                match TransferPacketGuestToHost::parse(frame) {
                    Some(value) => r matches Ok(Some(packet)) && packet@ == value,
                    None => r matches Err(e) && e == ProtocolError::Malformed,
                }),
                None => r matches Ok(None) && final(self).buffered() == old(self).buffered(),
            },
            final(self).stream() == old(self).stream(),
            final(self).connection_type_spec() == old(self).connection_type_spec(),
    {
        self.state.protocol.read_frame()
    }

    /// Tells whether the stream may end here.
    pub fn end_of_stream(&self) -> (r: Result<(), ProtocolError>)
        ensures
            r is Err <==> self.buffered().len() > 0 && parse_block(self.buffered()) is None,
            r matches Err(e) ==> e == ProtocolError::Truncated,
    {
        self.state.protocol.end_of_stream()
    }

    /// The frame that carries a transfer-phase message to the connecting
    /// peer.
    pub fn send_message(&self, message: &TransferPacketHostToGuest) -> (r: Result<
        Vec<u8>,
        ProtocolError,
    >)
        ensures
            r is Ok <==> frame_fits::<TransferPacketHostToGuest>(message@),
            r matches Ok(frame) ==> frame@ == block(TransferPacketHostToGuest::wire(message@)),
            r matches Err(e) ==> e == ProtocolError::Malformed,
    {
        self.state.protocol.send_message(message)
    }
}

} // verus!
