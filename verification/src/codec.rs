//! The wire format of the messages.
//!
//! Every message type states how its values are laid out in a frame
//! ([`Packet::wire`]), which frames it accepts ([`Packet::parse`]), and
//! proves that the two agree. A frame holds exactly one message: bytes left
//! over after the message make the frame malformed.

use vstd::prelude::*;
use vstd::slice::slice_to_vec;
use crate::ident::Uuid;
use crate::packet::{
    ConnectionType,
    GuestHandshakeView,
    HandshakePacketGuestToHost,
    HandshakePacketHostToGuest,
    HostHandshakeView,
    TransferPacketGuestToHost,
    TransferPacketHostToGuest,
    TransferView,
};
use crate::wire::{
    MAX_BLOCK_LEN,
    block,
    fits,
    flag,
    ident,
    lemma_block_is_canonical,
    lemma_flag_is_canonical,
    lemma_ident_is_canonical,
    lemma_optional_text_is_canonical,
    lemma_parse_block,
    lemma_parse_flag,
    lemma_parse_ident,
    lemma_parse_optional_text,
    lemma_parse_text,
    lemma_text_is_canonical,
    optional_text,
    optional_text_fits,
    parse_block,
    parse_byte,
    parse_flag,
    parse_ident,
    parse_optional_text,
    parse_text,
    put_block,
    put_bytes,
    put_flag,
    put_ident,
    put_optional_text,
    put_text,
    read_block,
    read_byte,
    read_flag,
    read_ident,
    read_optional_text,
    read_text,
    text,
    text_fits,
};

verus! {

/// A message type with a wire format.
pub trait Packet: Sized + View {
    /// Whether the value can be laid out: every text and byte string in it
    /// fits in a block.
    spec fn fits(value: Self::V) -> bool;

    /// The bytes of the value in a frame.
    spec fn wire(value: Self::V) -> Seq<u8>;

    /// The value that a frame holds, or `None` for a malformed frame.
    spec fn parse(frame: Seq<u8>) -> Option<Self::V>;

    /// Decoding what was encoded gives the value back.
    proof fn lemma_round_trip(value: Self::V)
        requires
            Self::fits(value),
        ensures
            Self::parse(Self::wire(value)) == Some(value),
    ;

    /// A frame that decodes is the encoding of what it decodes to: no two
    /// frames hold the same message.
    proof fn lemma_canonical(frame: Seq<u8>)
        requires
            Self::parse(frame) is Some,
        ensures
            Self::fits(Self::parse(frame)->Some_0),
            Self::wire(Self::parse(frame)->Some_0) == frame,
    ;

    /// Encodes the message: `Some` exactly when it fits.
    fn encode(&self) -> (r: Option<Vec<u8>>)
        ensures
            r is Some <==> Self::fits(self@),
            r matches Some(bytes) ==> bytes@ == Self::wire(self@),
    ;

    /// Decodes a frame: `Some` exactly when the frame is well formed.
    fn decode(frame: &[u8]) -> (r: Option<Self>)
        ensures
            r is Some <==> Self::parse(frame@) is Some,
            r matches Some(packet) ==> Self::parse(frame@) == Some(packet@),
    ;
}

/// The byte that stands for a connection type.
pub open spec fn connection_type_byte(value: ConnectionType) -> u8 {
    match value {
        ConnectionType::Unknown => 0,
        ConnectionType::Client => 1,
        ConnectionType::Server => 2,
    }
}

/// The connection type that a byte stands for.
pub open spec fn connection_type_of(byte: u8) -> Option<ConnectionType> {
    if byte == 0 {
        Some(ConnectionType::Unknown)
    } else if byte == 1 {
        Some(ConnectionType::Client)
    } else if byte == 2 {
        Some(ConnectionType::Server)
    } else {
        None
    }
}

/// A value that was read, if nothing follows it.
pub open spec fn at_end<V>(value: V, rest: Seq<u8>) -> Option<V> {
    if rest.len() == 0 {
        Some(value)
    } else {
        None
    }
}

/// Layout of a message from the connecting peer: a tag, then the fields.
pub open spec fn guest_wire(value: GuestHandshakeView) -> Seq<u8> {
    match value {
        GuestHandshakeView::Hello { connection_type } => seq![
            0u8,
            connection_type_byte(connection_type),
        ],
        GuestHandshakeView::Identify { hostname } => seq![1u8] + text(hostname),
        GuestHandshakeView::Verify { challenge, nonce } => seq![2u8] + block(challenge) + ident(
            nonce,
        ),
    }
}

/// Whether a message from the connecting peer fits.
pub open spec fn guest_fits(value: GuestHandshakeView) -> bool {
    match value {
        GuestHandshakeView::Hello { .. } => true,
        GuestHandshakeView::Identify { hostname } => text_fits(hostname),
        GuestHandshakeView::Verify { challenge, .. } => challenge.len() <= MAX_BLOCK_LEN,
    }
}

/// The message from the connecting peer that a frame holds.
pub open spec fn guest_parse(frame: Seq<u8>) -> Option<GuestHandshakeView> {
    match parse_byte(frame) {
        Some((tag, fields)) => if tag == 0 {
            match parse_byte(fields) {
                Some((byte, rest)) => match connection_type_of(byte) {
                    Some(connection_type) => at_end(
                        GuestHandshakeView::Hello { connection_type },
                        rest,
                    ),
                    None => None,
                },
                None => None,
            }
        } else if tag == 1 {
            match parse_text(fields) {
                Some((hostname, rest)) => at_end(GuestHandshakeView::Identify { hostname }, rest),
                None => None,
            }
        } else if tag == 2 {
            match parse_block(fields) {
                Some((challenge, after)) => match parse_ident(after) {
                    Some((nonce, rest)) => at_end(
                        GuestHandshakeView::Verify { challenge, nonce },
                        rest,
                    ),
                    None => None,
                },
                None => None,
            }
        } else {
            None
        },
        None => None,
    }
}

/// Layout of a message from the host: a tag, then the fields.
pub open spec fn host_wire(value: HostHandshakeView) -> Seq<u8> {
    match value {
        HostHandshakeView::Acknowledge { ok, err } => seq![0u8] + flag(ok) + optional_text(err),
        HostHandshakeView::Challenge { encrypted_challenge, nonce } => seq![1u8] + block(
            encrypted_challenge,
        ) + ident(nonce),
        HostHandshakeView::Close { can_continue, err } => seq![2u8] + flag(can_continue)
            + optional_text(err),
    }
}

/// Whether a message from the host fits.
pub open spec fn host_fits(value: HostHandshakeView) -> bool {
    match value {
        HostHandshakeView::Acknowledge { err, .. } => optional_text_fits(err),
        HostHandshakeView::Challenge { encrypted_challenge, .. } => encrypted_challenge.len()
            <= MAX_BLOCK_LEN,
        HostHandshakeView::Close { err, .. } => optional_text_fits(err),
    }
}

/// The message from the host that a frame holds.
pub open spec fn host_parse(frame: Seq<u8>) -> Option<HostHandshakeView> {
    match parse_byte(frame) {
        Some((tag, fields)) => if tag == 0 {
            match parse_flag(fields) {
                Some((ok, after)) => match parse_optional_text(after) {
                    Some((err, rest)) => at_end(HostHandshakeView::Acknowledge { ok, err }, rest),
                    None => None,
                },
                None => None,
            }
        } else if tag == 1 {
            match parse_block(fields) {
                Some((encrypted_challenge, after)) => match parse_ident(after) {
                    Some((nonce, rest)) => at_end(
                        HostHandshakeView::Challenge { encrypted_challenge, nonce },
                        rest,
                    ),
                    None => None,
                },
                None => None,
            }
        } else if tag == 2 {
            match parse_flag(fields) {
                Some((can_continue, after)) => match parse_optional_text(after) {
                    Some((err, rest)) => at_end(
                        HostHandshakeView::Close { can_continue, err },
                        rest,
                    ),
                    None => None,
                },
                None => None,
            }
        } else {
            None
        },
        None => None,
    }
}

/// Layout of a transfer-phase message: the identity of the payload type,
/// then the payload to the end of the frame.
pub open spec fn transfer_wire(value: TransferView) -> Seq<u8> {
    ident(value.type_id) + value.payload
}

/// The transfer-phase message that a frame holds.
pub open spec fn transfer_parse(frame: Seq<u8>) -> Option<TransferView> {
    match parse_ident(frame) {
        Some((type_id, payload)) => Some(TransferView { type_id, payload }),
        None => None,
    }
}

/// Parsing undoes [`guest_wire`].
pub proof fn lemma_guest_round_trip(value: GuestHandshakeView)
    requires
        guest_fits(value),
    ensures
        guest_parse(guest_wire(value)) == Some(value),
{
    let frame = guest_wire(value);
    let empty = Seq::<u8>::empty();
    match value {
        GuestHandshakeView::Hello { .. } => {},
        GuestHandshakeView::Identify { hostname } => {
            assert(frame.skip(1) =~= text(hostname) + empty);
            lemma_parse_text(hostname, empty);
        },
        GuestHandshakeView::Verify { challenge, nonce } => {
            assert(frame.skip(1) =~= block(challenge) + ident(nonce));
            lemma_parse_block(challenge, ident(nonce));
            lemma_parse_ident(nonce, empty);
        },
    }
}

/// Parsing undoes [`host_wire`].
pub proof fn lemma_host_round_trip(value: HostHandshakeView)
    requires
        host_fits(value),
    ensures
        host_parse(host_wire(value)) == Some(value),
{
    let frame = host_wire(value);
    let empty = Seq::<u8>::empty();
    match value {
        HostHandshakeView::Acknowledge { ok, err } => {
            assert(frame.skip(1) =~= flag(ok) + optional_text(err));
            lemma_parse_flag(ok, optional_text(err));
            lemma_parse_optional_text(err, empty);
        },
        HostHandshakeView::Challenge { encrypted_challenge, nonce } => {
            assert(frame.skip(1) =~= block(encrypted_challenge) + ident(nonce));
            lemma_parse_block(encrypted_challenge, ident(nonce));
            lemma_parse_ident(nonce, empty);
        },
        HostHandshakeView::Close { can_continue, err } => {
            assert(frame.skip(1) =~= flag(can_continue) + optional_text(err));
            lemma_parse_flag(can_continue, optional_text(err));
            lemma_parse_optional_text(err, empty);
        },
    }
}

/// Parsing undoes [`transfer_wire`].
pub proof fn lemma_transfer_round_trip(value: TransferView)
    ensures
        transfer_parse(transfer_wire(value)) == Some(value),
{
    lemma_parse_ident(value.type_id, value.payload);
}

/// Only the layout of a message from the connecting peer parses as one.
pub proof fn lemma_guest_canonical(frame: Seq<u8>)
    requires
        guest_parse(frame) is Some,
    ensures
        guest_fits(guest_parse(frame)->Some_0),
        guest_wire(guest_parse(frame)->Some_0) == frame,
{
    let (tag, fields) = parse_byte(frame)->Some_0;
    assert(frame =~= seq![tag] + fields);
    if tag == 1 {
        lemma_text_is_canonical(fields);
    } else if tag == 2 {
        lemma_block_is_canonical(fields);
        lemma_ident_is_canonical(parse_block(fields)->Some_0.1);
    }
}

/// Only the layout of a message from the host parses as one.
pub proof fn lemma_host_canonical(frame: Seq<u8>)
    requires
        host_parse(frame) is Some,
    ensures
        host_fits(host_parse(frame)->Some_0),
        host_wire(host_parse(frame)->Some_0) == frame,
{
    let (tag, fields) = parse_byte(frame)->Some_0;
    assert(frame =~= seq![tag] + fields);
    if tag == 1 {
        lemma_block_is_canonical(fields);
        lemma_ident_is_canonical(parse_block(fields)->Some_0.1);
    } else {
        lemma_flag_is_canonical(fields);
        lemma_optional_text_is_canonical(parse_flag(fields)->Some_0.1);
    }
}

/// Only the layout of a transfer-phase message parses as one.
pub proof fn lemma_transfer_canonical(frame: Seq<u8>)
    requires
        transfer_parse(frame) is Some,
    ensures
        transfer_wire(transfer_parse(frame)->Some_0) == frame,
{
    lemma_ident_is_canonical(frame);
}

impl Packet for HandshakePacketGuestToHost {
    open spec fn fits(value: GuestHandshakeView) -> bool {
        guest_fits(value)
    }

    open spec fn wire(value: GuestHandshakeView) -> Seq<u8> {
        guest_wire(value)
    }

    open spec fn parse(frame: Seq<u8>) -> Option<GuestHandshakeView> {
        guest_parse(frame)
    }

    proof fn lemma_round_trip(value: GuestHandshakeView) {
        lemma_guest_round_trip(value);
    }

    proof fn lemma_canonical(frame: Seq<u8>) {
        lemma_guest_canonical(frame);
    }

    fn encode(&self) -> (r: Option<Vec<u8>>) {
        let mut out: Vec<u8> = Vec::new();
        match self {
            HandshakePacketGuestToHost::Hello { connection_type } => {
                out.push(0u8);
                out.push(
                    match connection_type {
                        ConnectionType::Unknown => 0u8,
                        ConnectionType::Client => 1u8,
                        ConnectionType::Server => 2u8,
                    },
                );
            },
            HandshakePacketGuestToHost::Identify { hostname } => {
                if !fits(hostname.as_str()) {
                    return None;
                }
                out.push(1u8);
                put_text(&mut out, hostname.as_str());
            },
            HandshakePacketGuestToHost::Verify { challenge, nonce } => {
                if challenge.len() > MAX_BLOCK_LEN {
                    return None;
                }
                out.push(2u8);
                put_block(&mut out, challenge.as_slice());
                put_ident(&mut out, nonce.as_u128());
            },
        }
        Some(out)
    }

    fn decode(frame: &[u8]) -> (r: Option<Self>) {
        let (tag, fields) = match read_byte(frame, 0) {
            Some(read) => read,
            None => {
                return None;
            },
        };
        if tag == 0 {
            let (byte, end) = match read_byte(frame, fields) {
                Some(read) => read,
                None => {
                    return None;
                },
            };
            let connection_type = if byte == 0 {
                ConnectionType::Unknown
            } else if byte == 1 {
                ConnectionType::Client
            } else if byte == 2 {
                ConnectionType::Server
            } else {
                return None;
            };
            if end != frame.len() {
                return None;
            }
            Some(HandshakePacketGuestToHost::Hello { connection_type })
        } else if tag == 1 {
            let (hostname, end) = match read_text(frame, fields) {
                Some(read) => read,
                None => {
                    return None;
                },
            };
            if end != frame.len() {
                return None;
            }
            Some(HandshakePacketGuestToHost::Identify { hostname })
        } else if tag == 2 {
            let (challenge, after) = match read_block(frame, fields) {
                Some(read) => read,
                None => {
                    return None;
                },
            };
            let (nonce, end) = match read_ident(frame, after) {
                Some(read) => read,
                None => {
                    return None;
                },
            };
            if end != frame.len() {
                return None;
            }
            Some(
                HandshakePacketGuestToHost::Verify {
                    challenge: slice_to_vec(challenge),
                    nonce: Uuid::from_u128(nonce),
                },
            )
        } else {
            None
        }
    }
}

impl Packet for HandshakePacketHostToGuest {
    open spec fn fits(value: HostHandshakeView) -> bool {
        host_fits(value)
    }

    open spec fn wire(value: HostHandshakeView) -> Seq<u8> {
        host_wire(value)
    }

    open spec fn parse(frame: Seq<u8>) -> Option<HostHandshakeView> {
        host_parse(frame)
    }

    proof fn lemma_round_trip(value: HostHandshakeView) {
        lemma_host_round_trip(value);
    }

    proof fn lemma_canonical(frame: Seq<u8>) {
        lemma_host_canonical(frame);
    }

    fn encode(&self) -> (r: Option<Vec<u8>>) {
        let mut out: Vec<u8> = Vec::new();
        match self {
            HandshakePacketHostToGuest::Acknowledge { ok, err } => {
                if let Some(t) = err {
                    if !fits(t.as_str()) {
                        return None;
                    }
                }
                out.push(0u8);
                put_flag(&mut out, *ok);
                put_optional_text(&mut out, err);
            },
            HandshakePacketHostToGuest::Challenge { encrypted_challenge, nonce } => {
                if encrypted_challenge.len() > MAX_BLOCK_LEN {
                    return None;
                }
                out.push(1u8);
                put_block(&mut out, encrypted_challenge.as_slice());
                put_ident(&mut out, nonce.as_u128());
            },
            HandshakePacketHostToGuest::Close { can_continue, err } => {
                if let Some(t) = err {
                    if !fits(t.as_str()) {
                        return None;
                    }
                }
                out.push(2u8);
                put_flag(&mut out, *can_continue);
                put_optional_text(&mut out, err);
            },
        }
        Some(out)
    }

    fn decode(frame: &[u8]) -> (r: Option<Self>) {
        let (tag, fields) = match read_byte(frame, 0) {
            Some(read) => read,
            None => {
                return None;
            },
        };
        if tag == 0 || tag == 2 {
            let (value, after) = match read_flag(frame, fields) {
                Some(read) => read,
                None => {
                    return None;
                },
            };
            let (err, end) = match read_optional_text(frame, after) {
                Some(read) => read,
                None => {
                    return None;
                },
            };
            if end != frame.len() {
                return None;
            }
            if tag == 0 {
                Some(HandshakePacketHostToGuest::Acknowledge { ok: value, err })
            } else {
                Some(HandshakePacketHostToGuest::Close { can_continue: value, err })
            }
        } else if tag == 1 {
            let (encrypted_challenge, after) = match read_block(frame, fields) {
                Some(read) => read,
                None => {
                    return None;
                },
            };
            let (nonce, end) = match read_ident(frame, after) {
                Some(read) => read,
                None => {
                    return None;
                },
            };
            if end != frame.len() {
                return None;
            }
            Some(
                HandshakePacketHostToGuest::Challenge {
                    encrypted_challenge: slice_to_vec(encrypted_challenge),
                    nonce: Uuid::from_u128(nonce),
                },
            )
        } else {
            None
        }
    }
}

/// Lays out a transfer-phase message.
fn encode_transfer(type_id: Uuid, payload: &[u8]) -> (out: Vec<u8>)
    ensures
        out@ == transfer_wire(TransferView { type_id: type_id@, payload: payload@ }),
{
    let mut out: Vec<u8> = Vec::new();
    put_ident(&mut out, type_id.as_u128());
    put_bytes(&mut out, payload);
    out
}

/// Reads a transfer-phase message.
fn decode_transfer(frame: &[u8]) -> (r: Option<(Uuid, Vec<u8>)>)
    ensures
        r is Some <==> transfer_parse(frame@) is Some,
        r matches Some((type_id, payload)) ==> transfer_parse(frame@) == Some(
            TransferView { type_id: type_id@, payload: payload@ },
        ),
{
    assert(frame@.skip(0) =~= frame@);
    match read_ident(frame, 0) {
        Some((type_id, start)) => {
            let payload = slice_to_vec(vstd::slice::slice_subrange(frame, start, frame.len()));
            Some((Uuid::from_u128(type_id), payload))
        },
        None => None,
    }
}

impl Packet for TransferPacketGuestToHost {
    open spec fn fits(value: TransferView) -> bool {
        true
    }

    open spec fn wire(value: TransferView) -> Seq<u8> {
        transfer_wire(value)
    }

    open spec fn parse(frame: Seq<u8>) -> Option<TransferView> {
        transfer_parse(frame)
    }

    proof fn lemma_round_trip(value: TransferView) {
        lemma_transfer_round_trip(value);
    }

    proof fn lemma_canonical(frame: Seq<u8>) {
        lemma_transfer_canonical(frame);
    }

    fn encode(&self) -> (r: Option<Vec<u8>>) {
        Some(encode_transfer(self.type_id, self.payload.as_slice()))
    }

    fn decode(frame: &[u8]) -> (r: Option<Self>) {
        match decode_transfer(frame) {
            Some((type_id, payload)) => Some(TransferPacketGuestToHost { type_id, payload }),
            None => None,
        }
    }
}

impl Packet for TransferPacketHostToGuest {
    open spec fn fits(value: TransferView) -> bool {
        true
    }

    open spec fn wire(value: TransferView) -> Seq<u8> {
        transfer_wire(value)
    }

    open spec fn parse(frame: Seq<u8>) -> Option<TransferView> {
        transfer_parse(frame)
    }

    proof fn lemma_round_trip(value: TransferView) {
        lemma_transfer_round_trip(value);
    }

    proof fn lemma_canonical(frame: Seq<u8>) {
        lemma_transfer_canonical(frame);
    }

    fn encode(&self) -> (r: Option<Vec<u8>>) {
        Some(encode_transfer(self.type_id, self.payload.as_slice()))
    }

    fn decode(frame: &[u8]) -> (r: Option<Self>) {
        match decode_transfer(frame) {
            Some((type_id, payload)) => Some(TransferPacketHostToGuest { type_id, payload }),
            None => None,
        }
    }
}

} // verus!
