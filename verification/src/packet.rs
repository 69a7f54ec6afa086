//! The messages of the two protocol phases, and their mathematical views.

use vstd::prelude::*;
use crate::ident::Uuid;

verus! {

/// What kind of peer sits at the other end of a connection.
#[derive(Clone, Copy, Debug, PartialEq, Eq, Structural, Hash)]
pub enum ConnectionType {
    Unknown,
    Client,
    Server,
}

/// Handshake messages that the connecting peer sends to the host.
#[derive(Clone, Debug, PartialEq, Eq)]
pub enum HandshakePacketGuestToHost {
    Hello { connection_type: ConnectionType },
    Identify { hostname: String },
    Verify { challenge: Vec<u8>, nonce: Uuid },
}

/// Handshake messages that the host sends to the connecting peer.
#[derive(Clone, Debug, PartialEq, Eq)]
pub enum HandshakePacketHostToGuest {
    Acknowledge { ok: bool, err: Option<String> },
    Challenge { encrypted_challenge: Vec<u8>, nonce: Uuid },
    Close { can_continue: bool, err: Option<String> },
}

/// A transfer-phase message from the connecting peer: an encoded payload
/// under the identity of its payload type.
#[derive(Clone, Debug, PartialEq, Eq)]
pub struct TransferPacketGuestToHost {
    pub type_id: Uuid,
    pub payload: Vec<u8>,
}

/// A transfer-phase message from the host: an encoded payload under the
/// identity of its payload type.
#[derive(Clone, Debug, PartialEq, Eq)]
pub struct TransferPacketHostToGuest {
    pub type_id: Uuid,
    pub payload: Vec<u8>,
}

/// View of [`HandshakePacketGuestToHost`].
pub enum GuestHandshakeView {
    Hello { connection_type: ConnectionType },
    Identify { hostname: Seq<char> },
    Verify { challenge: Seq<u8>, nonce: u128 },
}

/// View of [`HandshakePacketHostToGuest`].
pub enum HostHandshakeView {
    Acknowledge { ok: bool, err: Option<Seq<char>> },
    Challenge { encrypted_challenge: Seq<u8>, nonce: u128 },
    Close { can_continue: bool, err: Option<Seq<char>> },
}

/// View of both transfer-phase messages.
pub struct TransferView {
    pub type_id: u128,
    pub payload: Seq<u8>,
}

/// View of an optional text.
pub open spec fn text_view(text: Option<String>) -> Option<Seq<char>> {
    match text {
        Some(s) => Some(s@),
        None => None,
    }
}

impl View for HandshakePacketGuestToHost {
    type V = GuestHandshakeView;

    open spec fn view(&self) -> GuestHandshakeView {
        match *self {
            HandshakePacketGuestToHost::Hello { connection_type } => GuestHandshakeView::Hello {
                connection_type,
            },
            HandshakePacketGuestToHost::Identify { hostname } => GuestHandshakeView::Identify {
                hostname: hostname@,
            },
            HandshakePacketGuestToHost::Verify { challenge, nonce } => GuestHandshakeView::Verify {
                challenge: challenge@,
                nonce: nonce@,
            },
        }
    }
}

impl View for HandshakePacketHostToGuest {
    type V = HostHandshakeView;

    open spec fn view(&self) -> HostHandshakeView {
        match *self {
            HandshakePacketHostToGuest::Acknowledge { ok, err } => HostHandshakeView::Acknowledge {
                ok,
                err: text_view(err),
            },
            HandshakePacketHostToGuest::Challenge {
                encrypted_challenge,
                nonce,
            } => HostHandshakeView::Challenge {
                encrypted_challenge: encrypted_challenge@,
                nonce: nonce@,
            },
            HandshakePacketHostToGuest::Close { can_continue, err } => HostHandshakeView::Close {
                can_continue,
                err: text_view(err),
            },
        }
    }
}

impl View for TransferPacketGuestToHost {
    type V = TransferView;

    open spec fn view(&self) -> TransferView {
        TransferView { type_id: self.type_id@, payload: self.payload@ }
    }
}

impl View for TransferPacketHostToGuest {
    type V = TransferView;

    open spec fn view(&self) -> TransferView {
        TransferView { type_id: self.type_id@, payload: self.payload@ }
    }
}

} // verus!
