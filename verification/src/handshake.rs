//! The handshake as a transition function.
//!
//! The host awaits `Hello`, acknowledges it, awaits `Identify`, asks DNS for
//! the TXT record at `_osp.<hostname>`, sends a challenge encrypted under the
//! key found there, and awaits `Verify`. Each step takes the current state
//! and one event and gives the next state and a [`Reaction`]: a message to
//! send, if any, and what the driver has to do next.
//!
//! [`transition`] and [`challenge_transition`] say what a step does; the
//! executable functions below compute exactly these.

use vstd::prelude::*;
use vstd::string::*;
use vstd::utf8::encode_utf8;
use crate::ident::Uuid;
use crate::packet::{
    ConnectionType,
    GuestHandshakeView,
    HandshakePacketGuestToHost,
    HandshakePacketHostToGuest,
    HostHandshakeView,
};
use crate::crypto::{ChallengeOutcome, ChallengeOutcomeView};

verus! {

/// Why a handshake was aborted.
#[derive(Clone, Copy, Debug, PartialEq, Eq, Structural, Hash)]
pub enum ErrorKind {
    /// A message other than the one the current step expects.
    InvalidInput,
    /// A wrong nonce, a missing DNS record, or a frame that does not decode.
    InvalidData,
    /// The peer did not return the challenge bytes.
    PermissionDenied,
    /// The transport, the DNS lookup, or the key or cipher failed.
    IoFailure,
}

/// The error that ends an aborted handshake.
#[derive(Clone, Debug, PartialEq, Eq)]
pub struct HandshakeError {
    pub kind: ErrorKind,
    pub message: String,
}

/// View of [`HandshakeError`].
pub struct HandshakeErrorView {
    pub kind: ErrorKind,
    pub message: Seq<char>,
}

impl View for HandshakeError {
    type V = HandshakeErrorView;

    open spec fn view(&self) -> HandshakeErrorView {
        HandshakeErrorView { kind: self.kind, message: self.message@ }
    }
}

/// What the driver reports back to the handshake.
#[derive(Clone, Debug, PartialEq, Eq)]
pub enum HandshakeEvent {
    /// A complete frame arrived and decoded to this message.
    Packet(HandshakePacketGuestToHost),
    /// A complete frame arrived and did not decode.
    Malformed,
    /// The TXT lookup answered with these records, in the order received.
    Records(Vec<String>),
    /// The TXT lookup failed; the text says how.
    LookupFailed(String),
    /// Reading or writing the stream failed; the text says how.
    TransportFailed(String),
}

/// View of [`HandshakeEvent`].
pub enum HandshakeEventView {
    Packet(GuestHandshakeView),
    Malformed,
    Records(Seq<Seq<char>>),
    LookupFailed(Seq<char>),
    TransportFailed(Seq<char>),
}

/// The texts of a list of records.
pub open spec fn texts(records: Seq<String>) -> Seq<Seq<char>> {
    Seq::new(records.len(), |i: int| records[i]@)
}

impl View for HandshakeEvent {
    type V = HandshakeEventView;

    open spec fn view(&self) -> HandshakeEventView {
        match *self {
            HandshakeEvent::Packet(packet) => HandshakeEventView::Packet(packet@),
            HandshakeEvent::Malformed => HandshakeEventView::Malformed,
            HandshakeEvent::Records(records) => HandshakeEventView::Records(texts(records@)),
            HandshakeEvent::LookupFailed(details) => HandshakeEventView::LookupFailed(details@),
            HandshakeEvent::TransportFailed(details) => HandshakeEventView::TransportFailed(
                details@,
            ),
        }
    }
}

/// Where a handshake stands.
#[derive(Clone, Debug, PartialEq, Eq)]
pub enum HandshakeStep {
    AwaitHello,
    AwaitIdentify,
    /// The peer claimed `hostname`; its TXT record is being looked up.
    AwaitRecord { hostname: String },
    /// The challenge was sent; `challenge` holds its plain bytes.
    AwaitVerify { challenge: Vec<u8> },
    /// The peer proved its identity.
    Complete,
    /// The handshake failed for good.
    Aborted,
}

/// View of [`HandshakeStep`].
pub enum HandshakeStepView {
    AwaitHello,
    AwaitIdentify,
    AwaitRecord { hostname: Seq<char> },
    AwaitVerify { challenge: Seq<u8> },
    Complete,
    Aborted,
}

impl View for HandshakeStep {
    type V = HandshakeStepView;

    open spec fn view(&self) -> HandshakeStepView {
        match *self {
            HandshakeStep::AwaitHello => HandshakeStepView::AwaitHello,
            HandshakeStep::AwaitIdentify => HandshakeStepView::AwaitIdentify,
            HandshakeStep::AwaitRecord { hostname } => HandshakeStepView::AwaitRecord {
                hostname: hostname@,
            },
            HandshakeStep::AwaitVerify { challenge } => HandshakeStepView::AwaitVerify {
                challenge: challenge@,
            },
            HandshakeStep::Complete => HandshakeStepView::Complete,
            HandshakeStep::Aborted => HandshakeStepView::Aborted,
        }
    }
}

/// What the driver has to do after a step.
#[derive(Clone, Debug, PartialEq, Eq)]
pub enum Next {
    /// Read the next frame and report it.
    Read,
    /// Look up the TXT records at `name` and report them.
    Lookup { name: String },
    /// Issue a challenge for the key in `pem` and report the outcome.
    IssueChallenge { pem: Vec<u8> },
    /// The handshake succeeded.
    Done,
    /// The handshake failed with this error.
    Failed(HandshakeError),
}

/// View of [`Next`].
pub enum NextView {
    Read,
    Lookup { name: Seq<char> },
    IssueChallenge { pem: Seq<u8> },
    Done,
    Failed(HandshakeErrorView),
}

impl View for Next {
    type V = NextView;

    open spec fn view(&self) -> NextView {
        match *self {
            Next::Read => NextView::Read,
            Next::Lookup { name } => NextView::Lookup { name: name@ },
            Next::IssueChallenge { pem } => NextView::IssueChallenge { pem: pem@ },
            Next::Done => NextView::Done,
            Next::Failed(error) => NextView::Failed(error@),
        }
    }
}

/// The outcome of one step: a message for the peer, sent before anything
/// else happens, and the driver's next task.
#[derive(Clone, Debug, PartialEq, Eq)]
pub struct Reaction {
    pub send: Option<HandshakePacketHostToGuest>,
    pub next: Next,
}

/// View of [`Reaction`].
pub struct ReactionView {
    pub send: Option<HostHandshakeView>,
    pub next: NextView,
}

impl View for Reaction {
    type V = ReactionView;

    open spec fn view(&self) -> ReactionView {
        ReactionView {
            send: match self.send {
                Some(packet) => Some(packet@),
                None => None,
            },
            next: self.next@,
        }
    }
}

/// The state of a handshake: who the peer says it is, the nonce of this
/// attempt, and the step reached.
pub struct HandshakeView {
    pub connection_type: ConnectionType,
    pub nonce: u128,
    pub step: HandshakeStepView,
}

/// Whether the handshake has ended, either way.
pub open spec fn is_terminal(step: HandshakeStepView) -> bool {
    step is Complete || step is Aborted
}

/// The name whose TXT record publishes the key of `hostname`.
pub open spec fn record_name(hostname: Seq<char>) -> Seq<char> {
    "_osp."@ + hostname
}

/// The explanation sent when `hostname` publishes no record.
pub open spec fn missing_record_message(hostname: Seq<char>) -> Seq<char> {
    "Failed to resolve SRV record for "@ + hostname + ". Is it located at _osp."@ + hostname
        + "?"@
}

/// The explanation sent when the lookup for `hostname` failed with `details`.
pub open spec fn lookup_failed_message(hostname: Seq<char>, details: Seq<char>) -> Seq<char> {
    missing_record_message(hostname) + "\n\nFurther Details: "@ + details
}

/// The explanation sent when a step receives anything but what it awaits.
pub open spec fn expected_message(step: HandshakeStepView) -> Seq<char> {
    match step {
        HandshakeStepView::AwaitHello => "Expected hello packet"@,
        HandshakeStepView::AwaitIdentify => "Expected identify packet"@,
        HandshakeStepView::AwaitRecord { .. } => "Expected challenge record"@,
        HandshakeStepView::AwaitVerify { .. } => "Expected challenge verification packet"@,
        HandshakeStepView::Complete => "Handshake already finished"@,
        HandshakeStepView::Aborted => "Handshake already finished"@,
    }
}

/// The state with another step.
pub open spec fn with_step(s: HandshakeView, step: HandshakeStepView) -> HandshakeView {
    HandshakeView { connection_type: s.connection_type, nonce: s.nonce, step }
}

/// Aborting: the peer is told why in a `Close` that forbids it to go on, and
/// the same text goes to the caller as an error of the given kind.
pub open spec fn abort(s: HandshakeView, kind: ErrorKind, message: Seq<char>) -> (
    HandshakeView,
    ReactionView,
) {
    (
        with_step(s, HandshakeStepView::Aborted),
        ReactionView {
            send: Some(HostHandshakeView::Close { can_continue: false, err: Some(message) }),
            next: NextView::Failed(HandshakeErrorView { kind, message }),
        },
    )
}

/// What a message from the peer does to a handshake that has not ended.
pub open spec fn packet_transition(s: HandshakeView, packet: GuestHandshakeView) -> (
    HandshakeView,
    ReactionView,
) {
    match (s.step, packet) {
        (HandshakeStepView::AwaitHello, GuestHandshakeView::Hello { connection_type }) => (
            HandshakeView { connection_type, nonce: s.nonce, step: HandshakeStepView::AwaitIdentify },
            ReactionView {
                send: Some(HostHandshakeView::Acknowledge { ok: true, err: None }),
                next: NextView::Read,
            },
        ),
        (HandshakeStepView::AwaitIdentify, GuestHandshakeView::Identify { hostname }) => (
            with_step(s, HandshakeStepView::AwaitRecord { hostname }),
            ReactionView { send: None, next: NextView::Lookup { name: record_name(hostname) } },
        ),
        (
            HandshakeStepView::AwaitVerify { challenge },
            GuestHandshakeView::Verify { challenge: answer, nonce },
        ) => if nonce != s.nonce {
            abort(s, ErrorKind::InvalidData, "Invalid nonce"@)
        } else if answer == challenge {
            (
                with_step(s, HandshakeStepView::Complete),
                ReactionView {
                    send: Some(HostHandshakeView::Close { can_continue: true, err: None }),
                    next: NextView::Done,
                },
            )
        } else {
            abort(s, ErrorKind::PermissionDenied, "Challenge failed"@)
        },
        _ => abort(s, ErrorKind::InvalidInput, expected_message(s.step)),
    }
}

/// The answer of a handshake that has ended: nothing is sent, nothing
/// changes, and the caller gets an error.
pub open spec fn finished(s: HandshakeView) -> (HandshakeView, ReactionView) {
    (
        s,
        ReactionView {
            send: None,
            next: NextView::Failed(
                HandshakeErrorView {
                    kind: ErrorKind::InvalidInput,
                    message: expected_message(s.step),
                },
            ),
        },
    )
}

/// The transition function of the handshake.
///
/// A handshake that has ended stays as it is and answers every event with
/// an error. A transport failure aborts without a message, since nothing can
/// be sent. Every other abort goes through [`abort`]. TXT records that arrive
/// while they are awaited are answered with [`NextView::IssueChallenge`] for
/// the first of them; [`challenge_transition`] takes it from there.
pub open spec fn transition(s: HandshakeView, event: HandshakeEventView) -> (
    HandshakeView,
    ReactionView,
) {
    if is_terminal(s.step) {
        finished(s)
    } else {
        match event {
            HandshakeEventView::TransportFailed(details) => (
                with_step(s, HandshakeStepView::Aborted),
                ReactionView {
                    send: None,
                    next: NextView::Failed(
                        HandshakeErrorView { kind: ErrorKind::IoFailure, message: details },
                    ),
                },
            ),
            HandshakeEventView::Malformed => abort(s, ErrorKind::InvalidData, "Malformed packet"@),
            HandshakeEventView::Packet(packet) => packet_transition(s, packet),
            HandshakeEventView::Records(records) => match s.step {
                HandshakeStepView::AwaitRecord { hostname } => if records.len() == 0 {
                    abort(s, ErrorKind::InvalidData, missing_record_message(hostname))
                } else {
                    (
                        s,
                        ReactionView {
                            send: None,
                            next: NextView::IssueChallenge { pem: encode_utf8(records[0]) },
                        },
                    )
                },
                _ => abort(s, ErrorKind::InvalidInput, expected_message(s.step)),
            },
            HandshakeEventView::LookupFailed(details) => match s.step {
                HandshakeStepView::AwaitRecord { hostname } => abort(
                    s,
                    ErrorKind::IoFailure,
                    lookup_failed_message(hostname, details),
                ),
                _ => abort(s, ErrorKind::InvalidInput, expected_message(s.step)),
            },
        }
    }
}

/// What the outcome of issuing a challenge does to a handshake: while a
/// record is awaited, an issued challenge is sent with the nonce of this
/// attempt and its plain bytes are kept for the comparison; a failure aborts.
pub open spec fn challenge_transition(s: HandshakeView, outcome: ChallengeOutcomeView) -> (
    HandshakeView,
    ReactionView,
) {
    if is_terminal(s.step) {
        finished(s)
    } else {
        match s.step {
            HandshakeStepView::AwaitRecord { .. } => match outcome {
                ChallengeOutcomeView::Issued { challenge, encrypted_challenge } => (
                    with_step(s, HandshakeStepView::AwaitVerify { challenge }),
                    ReactionView {
                        send: Some(
                            HostHandshakeView::Challenge { encrypted_challenge, nonce: s.nonce },
                        ),
                        next: NextView::Read,
                    },
                ),
                ChallengeOutcomeView::Failed { details } => abort(
                    s,
                    ErrorKind::IoFailure,
                    details,
                ),
            },
            _ => abort(s, ErrorKind::InvalidInput, expected_message(s.step)),
        }
    }
}

/// The state that the three parts of a handshake stand for.
pub open spec fn state_view(
    connection_type: ConnectionType,
    nonce: Uuid,
    step: HandshakeStep,
) -> HandshakeView {
    HandshakeView { connection_type, nonce: nonce@, step: step@ }
}

/// Whether two byte strings are equal.
pub fn bytes_equal(a: &[u8], b: &[u8]) -> (equal: bool)
    ensures
        equal == (a@ == b@),
{
    if a.len() != b.len() {
        return false;
    }
    let mut i: usize = 0;
    while i < a.len()
        invariant
            a@.len() == b@.len(),
            i <= a@.len(),
            forall|j: int| 0 <= j < i ==> a@[j] == b@[j],
        decreases a@.len() - i,
    {
        if a[i] != b[i] {
            return false;
        }
        i += 1;
    }
    assert(a@ =~= b@);
    true
}

/// The name to look up for `hostname`.
pub fn record_name_text(hostname: &str) -> (name: String)
    ensures
        name@ == record_name(hostname@),
{
    let mut name = String::from_str("_osp.");
    name.append(hostname);
    name
}

/// The text of [`missing_record_message`].
pub fn missing_record_text(hostname: &str) -> (message: String)
    ensures
        message@ == missing_record_message(hostname@),
{
    let mut message = String::from_str("Failed to resolve SRV record for ");
    message.append(hostname);
    message.append(". Is it located at _osp.");
    message.append(hostname);
    message.append("?");
    message
}

/// The text of [`lookup_failed_message`].
pub fn lookup_failed_text(hostname: &str, details: &str) -> (message: String)
    ensures
        message@ == lookup_failed_message(hostname@, details@),
{
    let mut message = missing_record_text(hostname);
    message.append("\n\nFurther Details: ");
    message.append(details);
    message
}

/// The text of [`expected_message`].
pub fn expected_text(step: &HandshakeStep) -> (message: String)
    ensures
        message@ == expected_message(step@),
{
    match step {
        HandshakeStep::AwaitHello => String::from_str("Expected hello packet"),
        HandshakeStep::AwaitIdentify => String::from_str("Expected identify packet"),
        HandshakeStep::AwaitRecord { .. } => String::from_str("Expected challenge record"),
        HandshakeStep::AwaitVerify { .. } => String::from_str(
            "Expected challenge verification packet",
        ),
        HandshakeStep::Complete => String::from_str("Handshake already finished"),
        HandshakeStep::Aborted => String::from_str("Handshake already finished"),
    }
}

/// The reaction of [`abort`].
fn abort_reaction(kind: ErrorKind, message: String) -> (reaction: Reaction)
    ensures
        reaction@ == (ReactionView {
            send: Some(HostHandshakeView::Close { can_continue: false, err: Some(message@) }),
            next: NextView::Failed(HandshakeErrorView { kind, message: message@ }),
        }),
{
    let told = message.clone();
    Reaction {
        send: Some(HandshakePacketHostToGuest::Close { can_continue: false, err: Some(told) }),
        next: Next::Failed(HandshakeError { kind, message }),
    }
}

/// The reaction of [`finished`].
fn finished_reaction(step: &HandshakeStep) -> (reaction: Reaction)
    ensures
        reaction@ == (ReactionView {
            send: None,
            next: NextView::Failed(
                HandshakeErrorView {
                    kind: ErrorKind::InvalidInput,
                    message: expected_message(step@),
                },
            ),
        }),
{
    Reaction {
        send: None,
        next: Next::Failed(
            HandshakeError { kind: ErrorKind::InvalidInput, message: expected_text(step) },
        ),
    }
}

/// Computes [`packet_transition`].
fn react_to_packet(
    connection_type: ConnectionType,
    nonce: Uuid,
    step: &HandshakeStep,
    packet: HandshakePacketGuestToHost,
) -> (out: (ConnectionType, HandshakeStep, Reaction))
    requires
        !is_terminal(step@),
    ensures
        (state_view(out.0, nonce, out.1), out.2@) == packet_transition(
            state_view(connection_type, nonce, *step),
            packet@,
        ),
{
    match packet {
        HandshakePacketGuestToHost::Hello { connection_type: declared } => {
            if let HandshakeStep::AwaitHello = step {
                return (
                    declared,
                    HandshakeStep::AwaitIdentify,
                    Reaction {
                        send: Some(HandshakePacketHostToGuest::Acknowledge { ok: true, err: None }),
                        next: Next::Read,
                    },
                );
            }
        },
        HandshakePacketGuestToHost::Identify { hostname } => {
            if let HandshakeStep::AwaitIdentify = step {
                let name = record_name_text(hostname.as_str());
                return (
                    connection_type,
                    HandshakeStep::AwaitRecord { hostname },
                    Reaction { send: None, next: Next::Lookup { name } },
                );
            }
        },
        HandshakePacketGuestToHost::Verify { challenge: answer, nonce: returned } => {
            if let HandshakeStep::AwaitVerify { challenge } = step {
                if returned != nonce {
                    return (
                        connection_type,
                        HandshakeStep::Aborted,
                        abort_reaction(ErrorKind::InvalidData, String::from_str("Invalid nonce")),
                    );
                }
                if bytes_equal(answer.as_slice(), challenge.as_slice()) {
                    return (
                        connection_type,
                        HandshakeStep::Complete,
                        Reaction {
                            send: Some(
                                HandshakePacketHostToGuest::Close { can_continue: true, err: None },
                            ),
                            next: Next::Done,
                        },
                    );
                }
                return (
                    connection_type,
                    HandshakeStep::Aborted,
                    abort_reaction(
                        ErrorKind::PermissionDenied,
                        String::from_str("Challenge failed"),
                    ),
                );
            }
        },
    }
    (
        connection_type,
        HandshakeStep::Aborted,
        abort_reaction(ErrorKind::InvalidInput, expected_text(step)),
    )
}

/// Computes [`transition`]: the next connection type, the next step and the
/// reaction to `event`, for a handshake with the given nonce that stands at
/// `step`.
pub fn react(
    connection_type: ConnectionType,
    nonce: Uuid,
    step: &HandshakeStep,
    event: HandshakeEvent,
) -> (out: (ConnectionType, HandshakeStep, Reaction))
    ensures
        (state_view(out.0, nonce, out.1), out.2@) == transition(
            state_view(connection_type, nonce, *step),
            event@,
        ),
{
    match step {
        HandshakeStep::Complete => {
            return (connection_type, HandshakeStep::Complete, finished_reaction(step));
        },
        HandshakeStep::Aborted => {
            return (connection_type, HandshakeStep::Aborted, finished_reaction(step));
        },
        _ => {},
    }
    match event {
        HandshakeEvent::TransportFailed(details) => (
            connection_type,
            HandshakeStep::Aborted,
            Reaction {
                send: None,
                next: Next::Failed(HandshakeError { kind: ErrorKind::IoFailure, message: details }),
            },
        ),
        HandshakeEvent::Malformed => (
            connection_type,
            HandshakeStep::Aborted,
            abort_reaction(ErrorKind::InvalidData, String::from_str("Malformed packet")),
        ),
        HandshakeEvent::Packet(packet) => react_to_packet(connection_type, nonce, step, packet),
        HandshakeEvent::Records(records) => {
            if let HandshakeStep::AwaitRecord { hostname } = step {
                if records.len() == 0 {
                    (
                        connection_type,
                        HandshakeStep::Aborted,
                        abort_reaction(
                            ErrorKind::InvalidData,
                            missing_record_text(hostname.as_str()),
                        ),
                    )
                } else {
                    let pem = records[0].as_str().as_bytes_vec();
                    (
                        connection_type,
                        HandshakeStep::AwaitRecord { hostname: hostname.clone() },
                        Reaction { send: None, next: Next::IssueChallenge { pem } },
                    )
                }
            } else {
                (
                    connection_type,
                    HandshakeStep::Aborted,
                    abort_reaction(ErrorKind::InvalidInput, expected_text(step)),
                )
            }
        },
        HandshakeEvent::LookupFailed(details) => {
            if let HandshakeStep::AwaitRecord { hostname } = step {
                (
                    connection_type,
                    HandshakeStep::Aborted,
                    abort_reaction(
                        ErrorKind::IoFailure,
                        lookup_failed_text(hostname.as_str(), details.as_str()),
                    ),
                )
            } else {
                (
                    connection_type,
                    HandshakeStep::Aborted,
                    abort_reaction(ErrorKind::InvalidInput, expected_text(step)),
                )
            }
        },
    }
}

/// Computes [`challenge_transition`]: the next step and the reaction to the
/// outcome of issuing a challenge.
pub fn react_to_challenge(
    connection_type: ConnectionType,
    nonce: Uuid,
    step: &HandshakeStep,
    outcome: ChallengeOutcome,
) -> (out: (HandshakeStep, Reaction))
    ensures
        (state_view(connection_type, nonce, out.0), out.1@) == challenge_transition(
            state_view(connection_type, nonce, *step),
            outcome@,
        ),
{
    match step {
        HandshakeStep::Complete => (HandshakeStep::Complete, finished_reaction(step)),
        HandshakeStep::Aborted => (HandshakeStep::Aborted, finished_reaction(step)),
        HandshakeStep::AwaitRecord { .. } => match outcome {
            ChallengeOutcome::Issued { challenge, encrypted_challenge } => (
                HandshakeStep::AwaitVerify { challenge },
                Reaction {
                    send: Some(HandshakePacketHostToGuest::Challenge { encrypted_challenge, nonce }),
                    next: Next::Read,
                },
            ),
            ChallengeOutcome::Failed { details } => (
                HandshakeStep::Aborted,
                abort_reaction(ErrorKind::IoFailure, details),
            ),
        },
        _ => (HandshakeStep::Aborted, abort_reaction(ErrorKind::InvalidInput, expected_text(step))),
    }
}

} // verus!
