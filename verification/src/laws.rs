//! What holds of the library as a whole, stated over the `spec` functions
//! that the contracts of its functions use.

use vstd::prelude::*;
use vstd::bytes::lemma_auto_spec_u32_to_from_le_bytes;
use vstd::utf8::encode_utf8;
use crate::codec::Packet;
use crate::codec::host_fits;
use crate::crypto::{ChallengeOutcomeView, outcome_admissible};
use crate::data::{Data, Handler};
use crate::handshake::{
    ErrorKind,
    HandshakeEventView,
    HandshakeView,
    NextView,
    ReactionView,
    abort,
    challenge_transition,
    is_terminal,
    lookup_failed_message,
    missing_record_message,
    record_name,
    transition,
};
use crate::packet::{ConnectionType, GuestHandshakeView, HostHandshakeView};
use crate::protocol::frame_fits;
use crate::wire::{MAX_BLOCK_LEN, block, lemma_parse_block, parse_block};

verus! {

/// A peer that follows the protocol is authenticated. From a fresh
/// handshake, `Hello`, `Identify`, a published record, an issued challenge
/// and a `Verify` that returns the nonce and the plain challenge lead, step
/// by step, to the acknowledgement, the lookup of `_osp.<hostname>`, the
/// challenge under this attempt's nonce, and a last `Close` that lets the
/// peer go on. The handshake is then complete, with the connection type
/// that the peer declared.
pub proof fn lemma_honest_peer_completes(
    start: HandshakeView,
    connection_type: ConnectionType,
    hostname: Seq<char>,
    records: Seq<Seq<char>>,
    challenge: Seq<u8>,
    encrypted_challenge: Seq<u8>,
)
    requires
        start.step is AwaitHello,
        records.len() > 0,
    ensures
        ({
            let (s1, r1) = transition(
                start,
                HandshakeEventView::Packet(GuestHandshakeView::Hello { connection_type }),
            );
            let (s2, r2) = transition(
                s1,
                HandshakeEventView::Packet(GuestHandshakeView::Identify { hostname }),
            );
            let (s3, r3) = transition(s2, HandshakeEventView::Records(records));
            let (s4, r4) = challenge_transition(
                s3,
                ChallengeOutcomeView::Issued { challenge, encrypted_challenge },
            );
            let (s5, r5) = transition(
                s4,
                HandshakeEventView::Packet(
                    GuestHandshakeView::Verify { challenge, nonce: start.nonce },
                ),
            );
            &&& r1 == ReactionView {
                send: Some(HostHandshakeView::Acknowledge { ok: true, err: None }),
                next: NextView::Read,
            }
            &&& r2 == ReactionView {
                send: None,
                next: NextView::Lookup { name: record_name(hostname) },
            }
            &&& r3 == ReactionView {
                send: None,
                next: NextView::IssueChallenge { pem: encode_utf8(records[0]) },
            }
            &&& r4 == ReactionView {
                send: Some(
                    HostHandshakeView::Challenge { encrypted_challenge, nonce: start.nonce },
                ),
                next: NextView::Read,
            }
            &&& r5 == ReactionView {
                send: Some(HostHandshakeView::Close { can_continue: true, err: None }),
                next: NextView::Done,
            }
            &&& s5.step is Complete
            &&& s5.connection_type == connection_type
            &&& s5.nonce == start.nonce
        }),
{
}

/// A `Verify` with another nonce than the one issued is rejected as invalid
/// data, whatever bytes it returns, and the handshake is aborted.
pub proof fn lemma_wrong_nonce_is_rejected(s: HandshakeView, answer: Seq<u8>, nonce: u128)
    requires
        s.step is AwaitVerify,
        nonce != s.nonce,
    ensures
        transition(
            s,
            HandshakeEventView::Packet(GuestHandshakeView::Verify { challenge: answer, nonce }),
        ) == abort(s, ErrorKind::InvalidData, "Invalid nonce"@),
        transition(
            s,
            HandshakeEventView::Packet(GuestHandshakeView::Verify { challenge: answer, nonce }),
        ).0.step is Aborted,
{
}

/// A `Verify` with the issued nonce and any bytes but the plain challenge is
/// rejected as permission denied, and the handshake is aborted.
pub proof fn lemma_wrong_answer_is_rejected(s: HandshakeView, answer: Seq<u8>)
    requires
        s.step is AwaitVerify,
        answer != s.step->AwaitVerify_challenge,
    ensures
        transition(
            s,
            HandshakeEventView::Packet(
                GuestHandshakeView::Verify { challenge: answer, nonce: s.nonce },
            ),
        ) == abort(s, ErrorKind::PermissionDenied, "Challenge failed"@),
        transition(
            s,
            HandshakeEventView::Packet(
                GuestHandshakeView::Verify { challenge: answer, nonce: s.nonce },
            ),
        ).0.step is Aborted,
{
}

/// A handshake completes in one way only: by a `Verify` that returns the
/// issued nonce and the plain challenge while that answer is awaited. No
/// other event, and no outcome of issuing a challenge, completes it.
pub proof fn lemma_complete_only_by_proof(
    s: HandshakeView,
    event: HandshakeEventView,
    outcome: ChallengeOutcomeView,
)
    requires
        !(s.step is Complete),
    ensures
        transition(s, event).0.step is Complete ==> s.step is AwaitVerify && event
            == HandshakeEventView::Packet(
            GuestHandshakeView::Verify {
                challenge: s.step->AwaitVerify_challenge,
                nonce: s.nonce,
            },
        ),
        !(challenge_transition(s, outcome).0.step is Complete),
{
}

/// A handshake that has ended stays as it is: nothing is sent any more, and
/// an aborted handshake never completes.
pub proof fn lemma_ended_stays_ended(
    s: HandshakeView,
    event: HandshakeEventView,
    outcome: ChallengeOutcomeView,
)
    requires
        is_terminal(s.step),
    ensures
        transition(s, event).0 == s,
        transition(s, event).1.send is None,
        transition(s, event).1.next is Failed,
        challenge_transition(s, outcome).0 == s,
        challenge_transition(s, outcome).1.send is None,
        challenge_transition(s, outcome).1.next is Failed,
{
}

/// No step changes the nonce of a handshake attempt.
pub proof fn lemma_nonce_is_kept(
    s: HandshakeView,
    event: HandshakeEventView,
    outcome: ChallengeOutcomeView,
)
    ensures
        transition(s, event).0.nonce == s.nonce,
        challenge_transition(s, outcome).0.nonce == s.nonce,
{
}

/// One input of a handshake: an event from the driver, or the outcome of
/// issuing a challenge.
pub enum InputView {
    Event(HandshakeEventView),
    Challenge(ChallengeOutcomeView),
}

/// The state after one input.
pub open spec fn after(s: HandshakeView, input: InputView) -> HandshakeView {
    match input {
        InputView::Event(event) => transition(s, event).0,
        InputView::Challenge(outcome) => challenge_transition(s, outcome).0,
    }
}

/// The state after a run of inputs, taken in order.
pub open spec fn run(s: HandshakeView, inputs: Seq<InputView>) -> HandshakeView
    decreases inputs.len(),
{
    if inputs.len() == 0 {
        s
    } else {
        after(run(s, inputs.drop_last()), inputs.last())
    }
}

/// Whether `inputs` holds, at place `i`, a challenge being issued with the
/// plain bytes `challenge`.
pub open spec fn issued_at(inputs: Seq<InputView>, i: int, challenge: Seq<u8>) -> bool {
    &&& 0 <= i < inputs.len()
    &&& inputs[i] matches InputView::Challenge(ChallengeOutcomeView::Issued { challenge: c, .. })
    &&& c == challenge
}

/// Whether `inputs` holds, at place `j`, the peer returning `challenge`
/// under `nonce`.
pub open spec fn answered_at(
    inputs: Seq<InputView>,
    j: int,
    challenge: Seq<u8>,
    nonce: u128,
) -> bool {
    &&& 0 <= j < inputs.len()
    &&& inputs[j] == InputView::Event(
        HandshakeEventView::Packet(GuestHandshakeView::Verify { challenge, nonce }),
    )
}

/// Whether `inputs` holds a challenge being issued and, later, the peer
/// returning its plain bytes under `nonce`.
pub open spec fn proves_possession(inputs: Seq<InputView>, nonce: u128) -> bool {
    exists|i: int, j: int, challenge: Seq<u8>|
        i < j && #[trigger] issued_at(inputs, i, challenge) && #[trigger] answered_at(
            inputs,
            j,
            challenge,
            nonce,
        )
}

/// What holds after every run that starts before a challenge was issued: the
/// nonce is the one of the start, an awaited answer belongs to a challenge
/// that the run issued, and a complete handshake has seen its proof.
pub open spec fn run_invariant(start: HandshakeView, inputs: Seq<InputView>) -> bool {
    let s = run(start, inputs);
    &&& s.nonce == start.nonce
    &&& s.step is AwaitVerify ==> exists|i: int| #[trigger]
        issued_at(inputs, i, s.step->AwaitVerify_challenge)
    &&& s.step is Complete ==> proves_possession(inputs, start.nonce)
}

/// The run invariant holds.
proof fn lemma_run_invariant(start: HandshakeView, inputs: Seq<InputView>)
    requires
        !(start.step is AwaitVerify),
        !(start.step is Complete),
    ensures
        run_invariant(start, inputs),
    decreases inputs.len(),
{
    if inputs.len() > 0 {
        let before = inputs.drop_last();
        let last = inputs.len() - 1;
        lemma_run_invariant(start, before);
        let prev = run(start, before);
        let s = run(start, inputs);
        if s.step is AwaitVerify {
            let challenge = s.step->AwaitVerify_challenge;
            // A challenge is awaited only right after it was issued.
            assert(issued_at(inputs, last, challenge));
        }
        if s.step is Complete {
            if prev.step is Complete {
                let (i, j, challenge) = choose|i: int, j: int, challenge: Seq<u8>|
                    i < j && #[trigger] issued_at(before, i, challenge) && #[trigger] answered_at(
                        before,
                        j,
                        challenge,
                        start.nonce,
                    );
                assert(issued_at(inputs, i, challenge));
                assert(answered_at(inputs, j, challenge, start.nonce));
            } else {
                let challenge = prev.step->AwaitVerify_challenge;
                let i = choose|i: int| #[trigger] issued_at(before, i, challenge);
                assert(issued_at(inputs, i, challenge));
                assert(answered_at(inputs, last, challenge, start.nonce));
            }
        }
    }
}

/// No handshake completes without proof. Whatever the driver reports and in
/// whatever order, a handshake that starts by awaiting `Hello` is complete
/// only after a challenge was issued and the peer, later, returned the plain
/// bytes of that challenge under the nonce of the attempt.
pub proof fn lemma_complete_run_proves_possession(start: HandshakeView, inputs: Seq<InputView>)
    requires
        start.step is AwaitHello,
        run(start, inputs).step is Complete,
    ensures
        proves_possession(inputs, start.nonce),
{
    lemma_run_invariant(start, inputs);
}

/// An ended handshake stays ended through every run: once aborted, a
/// handshake never completes.
pub proof fn lemma_ended_run_stays(s: HandshakeView, inputs: Seq<InputView>)
    requires
        is_terminal(s.step),
    ensures
        run(s, inputs) == s,
    decreases inputs.len(),
{
    if inputs.len() > 0 {
        lemma_ended_run_stays(s, inputs.drop_last());
    }
}

/// Whether a reaction tells the peer that it may not go on, with the same
/// explanation that the caller gets as an error.
pub open spec fn explains_abort(reaction: ReactionView) -> bool {
    &&& reaction.next is Failed
    &&& reaction.send == Some(
        HostHandshakeView::Close {
            can_continue: false,
            err: Some(reaction.next->Failed_0.message),
        },
    )
}

/// The peer is never left without an explanation: whenever a step aborts a
/// handshake for another reason than a failed transport, it sends a `Close`
/// that forbids the peer to go on and carries the text of the error. A step
/// that does not abort gives the caller no error.
pub proof fn lemma_abort_is_explained(
    s: HandshakeView,
    event: HandshakeEventView,
    outcome: ChallengeOutcomeView,
)
    requires
        !is_terminal(s.step),
    ensures
        transition(s, event).0.step is Aborted && !(event is TransportFailed) ==> explains_abort(
            transition(s, event).1,
        ),
        transition(s, event).1.next is Failed <==> transition(s, event).0.step is Aborted,
        challenge_transition(s, outcome).0.step is Aborted ==> explains_abort(
            challenge_transition(s, outcome).1,
        ),
        challenge_transition(s, outcome).1.next is Failed <==> challenge_transition(
            s,
            outcome,
        ).0.step is Aborted,
{
}

/// Without a record there is no challenge. While the record of `hostname`
/// is awaited, an empty answer aborts as invalid data and a failed lookup
/// aborts as an I/O failure; neither asks for a challenge nor sends one, and
/// both explanations name `_osp.<hostname>`.
pub proof fn lemma_missing_record_aborts(s: HandshakeView, details: Seq<char>)
    requires
        s.step is AwaitRecord,
    ensures
        ({
            let hostname = s.step->AwaitRecord_hostname;
            let empty = HandshakeEventView::Records(Seq::<Seq<char>>::empty());
            let failed = HandshakeEventView::LookupFailed(details);
            &&& transition(s, empty) == abort(
                s,
                ErrorKind::InvalidData,
                missing_record_message(hostname),
            )
            &&& transition(s, failed) == abort(
                s,
                ErrorKind::IoFailure,
                lookup_failed_message(hostname, details),
            )
            &&& !(transition(s, empty).1.next is IssueChallenge)
            &&& !(transition(s, failed).1.next is IssueChallenge)
            &&& !(transition(s, empty).1.send matches Some(HostHandshakeView::Challenge { .. }))
            &&& !(transition(s, failed).1.send matches Some(HostHandshakeView::Challenge { .. }))
            &&& missing_record_message(hostname) == "Failed to resolve SRV record for "@ + hostname
                + ". Is it located at "@ + record_name(hostname) + "?"@
            &&& lookup_failed_message(hostname, details) == "Failed to resolve SRV record for "@
                + hostname + ". Is it located at "@ + record_name(hostname)
                + "?\n\nFurther Details: "@ + details
        }),
{
    reveal_strlit(". Is it located at _osp.");
    reveal_strlit(". Is it located at ");
    reveal_strlit("_osp.");
    reveal_strlit("?");
    reveal_strlit("\n\nFurther Details: ");
    reveal_strlit("?\n\nFurther Details: ");
}

/// The challenge of every admissible outcome can be laid out: while the
/// record is awaited, an issued challenge is answered with a message whose
/// fields fit.
pub proof fn lemma_issued_challenge_fits(s: HandshakeView, outcome: ChallengeOutcomeView)
    requires
        s.step is AwaitRecord,
        outcome is Issued,
        outcome_admissible(outcome),
    ensures
        challenge_transition(s, outcome).1.send matches Some(message) && host_fits(message),
{
}

/// What goes out as a frame comes back as the same message: the frame of a
/// message that fits is read back whole, whatever follows it in the buffer,
/// its content decodes to the message, and as many bytes leave the buffer as
/// the frame has.
pub proof fn lemma_frame_round_trip<T: Packet>(value: T::V, rest: Seq<u8>)
    requires
        frame_fits::<T>(value),
    ensures
        parse_block(block(T::wire(value)) + rest) == Some((T::wire(value), rest)),
        T::parse(T::wire(value)) == Some(value),
        (block(T::wire(value)) + rest).len() - rest.len() == block(T::wire(value)).len(),
{
    lemma_parse_block(T::wire(value), rest);
    T::lemma_round_trip(value);
}

/// A message has one frame only: two frames that decode to the same message
/// are the same bytes, so nothing in a frame can be changed without changing
/// the message that it holds.
pub proof fn lemma_frames_are_unique<T: Packet>(first: Seq<u8>, second: Seq<u8>)
    requires
        T::parse(first) is Some,
        T::parse(first) == T::parse(second),
    ensures
        first == second,
{
    T::lemma_canonical(first);
    T::lemma_canonical(second);
}

/// A frame that has not arrived in full is not read: every proper prefix of
/// a frame leaves the reader waiting.
pub proof fn lemma_partial_frame_waits(content: Seq<u8>, k: int)
    requires
        content.len() <= MAX_BLOCK_LEN,
        0 <= k < block(content).len(),
    ensures
        parse_block(block(content).subrange(0, k)) is None,
{
    lemma_auto_spec_u32_to_from_le_bytes();
    let frame = block(content);
    let part = frame.subrange(0, k);
    if k >= 4 {
        assert(part.subrange(0, 4) =~= frame.subrange(0, 4));
        lemma_parse_block(content, Seq::<u8>::empty());
    }
}

/// Registration keeps order: after three handlers are registered one after
/// the other, they stand behind the handlers that were there before, in the
/// order of their registration, and those keep their places.
pub proof fn lemma_registration_keeps_order<TData: Data + ?Sized>(
    before: Seq<Handler<TData>>,
    h1: Handler<TData>,
    h2: Handler<TData>,
    h3: Handler<TData>,
)
    ensures
        ({
            let after = before.push(h1).push(h2).push(h3);
            let n = before.len() as int;
            &&& after.len() == n + 3
            &&& after[n] == h1
            &&& after[n + 1] == h2
            &&& after[n + 2] == h3
            &&& forall|i: int| 0 <= i < before.len() ==> after[i] == before[i]
        }),
{
}

} // verus!
