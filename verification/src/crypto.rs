//! The challenge of the handshake: random bytes, encrypted under the public
//! key that the peer's hostname publishes.

use vstd::prelude::*;
use vstd::string::*;
use openssl::error::ErrorStack;
use openssl::pkey::Public;
use openssl::rsa::Rsa;
use crate::wire::MAX_BLOCK_LEN;

verus! {

/// Number of random bytes in one challenge.
pub const CHALLENGE_LEN: usize = 256;

/// Longest input that the key parser and the cipher take: `i32::MAX` bytes.
pub const MAX_INPUT_LEN: usize = 0x7fff_ffff;

#[verifier::external_type_specification]
#[verifier::external_body]
pub struct ExErrorStack(ErrorStack);

#[verifier::external_type_specification]
#[verifier::external_body]
pub struct ExPublic(Public);

#[verifier::external_type_specification]
#[verifier::external_body]
#[verifier::reject_recursive_types(T)]
pub struct ExRsa<T>(Rsa<T>);

/// The size in bytes of a key's modulus, as `RsaRef::size` reports it.
pub uninterp spec fn rsa_modulus_len(key: Rsa<Public>) -> nat;

/// Calls `Rsa::public_key_from_pem`. It panics on an input longer than
/// `i32::MAX` bytes; nothing is claimed of which inputs it accepts.
#[verifier::external_body]
fn public_key_from_pem(pem: &[u8]) -> (r: Result<Rsa<Public>, ErrorStack>)
    requires
        pem@.len() <= MAX_INPUT_LEN,
{
    Rsa::public_key_from_pem(pem)
}

/// Calls `RsaRef::size`: the size of the modulus in bytes.
#[verifier::external_body]
fn modulus_len(key: &Rsa<Public>) -> (n: u32)
    ensures
        n == rsa_modulus_len(*key),
{
    key.size()
}

/// Calls `openssl::rand::rand_bytes`, which overwrites the buffer in place
/// with random bytes, or fails. It panics on a buffer longer than `i32::MAX`.
#[verifier::external_body]
fn fill_random(buf: &mut Vec<u8>) -> (r: Result<(), ErrorStack>)
    requires
        old(buf)@.len() <= MAX_INPUT_LEN,
    ensures
        final(buf)@.len() == old(buf)@.len(),
{
    openssl::rand::rand_bytes(buf.as_mut_slice())
}

/// Calls `RsaRef::public_encrypt` with PKCS#1 v1.5 padding, which writes the
/// ciphertext into `to` in place, or fails. The padding is random, so nothing
/// is claimed of the bytes. It panics where `from` is longer than `i32::MAX`
/// or `to` is shorter than the modulus.
#[verifier::external_body]
fn public_encrypt_pkcs1(key: &Rsa<Public>, from: &[u8], to: &mut Vec<u8>) -> (r: Result<
    usize,
    ErrorStack,
>)
    requires
        from@.len() <= MAX_INPUT_LEN,
        old(to)@.len() >= rsa_modulus_len(*key),
    ensures
        final(to)@.len() == old(to)@.len(),
{
    key.public_encrypt(from, to.as_mut_slice(), openssl::rsa::Padding::PKCS1)
}

/// Renders an `ErrorStack` through its `Display` impl.
#[verifier::external_body]
fn error_text(err: &ErrorStack) -> (text: String) {
    format!("{}", err)
}

/// How the attempt to issue a challenge ended.
#[derive(Clone, Debug, PartialEq, Eq)]
pub enum ChallengeOutcome {
    /// The plain challenge, and the same bytes encrypted under the peer's key.
    Issued { challenge: Vec<u8>, encrypted_challenge: Vec<u8> },
    /// The key could not be read, or the random source or the cipher failed.
    Failed { details: String },
}

/// View of [`ChallengeOutcome`].
pub enum ChallengeOutcomeView {
    Issued { challenge: Seq<u8>, encrypted_challenge: Seq<u8> },
    Failed { details: Seq<char> },
}

impl View for ChallengeOutcome {
    type V = ChallengeOutcomeView;

    open spec fn view(&self) -> ChallengeOutcomeView {
        match *self {
            ChallengeOutcome::Issued {
                challenge,
                encrypted_challenge,
            } => ChallengeOutcomeView::Issued {
                challenge: challenge@,
                encrypted_challenge: encrypted_challenge@,
            },
            ChallengeOutcome::Failed { details } => ChallengeOutcomeView::Failed {
                details: details@,
            },
        }
    }
}

/// What holds of every outcome of [`issue_challenge`]: an issued challenge has
/// exactly [`CHALLENGE_LEN`] plain bytes, and its ciphertext fits in a block
/// of a message.
pub open spec fn outcome_admissible(outcome: ChallengeOutcomeView) -> bool {
    outcome matches ChallengeOutcomeView::Issued { challenge, encrypted_challenge } ==> {
        &&& challenge.len() == CHALLENGE_LEN
        &&& encrypted_challenge.len() <= MAX_BLOCK_LEN
    }
}

/// The outcome for a record too long to hand to the key parser.
pub open spec fn record_too_long() -> ChallengeOutcomeView {
    ChallengeOutcomeView::Failed { details: "Public key record is too long"@ }
}

/// Reads the PEM-encoded RSA public key in `pem`, draws [`CHALLENGE_LEN`]
/// random bytes and encrypts them under the key with PKCS#1 padding.
///
/// A key too long to hand to the parser fails without any call being made.
pub fn issue_challenge(pem: &[u8]) -> (outcome: ChallengeOutcome)
    ensures
        outcome_admissible(outcome@),
        pem@.len() > MAX_INPUT_LEN ==> outcome@ == record_too_long(),
{
    if pem.len() > MAX_INPUT_LEN {
        return ChallengeOutcome::Failed {
            details: String::from_str("Public key record is too long"),
        };
    }
    let key = match public_key_from_pem(pem) {
        Ok(key) => key,
        Err(err) => {
            return ChallengeOutcome::Failed { details: error_text(&err) };
        },
    };
    let mut challenge: Vec<u8> = vec![0u8; CHALLENGE_LEN];
    match fill_random(&mut challenge) {
        Ok(()) => {},
        Err(err) => {
            return ChallengeOutcome::Failed { details: error_text(&err) };
        },
    }
    let size: usize = modulus_len(&key) as usize;
    let mut encrypted_challenge: Vec<u8> = vec![0u8; size];
    match public_encrypt_pkcs1(&key, challenge.as_slice(), &mut encrypted_challenge) {
        Ok(_) => ChallengeOutcome::Issued { challenge, encrypted_challenge },
        Err(err) => ChallengeOutcome::Failed { details: error_text(&err) },
    }
}

} // verus!
