//! The capability interface to the cryptographic primitives crate.
//!
//! Every item here is trusted: the contracts state only what the crate's
//! source plainly shows. The token material itself (curve points, scalars,
//! proof transcripts) is opaque to the rest of the library, which coordinates
//! it through these declarations.

use vstd::prelude::*;

use challenge_bypass_ristretto::errors::TokenError;
use challenge_bypass_ristretto::voprf::BatchDLEQProof;
use challenge_bypass_ristretto::voprf::BlindedToken;
use challenge_bypass_ristretto::voprf::PublicKey;
use challenge_bypass_ristretto::voprf::SignedToken;
use challenge_bypass_ristretto::voprf::SigningKey;
use challenge_bypass_ristretto::voprf::Token;
use challenge_bypass_ristretto::voprf::TokenPreimage;
use challenge_bypass_ristretto::voprf::UnblindedToken;
use challenge_bypass_ristretto::voprf::VerificationKey;
use challenge_bypass_ristretto::voprf::VerificationSignature;
use hmac::Hmac;
use rand::rngs::OsRng;
use sha2::Sha512;

verus! {

#[verifier::external_type_specification]
#[verifier::external_body]
pub struct ExToken(Token);

#[verifier::external_type_specification]
#[verifier::external_body]
pub struct ExBlindedToken(BlindedToken);

#[verifier::external_type_specification]
#[verifier::external_body]
pub struct ExSignedToken(SignedToken);

#[verifier::external_type_specification]
#[verifier::external_body]
pub struct ExUnblindedToken(UnblindedToken);

#[verifier::external_type_specification]
#[verifier::external_body]
pub struct ExTokenPreimage(TokenPreimage);

#[verifier::external_type_specification]
#[verifier::external_body]
pub struct ExVerificationKey(VerificationKey);

#[verifier::external_type_specification]
#[verifier::external_body]
pub struct ExVerificationSignature(VerificationSignature);

#[verifier::external_type_specification]
#[verifier::external_body]
pub struct ExPublicKey(PublicKey);

#[verifier::external_type_specification]
#[verifier::external_body]
pub struct ExSigningKey(SigningKey);

#[verifier::external_type_specification]
#[verifier::external_body]
pub struct ExBatchDLEQProof(BatchDLEQProof);

#[verifier::external_type_specification]
#[verifier::external_body]
pub struct ExTokenError(TokenError);

// The blinded point that `Token::blind` derives from a raw token.
pub uninterp spec fn blind_of(t: Token) -> BlindedToken;

// The outcome of `SigningKey::sign` on a blinded token.
pub uninterp spec fn sign_of(k: SigningKey, b: BlindedToken) -> Option<SignedToken>;

// The outcome of `Token::unblind` on a raw token and a signed token.
pub uninterp spec fn unblind_of(t: Token, s: SignedToken) -> Option<UnblindedToken>;

// The outcome of `BatchDLEQProof::verify_and_unblind::<Sha512, _>`: a
// function of its arguments alone, since the verifier reseeds its scalar
// stream from a digest of its inputs.
pub uninterp spec fn verify_unblind_of(
    proof: BatchDLEQProof,
    tokens: Seq<Token>,
    blinded: Seq<BlindedToken>,
    signed: Seq<SignedToken>,
    issuer_public_key: PublicKey,
) -> Option<Seq<UnblindedToken>>;

// The preimage component carried by an unblinded token.
pub uninterp spec fn preimage_of(t: UnblindedToken) -> TokenPreimage;

// The verification key that `derive_verification_key::<Sha512>` digests out
// of an unblinded token.
pub uninterp spec fn verification_key_of(t: UnblindedToken) -> VerificationKey;

// The MAC that `VerificationKey::sign::<Hmac<Sha512>>` computes over a message.
pub uninterp spec fn mac_sign_of(k: VerificationKey, message: Seq<u8>) -> VerificationSignature;

// The unblinded token that `rederive_unblinded_token` rebuilds from a signing
// key and a presented preimage.
pub uninterp spec fn rederive_of(k: SigningKey, t: TokenPreimage) -> UnblindedToken;

// The public key a signing key commits to.
pub uninterp spec fn public_key_of(k: SigningKey) -> PublicKey;

// The outcome of `SigningKey::from_bytes` on a byte string.
pub uninterp spec fn signing_key_of_bytes(bytes: Seq<u8>) -> Option<SigningKey>;

/// Relies on `Token::random::<Sha512, OsRng>`: a fresh token drawn from the
/// operating system's random source; nothing can be promised of its value.
#[verifier::external_body]
pub(crate) fn random_token() -> Token {
    let mut rng = OsRng;
    Token::random::<Sha512, OsRng>(&mut rng)
}

/// Relies on `Token::blind`: the blinded point is a function of the token alone.
#[verifier::external_body]
pub(crate) fn blind_token(t: &Token) -> (r: BlindedToken)
    ensures
        r == blind_of(*t),
{
    t.blind()
}

/// Relies on `SigningKey::from_bytes`: parses a canonical 32-byte scalar and
/// derives its public key; fails on every other input, in particular whenever
/// the slice is not exactly 32 bytes long.
#[verifier::external_body]
pub(crate) fn signing_key_from_bytes(bytes: &[u8]) -> (r: Option<SigningKey>)
    ensures
        r == signing_key_of_bytes(bytes@),
        bytes@.len() != 32 ==> r is None,
{
    SigningKey::from_bytes(bytes).ok()
}

/// Relies on the public `public_key` field of `SigningKey`: the commitment
/// the key was constructed with.
#[verifier::external_body]
pub(crate) fn public_key(k: &SigningKey) -> (r: PublicKey)
    ensures
        r == public_key_of(*k),
{
    k.public_key
}

/// Relies on `SigningKey::sign`: the signed point is a function of the key
/// and the blinded token alone; the source fails exactly when the blinded
/// point does not decompress.
#[verifier::external_body]
pub(crate) fn sign_blinded_token(k: &SigningKey, b: &BlindedToken) -> (r: Option<SignedToken>)
    ensures
        r == sign_of(*k, *b),
{
    k.sign(b).ok()
}

/// Relies on `BatchDLEQProof::new::<Sha512, OsRng>`: the proof transcript is
/// randomized, so nothing is promised of the proof itself. The source
/// rejects slices of unequal length before doing anything else, so success
/// implies the two slices were equally long.
#[verifier::external_body]
pub(crate) fn new_batch_proof(
    blinded_tokens: &[BlindedToken],
    signed_tokens: &[SignedToken],
    signing_key: &SigningKey,
) -> (r: Result<BatchDLEQProof, TokenError>)
    ensures
        r is Ok ==> blinded_tokens@.len() == signed_tokens@.len(),
        blinded_tokens@.len() != signed_tokens@.len() ==> r is Err,
{
    let mut rng = OsRng;
    BatchDLEQProof::new::<Sha512, OsRng>(&mut rng, blinded_tokens, signed_tokens, signing_key)
}

/// Relies on `BatchDLEQProof::verify_and_unblind::<Sha512, _>`: its outcome
/// is a function of its arguments alone (the verifier reseeds its scalar
/// stream from a digest of its inputs). On success the source returns
/// exactly one unblinded token per signed token, each produced by
/// `Token::unblind` on the signed token and its positionally paired raw
/// token (it zips the two sequences and checks the resulting length).
#[verifier::external_body]
pub(crate) fn verify_and_unblind(
    proof: &BatchDLEQProof,
    tokens: &[Token],
    blinded_tokens: &[BlindedToken],
    signed_tokens: &[SignedToken],
    issuer_public_key: &PublicKey,
) -> (r: Result<Vec<UnblindedToken>, TokenError>)
    ensures
        match r {
            Ok(v) => {
                &&& verify_unblind_of(
                    *proof,
                    tokens@,
                    blinded_tokens@,
                    signed_tokens@,
                    *issuer_public_key,
                ) == Some(v@)
                &&& v@.len() == signed_tokens@.len()
                &&& signed_tokens@.len() <= tokens@.len()
                &&& forall|i: int|
                    0 <= i < v@.len() ==> unblind_of(tokens@[i], signed_tokens@[i]) == Some(
                        v@[i],
                    )
            },
            Err(_) => verify_unblind_of(
                *proof,
                tokens@,
                blinded_tokens@,
                signed_tokens@,
                *issuer_public_key,
            ) is None,
        },
{
    proof.verify_and_unblind::<Sha512, _>(tokens, blinded_tokens, signed_tokens, issuer_public_key)
}

/// Relies on the public `t` field of `UnblindedToken`: the preimage it carries.
#[verifier::external_body]
pub(crate) fn token_preimage(t: &UnblindedToken) -> (r: TokenPreimage)
    ensures
        r == preimage_of(*t),
{
    t.t
}

/// Relies on `UnblindedToken::derive_verification_key::<Sha512>`: a digest of
/// the token's preimage and unblinded point, a function of the token alone.
#[verifier::external_body]
pub(crate) fn derive_verification_key(t: &UnblindedToken) -> (r: VerificationKey)
    ensures
        r == verification_key_of(*t),
{
    t.derive_verification_key::<Sha512>()
}

/// Relies on `VerificationKey::sign::<Hmac<Sha512>>`: a deterministic MAC
/// over the message, keyed by the verification key.
#[verifier::external_body]
pub(crate) fn mac_sign(k: &VerificationKey, message: &[u8]) -> (r: VerificationSignature)
    ensures
        r == mac_sign_of(*k, message@),
{
    k.sign::<Hmac<Sha512>>(message)
}

/// Relies on `SigningKey::rederive_unblinded_token`: rebuilds the unblinded
/// token from the key and a presented preimage, a function of the two alone.
#[verifier::external_body]
pub(crate) fn rederive_unblinded_token(k: &SigningKey, t: &TokenPreimage) -> (r: UnblindedToken)
    ensures
        r == rederive_of(*k, *t),
{
    k.rederive_unblinded_token(t)
}

/// Relies on the `PartialEq` impl of `VerificationSignature`: a constant-time
/// comparison of the two 64-byte MAC values, true exactly on equal values.
#[verifier::external_body]
pub(crate) fn signatures_equal(a: &VerificationSignature, b: &VerificationSignature) -> (r: bool)
    ensures
        r == (a == b),
{
    a == b
}

/// Relies on the `Display` impl of `TokenError`: a human-readable description
/// of the failure, used as an error message.
#[verifier::external_body]
pub(crate) fn token_error_message(e: &TokenError) -> String {
    e.to_string()
}

} // verus!
