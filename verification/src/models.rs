//! The four wire-level messages that carry batched token material between
//! Wallet and Issuer.

use vstd::prelude::*;

use challenge_bypass_ristretto::voprf::BatchDLEQProof;
use challenge_bypass_ristretto::voprf::BlindedToken;
use challenge_bypass_ristretto::voprf::PublicKey;
use challenge_bypass_ristretto::voprf::SignedToken;
use challenge_bypass_ristretto::voprf::TokenPreimage;
use challenge_bypass_ristretto::voprf::VerificationSignature;

verus! {

/// A Wallet's request that a batch of blinded tokens be signed.
pub struct SigningRequest {
    pub blinded_tokens: Vec<BlindedToken>,
}

/// The Issuer's answer: the signed tokens, its public key and one batch
/// proof covering the whole batch, or an error message.
pub struct SigningResponse {
    pub signed_tokens: Vec<SignedToken>,
    pub public_key: Option<PublicKey>,
    pub batch_proof: Option<BatchDLEQProof>,
    pub error: String,
}

impl SigningResponse {
    /// A response that carries no token material, only an error message.
    pub fn with_error(error: String) -> (r: Self)
        ensures
            r.signed_tokens@ =~= Seq::<SignedToken>::empty(),
            r.public_key is None,
            r.batch_proof is None,
            r.error@ == error@,
    {
        let signed_tokens = Vec::new();

        SigningResponse { signed_tokens, public_key: None, batch_proof: None, error }
    }
}

/// A Wallet's request to redeem tokens against a payload: positionally
/// paired preimages and verification signatures.
pub struct RedeemRequest {
    pub preimages: Vec<TokenPreimage>,
    pub verification_signatures: Vec<VerificationSignature>,
    pub payload: Vec<u8>,
}

/// The Issuer's answer: whether the whole batch verified, and how many
/// tokens were verified before the first mismatch.
pub struct RedeemResponse {
    pub ok: bool,
    pub n_tokens_redeemed: usize,
}

impl RedeemResponse {
    /// A response that reports outright failure, with no token redeemed.
    pub fn with_error(_error: &'static str) -> (r: Self)
        ensures
            !r.ok,
            r.n_tokens_redeemed == 0,
    {
        RedeemResponse { ok: false, n_tokens_redeemed: 0 }
    }
}

} // verus!
