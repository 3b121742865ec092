//! Implements the issuer logic for humanity tokens as per the Privacy Pass
//! protocol.
//!
//! The Issuer holds a signing keypair fixed at construction; it turns a
//! batch of blinded tokens into signed tokens plus a single batch proof, and
//! verifies redemption requests by independently recomputing each
//! verification signature from its key and the presented preimage.

use vstd::prelude::*;

use challenge_bypass_ristretto::voprf::BlindedToken;
use challenge_bypass_ristretto::voprf::SignedToken;
use challenge_bypass_ristretto::voprf::SigningKey;
use challenge_bypass_ristretto::voprf::TokenPreimage;
use challenge_bypass_ristretto::voprf::VerificationSignature;

use crate::crypto::derive_verification_key;
use crate::crypto::mac_sign;
use crate::crypto::mac_sign_of;
use crate::crypto::new_batch_proof;
use crate::crypto::public_key;
use crate::crypto::public_key_of;
use crate::crypto::rederive_of;
use crate::crypto::rederive_unblinded_token;
use crate::crypto::sign_blinded_token;
use crate::crypto::sign_of;
use crate::crypto::signatures_equal;
use crate::crypto::signing_key_from_bytes;
use crate::crypto::signing_key_of_bytes;
use crate::crypto::token_error_message;
use crate::crypto::verification_key_of;
use crate::errors::ProtocolError;
use crate::models::RedeemRequest;
use crate::models::RedeemResponse;
use crate::models::SigningRequest;
use crate::models::SigningResponse;

verus! {

/// The signed tokens the Issuer produces for a batch of blinded tokens:
/// each blinded token is signed in order, and any token on which signing
/// fails is silently dropped from the output.
pub open spec fn signed_outputs(k: SigningKey, blinded: Seq<BlindedToken>) -> Seq<SignedToken>
    decreases blinded.len(),
{
    if blinded.len() == 0 {
        Seq::<SignedToken>::empty()
    } else {
        let rest = signed_outputs(k, blinded.drop_last());
        match sign_of(k, blinded.last()) {
            Some(s) => rest.push(s),
            None => rest,
        }
    }
}

/// The verification signature the Issuer expects for a presented preimage:
/// the deterministic MAC over the payload, keyed by the verification key of
/// the unblinded token rederived from the signing key and that preimage.
pub open spec fn expected_signature(
    k: SigningKey,
    preimage: TokenPreimage,
    payload: Seq<u8>,
) -> VerificationSignature {
    mac_sign_of(verification_key_of(rederive_of(k, preimage)), payload)
}

/// The Issuer issues new humanity tokens by signing blinded tokens from
/// clients wrapped in a `SigningRequest`.
pub struct Issuer {
    signing_key: SigningKey,
}

impl Issuer {
    /// The signing key fixed at construction.
    pub closed spec fn key(&self) -> SigningKey {
        self.signing_key
    }

    /// Builds an Issuer from the byte encoding of its `SigningKey`, or
    /// reports that the bytes encode no key.
    pub fn try_new(signing_key_bytes: &[u8]) -> (r: Option<Self>)
        ensures
            match r {
                Some(issuer) => signing_key_of_bytes(signing_key_bytes@) == Some(issuer.key()),
                None => signing_key_of_bytes(signing_key_bytes@) is None,
            },
    {
        match signing_key_from_bytes(signing_key_bytes) {
            Some(_) => Some(Self::new(signing_key_bytes)),
            None => None,
        }
    }

    /// Returns a new initialized Issuer. An Issuer keeps an asymmetric
    /// public/secret key pair used to sign tokens and verify signatures; the
    /// `SigningKey` is provided, in its byte encoding, when initializing the
    /// Issuer. The bytes must encode a key; `try_new` accepts arbitrary
    /// bytes.
    pub fn new(signing_key_bytes: &[u8]) -> (r: Self)
        requires
            signing_key_of_bytes(signing_key_bytes@) is Some,
        ensures
            Some(r.key()) == signing_key_of_bytes(signing_key_bytes@),
    {
        match signing_key_from_bytes(signing_key_bytes) {
            Some(signing_key) => Issuer { signing_key },
            None => unreached(),
        }
    }

    /// Parses a `SigningRequest`, signs the incoming tokens and generates a
    /// batch DLEQ proof that claims the validity of the signatures based on
    /// the Issuer's `SigningKey`. Tokens on which signing fails are dropped
    /// from the signed set, and the proof is computed over that filtered set
    /// against the full blinded set; since proof construction rejects sets
    /// of unequal length, any dropped token surfaces as an error, so success
    /// carries one signed token per blinded token.
    pub fn sign_tokens(&self, req: SigningRequest) -> (r: Result<SigningResponse, ProtocolError>)
        ensures
            match r {
                Ok(resp) => {
                    &&& resp.signed_tokens@ == signed_outputs(self.key(), req.blinded_tokens@)
                    &&& resp.signed_tokens@.len() == req.blinded_tokens@.len()
                    &&& resp.public_key == Some(public_key_of(self.key()))
                    &&& resp.batch_proof is Some
                    &&& resp.error@ == Seq::<char>::empty()
                },
                Err(_) => true,
            },
            signed_outputs(self.key(), req.blinded_tokens@).len() != req.blinded_tokens@.len()
                ==> r is Err,
    {
        let issuer_public_key = public_key(&self.signing_key);

        let mut signed_tokens: Vec<SignedToken> = Vec::new();
        let mut k: usize = 0;
        while k < req.blinded_tokens.len()
            invariant
                k <= req.blinded_tokens@.len(),
                signed_tokens@ == signed_outputs(
                    self.key(),
                    req.blinded_tokens@.take(k as int),
                ),
            decreases req.blinded_tokens@.len() - k,
        {
            proof {
                let b = req.blinded_tokens@;
                assert(b.take(k + 1).drop_last() =~= b.take(k as int));
                assert(b.take(k + 1).last() == b[k as int]);
            }
            match sign_blinded_token(&self.signing_key, &req.blinded_tokens[k]) {
                Some(signed) => signed_tokens.push(signed),
                None => {},
            }
            k += 1;
        }
        proof {
            assert(req.blinded_tokens@.take(k as int) =~= req.blinded_tokens@);
        }

        let batch_proof = match new_batch_proof(
            req.blinded_tokens.as_slice(),
            signed_tokens.as_slice(),
            &self.signing_key,
        ) {
            Ok(batch) => batch,
            Err(e) => return Err(ProtocolError::new(token_error_message(&e).as_str())),
        };

        proof {
            reveal_strlit("");
            assert(""@ =~= Seq::<char>::empty());
        }
        Ok(
            SigningResponse {
                signed_tokens,
                public_key: Some(issuer_public_key),
                batch_proof: Some(batch_proof),
                error: "".to_owned(),
            },
        )
    }

    /// Processes a `RedeemRequest` and verifies the validity of the payload;
    /// returns a `RedeemResponse` ready to send on the wire and a vector
    /// with the token preimages that have been redeemed by the request, for
    /// posterior processing and double-spending accounting. Preimages and
    /// signatures are paired positionally; verification stops at the first
    /// signature that does not match the one recomputed from the Issuer's
    /// key, reporting how many tokens were verified before it.
    pub fn process_redeem_tokens(&mut self, req: &RedeemRequest) -> (r: (
        RedeemResponse,
        Vec<TokenPreimage>,
    ))
        ensures
            final(self).key() == old(self).key(),
            ({
                let n_pairs: int = if req.preimages@.len() <= req.verification_signatures@.len() {
                    req.preimages@.len() as int
                } else {
                    req.verification_signatures@.len() as int
                };
                let n = r.0.n_tokens_redeemed as int;
                &&& n <= n_pairs
                &&& r.1@ == req.preimages@.take(n)
                &&& forall|i: int|
                    0 <= i < n ==> req.verification_signatures@[i] == expected_signature(
                        old(self).key(),
                        req.preimages@[i],
                        req.payload@,
                    )
                &&& r.0.ok <==> n == n_pairs
                &&& !r.0.ok ==> req.verification_signatures@[n] != expected_signature(
                    old(self).key(),
                    req.preimages@[n],
                    req.payload@,
                )
            }),
    {
        let mut redeemed_preimages: Vec<TokenPreimage> = Vec::new();

        let n_pairs: usize = if req.preimages.len() <= req.verification_signatures.len() {
            req.preimages.len()
        } else {
            req.verification_signatures.len()
        };

        let mut k: usize = 0;
        while k < n_pairs
            invariant
                self.signing_key == old(self).signing_key,
                k <= n_pairs,
                n_pairs <= req.preimages@.len(),
                n_pairs <= req.verification_signatures@.len(),
                redeemed_preimages@ =~= req.preimages@.take(k as int),
                forall|i: int|
                    0 <= i < k ==> req.verification_signatures@[i] == expected_signature(
                        old(self).key(),
                        req.preimages@[i],
                        req.payload@,
                    ),
            decreases n_pairs - k,
        {
            let preimage = &req.preimages[k];
            let client_sig = &req.verification_signatures[k];

            let unblinded_token = rederive_unblinded_token(&self.signing_key, preimage);
            let verification_key = derive_verification_key(&unblinded_token);
            let sig = mac_sign(&verification_key, req.payload.as_slice());

            if !signatures_equal(client_sig, &sig) {
                let response = RedeemResponse { ok: false, n_tokens_redeemed: k };

                return (response, redeemed_preimages);
            }
            redeemed_preimages.push(*preimage);
            k += 1;
        }

        let response = RedeemResponse { ok: true, n_tokens_redeemed: k };

        (response, redeemed_preimages)
    }
}

} // verus!
