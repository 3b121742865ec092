//! Wallet implementation for privacy-pass based humanity tokens.
//!
//! The Wallet generates batches of raw and blinded tokens, verifies the
//! Issuer's batch proof and unblinds the signed tokens into spendable
//! credentials, buffers those credentials, and prepares redemption material
//! for a chosen subset against an arbitrary payload.

use vstd::prelude::*;
use vstd::utf8::encode_utf8;

use challenge_bypass_ristretto::voprf::BatchDLEQProof;
use challenge_bypass_ristretto::voprf::BlindedToken;
use challenge_bypass_ristretto::voprf::PublicKey;
use challenge_bypass_ristretto::voprf::SignedToken;
use challenge_bypass_ristretto::voprf::Token;
use challenge_bypass_ristretto::voprf::TokenPreimage;
use challenge_bypass_ristretto::voprf::UnblindedToken;
use challenge_bypass_ristretto::voprf::VerificationSignature;

use crate::crypto::blind_of;
use crate::crypto::blind_token;
use crate::crypto::derive_verification_key;
use crate::crypto::mac_sign;
use crate::crypto::mac_sign_of;
use crate::crypto::preimage_of;
use crate::crypto::random_token;
use crate::crypto::token_error_message;
use crate::crypto::token_preimage;
use crate::crypto::unblind_of;
use crate::crypto::verification_key_of;
use crate::crypto::verify_and_unblind;
use crate::crypto::verify_unblind_of;
use crate::errors::ProtocolError;

verus! {

/// The preimages that redemption extracts from a sequence of credentials:
/// one per credential, in order.
pub open spec fn redemption_preimages(tokens: Seq<UnblindedToken>) -> Seq<TokenPreimage> {
    Seq::new(tokens.len(), |i: int| preimage_of(tokens[i]))
}

/// The payload-bound verification signatures that redemption derives from a
/// sequence of credentials: one per credential, in order, each a
/// deterministic MAC keyed by that credential's verification key.
pub open spec fn redemption_signatures(
    tokens: Seq<UnblindedToken>,
    payload: Seq<u8>,
) -> Seq<VerificationSignature> {
    Seq::new(tokens.len(), |i: int| mac_sign_of(verification_key_of(tokens[i]), payload))
}

/// The client-side protocol actor: an ordered buffer of spendable
/// credentials, grown on issuance and shrunk on redemption selection.
pub struct Wallet {
    tokens: Vec<UnblindedToken>,
}

impl View for Wallet {
    type V = Seq<UnblindedToken>;

    closed spec fn view(&self) -> Seq<UnblindedToken> {
        self.tokens@
    }
}

impl Wallet {
    /// A wallet with an empty credential buffer.
    pub fn new() -> (r: Self)
        ensures
            r@ == Seq::<UnblindedToken>::empty(),
    {
        let tokens = Vec::new();

        Wallet { tokens }
    }

    /// Produces `n` independent (raw token, blinded token) pairs, each raw
    /// token drawn from a cryptographically secure random source and each
    /// blinded token standing at the position of the raw token it blinds.
    pub fn generate_blinded_tokens(n: usize) -> (r: (Vec<Token>, Vec<BlindedToken>))
        ensures
            r.0@.len() == n,
            r.1@.len() == n,
            forall|i: int| 0 <= i < n ==> r.1@[i] == blind_of(r.0@[i]),
    {
        let mut raw_tokens: Vec<Token> = Vec::new();
        let mut blinded_tokens: Vec<BlindedToken> = Vec::new();

        let mut k: usize = 0;
        while k < n
            invariant
                k <= n,
                raw_tokens@.len() == k,
                blinded_tokens@.len() == k,
                forall|i: int| 0 <= i < k ==> blinded_tokens@[i] == blind_of(raw_tokens@[i]),
            decreases n - k,
        {
            let token = random_token();
            let blinded_token = blind_token(&token);

            raw_tokens.push(token);
            blinded_tokens.push(blinded_token);
            k += 1;
        }

        (raw_tokens, blinded_tokens)
    }

    /// Verifies the batch proof over the supplied raw/blinded/signed triples
    /// and the issuer's public key, then unblinds every signed token and
    /// appends the resulting credentials to the buffer. Succeeds exactly
    /// when a proof is supplied, verification accepts it, and the unblinded
    /// count equals the requested count; on any failure the buffer is left
    /// unchanged and an error is returned.
    pub fn process_signed_tokens(
        &mut self,
        signed_tokens: &[SignedToken],
        batch_proof: Option<BatchDLEQProof>,
        issuer_pubkey: PublicKey,
        raw_tokens: &[Token],
        blinded_tokens: &[BlindedToken],
    ) -> (r: Result<(), ProtocolError>)
        ensures
            r is Ok <==> (batch_proof matches Some(p) && verify_unblind_of(
                p,
                raw_tokens@,
                blinded_tokens@,
                signed_tokens@,
                issuer_pubkey,
            ) matches Some(v) && v.len() == raw_tokens@.len()),
            batch_proof is None ==> (r matches Err(e)
                && e@ == "Unexpected error: batch proof not provided"@),
            match r {
                Ok(_) => {
                    &&& batch_proof is Some
                    &&& signed_tokens@.len() == raw_tokens@.len()
                    &&& final(self)@.len() == old(self)@.len() + raw_tokens@.len()
                    &&& final(self)@.subrange(0, old(self)@.len() as int) == old(self)@
                    &&& forall|i: int|
                        0 <= i < raw_tokens@.len() ==> unblind_of(raw_tokens@[i], signed_tokens@[i])
                            == Some(final(self)@[old(self)@.len() + i])
                },
                Err(_) => final(self)@ == old(self)@,
            },
    {
        let batch_proof = match batch_proof {
            Some(batch) => batch,
            None => {
                return Err(ProtocolError::new("Unexpected error: batch proof not provided"));
            },
        };

        let mut unblinded_tokens = match verify_and_unblind(
            &batch_proof,
            raw_tokens,
            blinded_tokens,
            signed_tokens,
            &issuer_pubkey,
        ) {
            Ok(tokens_out) => tokens_out,
            Err(err) => return Err(ProtocolError::new(token_error_message(&err).as_str())),
        };

        if unblinded_tokens.len() != raw_tokens.len() {
            return Err(
                ProtocolError::new(
                    "Number signed tokens does not match the number of requested tokens",
                ),
            );
        }

        self.tokens.append(&mut unblinded_tokens);

        proof {
            assert(self.tokens@.subrange(0, old(self)@.len() as int) =~= old(self)@);
        }
        Ok(())
    }

    /// Removes and returns `n` credentials currently held in the buffer;
    /// which `n` and in what order is not promised. When fewer than `n` are
    /// buffered the buffer is left unchanged and an error is returned;
    /// `n == 0` succeeds with an empty sequence and no other effect.
    pub fn get_tokens(&mut self, n: usize) -> (r: Result<Vec<UnblindedToken>, ProtocolError>)
        ensures
            match r {
                Ok(v) => {
                    &&& n <= old(self)@.len()
                    &&& v@.len() == n
                    &&& final(self)@.len() + n == old(self)@.len()
                    &&& v@.to_multiset().add(final(self)@.to_multiset()) == old(
                        self,
                    )@.to_multiset()
                    &&& n == 0 ==> final(self)@ == old(self)@
                },
                Err(e) => {
                    &&& n > old(self)@.len()
                    &&& final(self)@ == old(self)@
                    &&& e@ == "Not enough buffered tokens"@
                },
            },
    {
        if n > self.tokens.len() {
            return Err(ProtocolError::new("Not enough buffered tokens"));
        }

        let mut tokens: Vec<UnblindedToken> = Vec::new();
        let mut k: usize = 0;
        while k < n
            invariant
                k <= n,
                n <= old(self)@.len(),
                tokens@.len() == k,
                self.tokens@ =~= old(self)@.subrange(0, old(self)@.len() - k),
                forall|i: int| 0 <= i < k ==> tokens@[i] == old(self)@[old(self)@.len() - 1 - i],
            decreases n - k,
        {
            let popped = self.tokens.pop().unwrap();
            tokens.push(popped);
            k += 1;
        }

        proof {
            broadcast use vstd::seq_lib::group_to_multiset_ensures;

            let oldlen = old(self)@.len() as int;
            let suffix = old(self)@.subrange(oldlen - n, oldlen);
            assert(tokens@ =~= suffix.reverse());
            suffix.lemma_reverse_to_multiset();
            assert(old(self)@ =~= self.tokens@ + suffix);
            vstd::seq_lib::lemma_multiset_commutative(self.tokens@, suffix);
            assert(tokens@.to_multiset().add(self.tokens@.to_multiset())
                =~= old(self)@.to_multiset());
        }
        Ok(tokens)
    }

    /// For each credential, extracts its preimage and derives a
    /// payload-bound verification signature; both outputs are functions of
    /// the credentials and the payload alone, with no hidden randomness.
    pub fn prepare_redemption(tokens: &[UnblindedToken], payload: String) -> (r: (
        Vec<TokenPreimage>,
        Vec<VerificationSignature>,
    ))
        ensures
            r.0@ == redemption_preimages(tokens@),
            r.1@ == redemption_signatures(tokens@, encode_utf8(payload@)),
    {
        let mut preimages: Vec<TokenPreimage> = Vec::new();
        let mut verification_signatures: Vec<VerificationSignature> = Vec::new();
        let payload_bytes: &[u8] = payload.as_str().as_bytes();

        let mut k: usize = 0;
        while k < tokens.len()
            invariant
                k <= tokens@.len(),
                payload_bytes@ == encode_utf8(payload@),
                preimages@.len() == k,
                verification_signatures@.len() == k,
                forall|i: int| 0 <= i < k ==> preimages@[i] == preimage_of(tokens@[i]),
                forall|i: int|
                    0 <= i < k ==> verification_signatures@[i] == mac_sign_of(
                        verification_key_of(tokens@[i]),
                        payload_bytes@,
                    ),
            decreases tokens@.len() - k,
        {
            let token = &tokens[k];
            let preimage = token_preimage(token);
            let verification_key = derive_verification_key(token);
            let verification_signature = mac_sign(&verification_key, payload_bytes);

            preimages.push(preimage);
            verification_signatures.push(verification_signature);
            k += 1;
        }

        proof {
            assert(preimages@ =~= redemption_preimages(tokens@));
            assert(verification_signatures@ =~= redemption_signatures(
                tokens@,
                encode_utf8(payload@),
            ));
        }
        (preimages, verification_signatures)
    }
}

impl Default for Wallet {
    /// Same as `Wallet::new`: a wallet with an empty credential buffer.
    fn default() -> (r: Self)
        ensures
            r@ == Seq::<UnblindedToken>::empty(),
    {
        Self::new()
    }
}

/// Preparing redemption is deterministic: two calls on the same credentials
/// and the same payload return the same preimages and the same verification
/// signatures, because `prepare_redemption` pins both outputs to functions
/// of its inputs alone.
pub proof fn lemma_prepare_redemption_deterministic(
    tokens: Seq<UnblindedToken>,
    payload: Seq<u8>,
    first: (Seq<TokenPreimage>, Seq<VerificationSignature>),
    second: (Seq<TokenPreimage>, Seq<VerificationSignature>),
)
    requires
        first.0 == redemption_preimages(tokens),
        first.1 == redemption_signatures(tokens, payload),
        second.0 == redemption_preimages(tokens),
        second.1 == redemption_signatures(tokens, payload),
    ensures
        first == second,
{
}

/// The detection invariant a double-spend ledger relies on: the preimages
/// `prepare_redemption` presents for a set of credentials do not depend on
/// the payload, so two redemptions of the same credential, even against
/// different payloads, present the same preimage.
pub proof fn lemma_preimages_independent_of_payload(
    tokens: Seq<UnblindedToken>,
    payload_first: Seq<u8>,
    payload_second: Seq<u8>,
    first: (Seq<TokenPreimage>, Seq<VerificationSignature>),
    second: (Seq<TokenPreimage>, Seq<VerificationSignature>),
)
    requires
        first.0 == redemption_preimages(tokens),
        first.1 == redemption_signatures(tokens, payload_first),
        second.0 == redemption_preimages(tokens),
        second.1 == redemption_signatures(tokens, payload_second),
    ensures
        first.0 == second.0,
{
}

} // verus!
