use humanity_tokens::errors::ProtocolError;
use humanity_tokens::issuer::Issuer;
use humanity_tokens::models::RedeemRequest;
use humanity_tokens::models::RedeemResponse;
use humanity_tokens::models::SigningRequest;
use humanity_tokens::models::SigningResponse;
use humanity_tokens::wallet::Wallet;

use challenge_bypass_ristretto::voprf::BatchDLEQProof;
use challenge_bypass_ristretto::voprf::SignedToken;
use challenge_bypass_ristretto::voprf::SigningKey;
use rand::rngs::OsRng;

#[test]
fn e2e_privacypass() {
    let mut rng = OsRng;

    let mut pp_wallet = Wallet::new();

    let signing_key = SigningKey::random(&mut rng);
    let mut issuer = Issuer::new(&signing_key.to_bytes());

    let (raw_tokens, blinded_tokens) = Wallet::generate_blinded_tokens(10);
    let signing_request = SigningRequest { blinded_tokens: blinded_tokens.clone() };

    let signing_response = issuer.sign_tokens(signing_request).unwrap();

    pp_wallet
        .process_signed_tokens(
            &signing_response.signed_tokens,
            signing_response.batch_proof,
            signing_response.public_key.unwrap(),
            &raw_tokens,
            &blinded_tokens,
        )
        .unwrap();

    // OK
    let payload = "test".to_string();
    let tokens = pp_wallet.get_tokens(1).unwrap();
    let (preimages, verification_signatures) = Wallet::prepare_redemption(&tokens, payload.clone());

    let redeem_request = RedeemRequest {
        preimages,
        verification_signatures,
        payload: payload.as_bytes().to_vec(),
    };

    let (_, redeemed_preimages) = issuer.process_redeem_tokens(&redeem_request);

    // Double spending!
    let payload = "test double spending".to_string();
    let (preimages, verification_signatures) = Wallet::prepare_redemption(&tokens, payload.clone());

    let redeem_request = RedeemRequest {
        preimages,
        verification_signatures,
        payload: payload.as_bytes().to_vec(),
    };

    let (_, redeemed_preimages_2) = issuer.process_redeem_tokens(&redeem_request);

    assert_eq!(
        redeemed_preimages[0], redeemed_preimages_2[0],
        "Issuer should be able to detect double spending"
    );
}

#[test]
fn generate_blinded_tokens_lengths() {
    let (raw, blinded) = Wallet::generate_blinded_tokens(0);
    assert_eq!(raw.len(), 0);
    assert_eq!(blinded.len(), 0);

    let (raw, blinded) = Wallet::generate_blinded_tokens(5);
    assert_eq!(raw.len(), 5);
    assert_eq!(blinded.len(), 5);
}

#[test]
fn round_trip_batch_yields_all_credentials() {
    let mut rng = OsRng;
    let mut wallet = Wallet::new();
    let signing_key = SigningKey::random(&mut rng);
    let mut issuer = Issuer::new(&signing_key.to_bytes());

    let (raw_tokens, blinded_tokens) = Wallet::generate_blinded_tokens(10);
    let response = issuer
        .sign_tokens(SigningRequest { blinded_tokens: blinded_tokens.clone() })
        .unwrap();
    assert_eq!(response.signed_tokens.len(), 10);
    assert_eq!(response.error, "");

    wallet
        .process_signed_tokens(
            &response.signed_tokens,
            response.batch_proof,
            response.public_key.unwrap(),
            &raw_tokens,
            &blinded_tokens,
        )
        .unwrap();

    let tokens = wallet.get_tokens(10).unwrap();
    assert_eq!(tokens.len(), 10);

    let payload = "round trip".to_string();
    let (preimages, signatures) = Wallet::prepare_redemption(&tokens, payload.clone());
    assert_eq!(preimages.len(), 10);
    assert_eq!(signatures.len(), 10);

    let request = RedeemRequest {
        preimages,
        verification_signatures: signatures,
        payload: payload.as_bytes().to_vec(),
    };
    let (response, redeemed) = issuer.process_redeem_tokens(&request);
    assert!(response.ok);
    assert_eq!(response.n_tokens_redeemed, 10);
    assert_eq!(redeemed.len(), 10);
}

fn issue_batch(n: usize) -> (Issuer, Wallet) {
    let mut rng = OsRng;
    let mut wallet = Wallet::new();
    let signing_key = SigningKey::random(&mut rng);
    let mut issuer = Issuer::new(&signing_key.to_bytes());

    let (raw_tokens, blinded_tokens) = Wallet::generate_blinded_tokens(n);
    let response = issuer
        .sign_tokens(SigningRequest { blinded_tokens: blinded_tokens.clone() })
        .unwrap();
    wallet
        .process_signed_tokens(
            &response.signed_tokens,
            response.batch_proof,
            response.public_key.unwrap(),
            &raw_tokens,
            &blinded_tokens,
        )
        .unwrap();
    (issuer, wallet)
}

#[test]
fn tampered_signed_token_rejects_whole_batch() {
    let mut rng = OsRng;
    let mut wallet = Wallet::new();
    let signing_key = SigningKey::random(&mut rng);
    let issuer = Issuer::new(&signing_key.to_bytes());

    let (raw_tokens, blinded_tokens) = Wallet::generate_blinded_tokens(4);
    let response = issuer
        .sign_tokens(SigningRequest { blinded_tokens: blinded_tokens.clone() })
        .unwrap();

    let mut signed_tokens = response.signed_tokens;
    let mut bytes = signed_tokens[2].to_bytes();
    bytes[0] ^= 0x01;
    signed_tokens[2] = SignedToken::from_bytes(&bytes).unwrap();

    let result = wallet.process_signed_tokens(
        &signed_tokens,
        response.batch_proof,
        response.public_key.unwrap(),
        &raw_tokens,
        &blinded_tokens,
    );
    assert!(result.is_err());
    assert!(wallet.get_tokens(1).is_err(), "nothing may be buffered from a tampered batch");
}

#[test]
fn tampered_batch_proof_rejects_whole_batch() {
    let mut rng = OsRng;
    let mut wallet = Wallet::new();
    let signing_key = SigningKey::random(&mut rng);
    let issuer = Issuer::new(&signing_key.to_bytes());

    let (raw_tokens, blinded_tokens) = Wallet::generate_blinded_tokens(4);
    let response = issuer
        .sign_tokens(SigningRequest { blinded_tokens: blinded_tokens.clone() })
        .unwrap();

    let mut bytes = response.batch_proof.unwrap().to_bytes();
    bytes[0] ^= 0x01;
    let tampered = BatchDLEQProof::from_bytes(&bytes).unwrap();

    let result = wallet.process_signed_tokens(
        &response.signed_tokens,
        Some(tampered),
        response.public_key.unwrap(),
        &raw_tokens,
        &blinded_tokens,
    );
    assert!(result.is_err());
}

#[test]
fn missing_batch_proof_is_rejected() {
    let mut rng = OsRng;
    let mut wallet = Wallet::new();
    let signing_key = SigningKey::random(&mut rng);
    let issuer = Issuer::new(&signing_key.to_bytes());

    let (raw_tokens, blinded_tokens) = Wallet::generate_blinded_tokens(2);
    let response = issuer
        .sign_tokens(SigningRequest { blinded_tokens: blinded_tokens.clone() })
        .unwrap();

    let result = wallet.process_signed_tokens(
        &response.signed_tokens,
        None,
        response.public_key.unwrap(),
        &raw_tokens,
        &blinded_tokens,
    );
    let err = result.err().unwrap();
    assert_eq!(err.message().as_str(), "Unexpected error: batch proof not provided");
}

#[test]
fn prepare_redemption_is_deterministic() {
    let (_, mut wallet) = issue_batch(3);
    let tokens = wallet.get_tokens(3).unwrap();

    let payload = "test".to_string();
    let (preimages_a, signatures_a) = Wallet::prepare_redemption(&tokens, payload.clone());
    let (preimages_b, signatures_b) = Wallet::prepare_redemption(&tokens, payload.clone());

    assert_eq!(preimages_a.len(), 3);
    for i in 0..3 {
        assert_eq!(preimages_a[i], preimages_b[i]);
        assert!(signatures_a[i] == signatures_b[i]);
        assert_eq!(preimages_a[i], tokens[i].t, "the preimage is the credential's own");
    }
}

#[test]
fn different_payloads_give_different_signatures() {
    let (mut issuer, mut wallet) = issue_batch(1);
    let tokens = wallet.get_tokens(1).unwrap();

    let (_, signatures_a) = Wallet::prepare_redemption(&tokens, "test".to_string());
    let (preimages, signatures_b) = Wallet::prepare_redemption(&tokens, "other".to_string());
    assert!(signatures_a[0] != signatures_b[0]);

    // A signature bound to one payload must not verify against another.
    let request = RedeemRequest {
        preimages,
        verification_signatures: signatures_a,
        payload: "other".as_bytes().to_vec(),
    };
    let (response, redeemed) = issuer.process_redeem_tokens(&request);
    assert!(!response.ok);
    assert_eq!(response.n_tokens_redeemed, 0);
    assert_eq!(redeemed.len(), 0);
}

#[test]
fn misaligned_pairs_fail_verification() {
    let (mut issuer, mut wallet) = issue_batch(2);
    let tokens = wallet.get_tokens(2).unwrap();

    let payload = "test".to_string();
    let (preimages, mut signatures) = Wallet::prepare_redemption(&tokens, payload.clone());
    signatures.swap(0, 1);

    let request = RedeemRequest {
        preimages,
        verification_signatures: signatures,
        payload: payload.as_bytes().to_vec(),
    };
    let (response, redeemed) = issuer.process_redeem_tokens(&request);
    assert!(!response.ok);
    assert_eq!(response.n_tokens_redeemed, 0);
    assert_eq!(redeemed.len(), 0);
}

#[test]
fn redemption_stops_at_first_mismatch() {
    let (mut issuer, mut wallet) = issue_batch(3);
    let tokens = wallet.get_tokens(3).unwrap();

    let payload = "test".to_string();
    let (preimages, mut signatures) = Wallet::prepare_redemption(&tokens, payload.clone());
    let (_, wrong) = Wallet::prepare_redemption(&tokens, "wrong".to_string());
    signatures[1] = wrong[1].clone();

    let request = RedeemRequest {
        preimages: preimages.clone(),
        verification_signatures: signatures,
        payload: payload.as_bytes().to_vec(),
    };
    let (response, redeemed) = issuer.process_redeem_tokens(&request);
    assert!(!response.ok);
    assert_eq!(response.n_tokens_redeemed, 1);
    assert_eq!(redeemed.len(), 1);
    assert_eq!(redeemed[0], preimages[0]);
}

#[test]
fn get_tokens_boundary() {
    let (_, mut wallet) = issue_batch(3);

    let err = wallet.get_tokens(4).err().unwrap();
    assert_eq!(err.message().as_str(), "Not enough buffered tokens");

    let none = wallet.get_tokens(0).unwrap();
    assert_eq!(none.len(), 0);

    // The failed withdrawal left the buffer unchanged: all 3 are still there.
    let all = wallet.get_tokens(3).unwrap();
    assert_eq!(all.len(), 3);
}

#[test]
fn get_tokens_removes_from_buffer() {
    let (_, mut wallet) = issue_batch(2);
    assert_eq!(wallet.get_tokens(1).unwrap().len(), 1);
    assert_eq!(wallet.get_tokens(1).unwrap().len(), 1);
    assert!(wallet.get_tokens(1).is_err(), "a popped credential is never offered twice");
}

#[test]
fn issuer_rejects_invalid_key_bytes() {
    assert!(Issuer::try_new(&[1u8, 2, 3]).is_none());

    let mut rng = OsRng;
    let signing_key = SigningKey::random(&mut rng);
    assert!(Issuer::try_new(&signing_key.to_bytes()).is_some());
}

#[test]
fn protocol_error_carries_message() {
    let err = ProtocolError::new("some failure");
    assert_eq!(err.message().as_str(), "some failure");
}

#[test]
fn signing_response_with_error() {
    let response = SigningResponse::with_error("Request Malformed".to_string());
    assert_eq!(response.signed_tokens.len(), 0);
    assert!(response.public_key.is_none());
    assert!(response.batch_proof.is_none());
    assert_eq!(response.error, "Request Malformed");
}

#[test]
fn redeem_response_with_error() {
    let response = RedeemResponse::with_error("rejected");
    assert!(!response.ok);
    assert_eq!(response.n_tokens_redeemed, 0);
}
