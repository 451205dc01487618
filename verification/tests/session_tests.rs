use hmac::Mac;
use poll_engine::protocol::AuthFailure;
use poll_engine::protocol::FetchError;
use poll_engine::session::AuthSession;
use poll_engine::session::HandshakeStep;

#[test]
fn challenge_handshake_walks_both_steps() {
    let mut s = AuthSession::new(true);
    assert_eq!(s.needs_handshake_step(), Some(HandshakeStep::Challenge));
    s.consume_challenge(Some("abc".to_string())).unwrap();
    assert_eq!(s.needs_handshake_step(), Some(HandshakeStep::Exchange));
    s.consume_token(Some("tok".to_string())).unwrap();
    assert_eq!(s.needs_handshake_step(), None);
    assert_eq!(s.token().map(|t| t.as_str()), Some("tok"));
}

#[test]
fn cookie_profile_skips_the_challenge() {
    let mut s = AuthSession::new(false);
    assert_eq!(s.needs_handshake_step(), Some(HandshakeStep::Exchange));
    s.consume_cookie(Some("session-id".to_string())).unwrap();
    assert_eq!(s.needs_handshake_step(), None);
}

#[test]
fn invalidate_clears_challenge_and_token() {
    let mut s = AuthSession::new(true);
    s.consume_challenge(Some("abc".to_string())).unwrap();
    s.consume_token(Some("tok".to_string())).unwrap();
    s.invalidate();
    assert_eq!(s.needs_handshake_step(), Some(HandshakeStep::Challenge));
    assert!(s.token().is_none());
}

#[test]
fn absent_handshake_fields_are_reported() {
    let mut s = AuthSession::new(true);
    assert_eq!(
        s.consume_challenge(None),
        Err(FetchError::Auth(AuthFailure::MissingChallenge))
    );
    assert_eq!(
        s.consume_token(None),
        Err(FetchError::Auth(AuthFailure::MissingToken))
    );
    assert_eq!(
        s.consume_cookie(None),
        Err(FetchError::Auth(AuthFailure::MissingCookie))
    );
    assert_eq!(
        s.compute_session_proof(b"secret"),
        Err(FetchError::Auth(AuthFailure::MissingChallenge))
    );
}

#[test]
fn session_proof_matches_reference_digest() {
    // Challenge "abc" under a known secret: a precomputed HMAC-SHA1 digest.
    let mut s = AuthSession::new(true);
    s.consume_challenge(Some("abc".to_string())).unwrap();
    let proof = s.compute_session_proof(b"myapptoken").unwrap();
    assert_eq!(proof, "a6624350b0db03aa5aa5fcf65d500da271945be4");
}

#[test]
fn session_proof_matches_published_test_vector() {
    // The classic keyed-hash test vector: key "Jefe" over the question.
    let mut s = AuthSession::new(true);
    s.consume_challenge(Some("what do ya want for nothing?".to_string()))
        .unwrap();
    let proof = s.compute_session_proof(b"Jefe").unwrap();
    assert_eq!(proof, "effcdf6ae5eb2fa2d27416d5f184df9c259a7c79");
}

#[test]
fn session_proof_agrees_with_direct_hmac() {
    // Cross-check against the mac crate computed here, byte for byte.
    let challenge = "zt64 #aa-randomish";
    let secret: &[u8] = b"another secret";
    let mut mac =
        hmac::Hmac::<sha1::Sha1>::new_from_slice(secret).expect("any key length is accepted");
    mac.update(challenge.as_bytes());
    let digest = mac.finalize().into_bytes();
    let mut expected = String::new();
    for byte in digest.iter() {
        expected.push_str(&format!("{:02x}", byte));
    }

    let mut s = AuthSession::new(true);
    s.consume_challenge(Some(challenge.to_string())).unwrap();
    assert_eq!(s.compute_session_proof(secret).unwrap(), expected);
}
