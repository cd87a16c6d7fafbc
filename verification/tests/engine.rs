use cpace::Exchanger;
use cpace::InvalidPeerKey;
use cpace::Role;
use cpace::decode_point;
use cpace::encode_point;
use cpace::point_from_uniform_bytes;

fn honest_pair() -> (Exchanger, Exchanger) {
    let alice = Exchanger::new(Role::INITIATOR, b"Alice", b"Bea", b"secret", b"nonce");
    let bea = Exchanger::new(Role::RESPONDER, b"Bea", b"Alice", b"secret", b"nonce");
    (alice, bea)
}

#[test]
fn fresh_randomness_gives_fresh_keys() {
    let mut keys = Vec::new();
    for _ in 0..2 {
        let (alice, bea) = honest_pair();
        let y_alice = alice.send();
        let y_bea = bea.send();
        let mut alice = alice.receive(y_bea).unwrap();
        let mut bea = bea.receive(y_alice).unwrap();
        let prf_a = alice.extract(16);
        let prf_b = bea.extract(16);
        assert_eq!(prf_a, prf_b);
        keys.push(prf_a);
    }
    // Both runs succeed, but fresh scalars mean independent generators and
    // shared secrets, so the session keys differ between runs.
    assert_ne!(keys[0], keys[1]);
}

#[test]
fn degenerate_point_is_rejected() {
    // The canonical encoding of the group's identity element is 32 zero
    // bytes; it decodes successfully, but a peer that sends it forces the
    // shared point to the identity, which the exchange must reject.
    let identity = decode_point(&[0u8; 32]).unwrap();
    let (alice, _) = honest_pair();
    assert!(matches!(alice.receive(identity), Err(InvalidPeerKey)));
}

#[test]
fn short_or_long_encodings_do_not_decode() {
    assert!(decode_point(&[0u8; 31]).is_none());
    assert!(decode_point(&[0u8; 33]).is_none());
    assert!(decode_point(&[]).is_none());
}

#[test]
fn non_canonical_encoding_does_not_decode() {
    // An s-value with its high bit set is never a canonical ristretto255
    // encoding.
    assert!(decode_point(&[0xffu8; 32]).is_none());
}

#[test]
fn encoding_round_trips() {
    let (alice, _) = honest_pair();
    let point = alice.send();
    let encoded = encode_point(&point);
    assert_eq!(encoded.len(), 32);
    let decoded = decode_point(encoded.as_slice()).unwrap();
    assert_eq!(encode_point(&decoded), encoded);
}

#[test]
fn send_is_idempotent() {
    let (alice, _) = honest_pair();
    let first = encode_point(&alice.send());
    let second = encode_point(&alice.send());
    assert_eq!(first, second);
}

#[test]
fn distinct_uniform_bytes_give_distinct_points() {
    // The uniform map must actually consume its input: two different inputs
    // land on different group elements (with overwhelming probability).
    let p = point_from_uniform_bytes(&[1u8; 64]);
    let q = point_from_uniform_bytes(&[2u8; 64]);
    assert_ne!(encode_point(&p), encode_point(&q));
}

#[test]
fn extract_produces_requested_lengths() {
    let (alice, bea) = honest_pair();
    let y_alice = alice.send();
    let mut transcript = bea.receive(y_alice).unwrap();
    assert_eq!(transcript.extract(0).len(), 0);
    assert_eq!(transcript.extract(16).len(), 16);
    assert_eq!(transcript.extract(64).len(), 64);
}

#[test]
fn extract_is_not_the_input_buffer() {
    let (alice, bea) = honest_pair();
    let y_alice = alice.send();
    let mut transcript = bea.receive(y_alice).unwrap();
    // The output is pseudorandom, not the zeroed buffer handed to the duplex.
    assert_ne!(transcript.extract(16), vec![0u8; 16]);
}

#[test]
fn missing_session_id_is_a_different_context() {
    let alice = Exchanger::new(Role::INITIATOR, b"Alice", b"Bea", b"secret", b"");
    let y_alice = alice.send();

    let bea = Exchanger::new(Role::RESPONDER, b"Bea", b"Alice", b"secret", b"nonce");
    let y_bea = bea.send();

    let mut alice = alice.receive(y_bea).unwrap();
    let mut bea = bea.receive(y_alice).unwrap();

    assert_ne!(alice.extract(16), bea.extract(16));
}

#[test]
fn tampered_point_diverges_or_rejects() {
    // A validly-encoded point that did not come from the real exchange:
    // either the receiver rejects it (identity shared point), or the derived
    // keys diverge from the honest run.
    let (alice, bea) = honest_pair();
    let y_alice = alice.send();
    let forged = point_from_uniform_bytes(&[42u8; 64]);

    let mut bea = bea.receive(y_alice).unwrap();
    let honest_key = bea.extract(16);

    match alice.receive(forged) {
        Ok(mut transcript) => assert_ne!(transcript.extract(16), honest_key),
        Err(e) => assert_eq!(e, InvalidPeerKey),
    }
}
