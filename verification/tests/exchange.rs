use cpace::Exchanger;
use cpace::Role;

#[test]
fn full_exchange() {
    let alice = Exchanger::new(Role::INITIATOR, b"Alice", b"Bea", b"secret", b"");
    let y_alice = alice.send();

    let bea = Exchanger::new(Role::RESPONDER, b"Bea", b"Alice", b"secret", b"");
    let y_bea = bea.send();

    let mut alice = alice.receive(y_bea).unwrap();
    let mut bea = bea.receive(y_alice).unwrap();

    let prf_a = alice.extract(16);
    let prf_b = bea.extract(16);

    assert_eq!(prf_b, prf_a);
}

#[test]
fn bad_local_id() {
    let alice = Exchanger::new(Role::INITIATOR, b"Alice", b"Bea", b"secret", b"");
    let y_alice = alice.send();

    let bea = Exchanger::new(Role::RESPONDER, b"Hank", b"Alice", b"secret", b"");
    let y_bea = bea.send();

    let mut alice = alice.receive(y_bea).unwrap();
    let mut bea = bea.receive(y_alice).unwrap();

    let prf_a = alice.extract(16);
    let prf_b = bea.extract(16);

    assert_ne!(prf_b, prf_a);
}

#[test]
fn bad_remote_id() {
    let alice = Exchanger::new(Role::INITIATOR, b"Alice", b"Hank", b"secret", b"");
    let y_alice = alice.send();

    let bea = Exchanger::new(Role::RESPONDER, b"Bea", b"Alice", b"secret", b"");
    let y_bea = bea.send();

    let mut alice = alice.receive(y_bea).unwrap();
    let mut bea = bea.receive(y_alice).unwrap();

    let prf_a = alice.extract(16);
    let prf_b = bea.extract(16);

    assert_ne!(prf_b, prf_a);
}

#[test]
fn bad_password() {
    let alice = Exchanger::new(Role::INITIATOR, b"Alice", b"Bea", b"secret", b"");
    let y_alice = alice.send();

    let bea = Exchanger::new(Role::RESPONDER, b"Bea", b"Alice", b"dingus", b"");
    let y_bea = bea.send();

    let mut alice = alice.receive(y_bea).unwrap();
    let mut bea = bea.receive(y_alice).unwrap();

    let prf_a = alice.extract(16);
    let prf_b = bea.extract(16);

    assert_ne!(prf_b, prf_a);
}

#[test]
fn bad_session_id() {
    let alice = Exchanger::new(Role::INITIATOR, b"Alice", b"Bea", b"secret", b"one");
    let y_alice = alice.send();

    let bea = Exchanger::new(Role::RESPONDER, b"Bea", b"Alice", b"secret", b"two");
    let y_bea = bea.send();

    let mut alice = alice.receive(y_bea).unwrap();
    let mut bea = bea.receive(y_alice).unwrap();

    let prf_a = alice.extract(16);
    let prf_b = bea.extract(16);

    assert_ne!(prf_b, prf_a);
}

#[test]
fn bad_point() {
    let alice = Exchanger::new(Role::INITIATOR, b"Alice", b"Bea", b"secret", b"");
    let y_alice = cpace::point_from_uniform_bytes(&[69u8; 64]);

    let bea = Exchanger::new(Role::RESPONDER, b"Bea", b"Alice", b"secret", b"");
    let y_bea = bea.send();

    let mut alice = alice.receive(y_bea).unwrap();
    let mut bea = bea.receive(y_alice).unwrap();

    let prf_a = alice.extract(16);
    let prf_b = bea.extract(16);

    assert_ne!(prf_b, prf_a);
}

#[test]
fn replay_attack() {
    // Alice initiates a session with Bea, but Mallory intercepts the request.
    let alice_send = Exchanger::new(Role::INITIATOR, b"Alice", b"Bea", b"secret", b"");
    let y_alice_send = alice_send.send();

    // Alice receives a session request from Mallory pretending to be Bea.
    let alice_recv = Exchanger::new(Role::RESPONDER, b"Alice", b"Bea", b"secret", b"");
    let y_alice_recv = alice_recv.send();

    // In the Alice-initiated session, Mallory replies to Alice with her own
    // point from the Mallory-initiated session.
    let mut alice_send = alice_send.receive(y_alice_recv).unwrap();

    // In the Mallory-initiated session, Mallory replies to Alice with her own
    // point from the Alice-initiated session.
    let mut alice_recv = alice_recv.receive(y_alice_send).unwrap();

    // Now when Alice sends a message to who she thinks is Bea, Mallory can
    // record it.
    let prf_a = alice_send.extract(16);

    // And Mallory can send that same message to Alice, who will believe it's
    // from Bea.
    let prf_b = alice_recv.extract(16);

    // But the y_alice_send point was constructed with a different generator.
    assert_ne!(prf_b, prf_a);
}
