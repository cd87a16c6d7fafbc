//! The exchange engine: the protocol state machine that composes the
//! transcript and group primitives into a password-authenticated key
//! exchange.
//!
//! Each party constructs an [`Exchanger`] for its role, obtains its public
//! point with [`Exchanger::send`], transmits it out of band, and finalizes
//! with [`Exchanger::receive`], which consumes the exchanger and yields either
//! the synchronized transcript or [`InvalidPeerKey`].

use vstd::multiset::Multiset;
use vstd::prelude::*;

use crate::group::GroupPoint;
use crate::group::PointBase;
use crate::group::PointModel;
use crate::group::SecretScalar;
use crate::group::encode_point;
use crate::group::is_identity;
use crate::group::point_encoding;
use crate::group::point_from_uniform_bytes;
use crate::group::point_is_identity;
use crate::group::sample_scalar;
use crate::group::scalar_mul;
use crate::transcript::TOp;
use crate::transcript::Transcript;
use crate::transcript::extract_bytes;
use crate::transcript::normalized;

verus! {

/// The role of a given exchanger.
#[allow(non_camel_case_types)]
#[derive(PartialEq, Eq, Structural, Clone, Copy)]
pub enum Role {
    /// Initiators are exchangers that have initiated the session.
    INITIATOR,
    /// Responders are exchangers that are responding to an initiator.
    RESPONDER,
}

/// A failed exchange: the remote point, combined with the local secret,
/// yields the group's identity element, as it does when a peer sends a
/// degenerate point to force a predictable shared secret. Nothing can be
/// derived from the session past this outcome.
#[derive(Debug, PartialEq, Eq, Structural, Clone, Copy)]
pub struct InvalidPeerKey;

/// The protocol domain label, `cpace-r255-strobe` as bytes.
pub open spec fn protocol_label() -> Seq<u8> {
    seq![99u8, 112u8, 97u8, 99u8, 101u8, 45u8, 114u8, 50u8, 53u8, 53u8, 45u8, 115u8, 116u8, 114u8, 111u8, 98u8, 101u8]
}

/// The transcript operations that record one datum sent by this party and one
/// received from the peer, in the order fixed by the role: an initiator marks
/// its own datum as sent first, a responder marks the peer's as received
/// first. For a correctly paired initiator and responder the recorded content
/// is identical in sequence, while a party that echoes a message back in the
/// opposite role lands it in the wrong slot.
pub open spec fn record_ops(role: Role, local: Seq<u8>, remote: Seq<u8>) -> Seq<TOp> {
    if role == Role::INITIATOR {
        seq![TOp::Send(local), TOp::Recv(remote)]
    } else {
        seq![TOp::Recv(remote), TOp::Send(local)]
    }
}

/// The transcript operations absorbed during session construction, before any
/// output is extracted: the domain label, the identities in role order, the
/// session id as associated data, and the password as a key.
pub open spec fn setup_absorb_hist(
    role: Role,
    local_id: Seq<u8>,
    remote_id: Seq<u8>,
    password: Seq<u8>,
    session_id: Seq<u8>,
) -> Seq<TOp> {
    seq![TOp::Label(protocol_label())] + record_ops(role, local_id, remote_id) + seq![
        TOp::Ad(session_id),
        TOp::Key(password),
    ]
}

/// The full transcript history after session construction: the absorbed
/// context followed by the extraction of the 64 bytes that seed the session
/// generator.
pub open spec fn setup_hist(
    role: Role,
    local_id: Seq<u8>,
    remote_id: Seq<u8>,
    password: Seq<u8>,
    session_id: Seq<u8>,
) -> Seq<TOp> {
    setup_absorb_hist(role, local_id, remote_id, password, session_id).push(TOp::Prf(64))
}

/// The 64 bytes that the session generator is mapped from: a deterministic
/// function of the identities, the session id, and the password, so the
/// Diffie-Hellman base itself is secret- and context-dependent.
pub open spec fn generator_bytes(
    role: Role,
    local_id: Seq<u8>,
    remote_id: Seq<u8>,
    password: Seq<u8>,
    session_id: Seq<u8>,
) -> Seq<u8> {
    extract_bytes(normalized(setup_absorb_hist(role, local_id, remote_id, password, session_id)), 64)
}

/// The model of a public point `G * d`: the session generator mapped from
/// `generator` as base, multiplied by the scalar reduced from `seed`.
pub open spec fn public_point(generator: Seq<u8>, seed: Seq<u8>) -> PointModel {
    PointModel {
        base: PointBase::Uniform(generator),
        factors: Multiset::empty().insert(seed),
    }
}

/// The model of the shared point: the peer's point multiplied by the local
/// secret scalar.
pub open spec fn shared_point(peer: PointModel, seed: Seq<u8>) -> PointModel {
    PointModel { base: peer.base, factors: peer.factors.insert(seed) }
}

/// The full transcript history of a completed session: construction, the two
/// public points recorded in role order, and the rekey with the shared
/// point's encoding.
pub open spec fn full_hist(
    role: Role,
    local_id: Seq<u8>,
    remote_id: Seq<u8>,
    password: Seq<u8>,
    session_id: Seq<u8>,
    local_point: PointModel,
    remote_point: PointModel,
    shared: PointModel,
) -> Seq<TOp> {
    setup_hist(role, local_id, remote_id, password, session_id) + record_ops(
        role,
        point_encoding(local_point),
        point_encoding(remote_point),
    ) + seq![TOp::Key(point_encoding(shared))]
}

/// Builds the protocol domain label as bytes.
fn protocol_label_bytes() -> (r: Vec<u8>)
    ensures
        r@ == protocol_label(),
{
    let mut label: Vec<u8> = Vec::new();
    label.push(99u8);
    label.push(112u8);
    label.push(97u8);
    label.push(99u8);
    label.push(101u8);
    label.push(45u8);
    label.push(114u8);
    label.push(50u8);
    label.push(53u8);
    label.push(53u8);
    label.push(45u8);
    label.push(115u8);
    label.push(116u8);
    label.push(114u8);
    label.push(111u8);
    label.push(98u8);
    label.push(101u8);
    proof {
        assert(label@ =~= protocol_label());
    }
    label
}

/// An asynchronous PAKE exchange: the live per-session state of one party.
/// Created once per party per session; consumed by [`Exchanger::receive`].
pub struct Exchanger {
    role: Role,
    cpace: Transcript,
    d: SecretScalar,
    y: GroupPoint,
}

impl Exchanger {
    /// The role this exchanger was constructed for.
    pub closed spec fn role_spec(&self) -> Role {
        self.role
    }

    /// The operations absorbed into this exchanger's transcript so far.
    pub closed spec fn transcript_hist(&self) -> Seq<TOp> {
        self.cpace@
    }

    /// The seed of this exchanger's secret scalar.
    pub closed spec fn scalar_seed(&self) -> Seq<u8> {
        self.d@
    }

    /// The model of this exchanger's public point.
    pub closed spec fn point_model(&self) -> PointModel {
        self.y@
    }

    /// Creates a new [Exchanger] with the given identities, shared password,
    /// and session ID.
    ///
    /// The transcript absorbs the domain label, the identities in role order,
    /// the session id, and the password; the generator is mapped from 64
    /// bytes extracted from that context, and the public point is the
    /// generator multiplied by a freshly sampled secret scalar.
    pub fn new(
        role: Role,
        local_id: &[u8],
        remote_id: &[u8],
        password: &[u8],
        session_id: &[u8],
    ) -> (r: Exchanger)
        ensures
            r.role_spec() == role,
            r.transcript_hist() == setup_hist(role, local_id@, remote_id@, password@, session_id@),
            r.point_model() == public_point(
                generator_bytes(role, local_id@, remote_id@, password@, session_id@),
                r.scalar_seed(),
            ),
            r.scalar_seed().len() == 64,
    {
        // Initialize the protocol with all available associated data.
        let label = protocol_label_bytes();
        let mut cpace = Transcript::new(label.as_slice());

        // If this exchanger is the initiator, mark the local ID as sent
        // first. Otherwise, mark the remote ID as being received first.
        if role == Role::INITIATOR {
            cpace.send_cleartext(local_id);
            cpace.receive_cleartext(remote_id);
        } else {
            cpace.receive_cleartext(remote_id);
            cpace.send_cleartext(local_id);
        }

        // Add the session ID.
        cpace.absorb_associated_data(session_id);

        // Key with the password.
        cpace.absorb_key(password);

        proof {
            assert(cpace@ =~= setup_absorb_hist(
                role,
                local_id@,
                remote_id@,
                password@,
                session_id@,
            ));
        }

        // Generate a random scalar.
        let d = sample_scalar();

        // Extract a generator point from the transcript output.
        let g_bytes = cpace.extract(64);
        let g = point_from_uniform_bytes(g_bytes.as_slice());

        let y = scalar_mul(&g, &d);

        Exchanger { role, cpace, d, y }
    }

    /// The public point to be sent to the remote party. A pure observation:
    /// it may be called any number of times.
    pub fn send(&self) -> (r: GroupPoint)
        ensures
            r@ == self.point_model(),
    {
        self.y.clone()
    }

    /// Given the public point from the remote party, unwrap the exchange into
    /// a synchronized transcript, or reject the peer whose point yields a
    /// degenerate shared secret.
    ///
    /// The exchanger is consumed either way: on rejection the transcript and
    /// the secret scalar are discarded, and nothing further can be derived
    /// from the session.
    pub fn receive(self, y: GroupPoint) -> (r: Result<Transcript, InvalidPeerKey>)
        ensures
            r is Err <==> point_is_identity(shared_point(y@, self.scalar_seed())),
            r matches Ok(t) ==> t@ == self.transcript_hist() + record_ops(
                self.role_spec(),
                point_encoding(self.point_model()),
                point_encoding(y@),
            ) + seq![TOp::Key(point_encoding(shared_point(y@, self.scalar_seed())))],
    {
        let Exchanger { role, mut cpace, d, y: y_local } = self;

        // Compress both points so they can be recorded.
        let local_encoding = encode_point(&y_local);
        let remote_encoding = encode_point(&y);

        // If this exchanger is an initiator, mark the local point as being
        // sent first. This fixes potential concurrent replay attacks in a
        // peer-to-peer setting, with an attacker sending us our own points
        // and replaying our own messages as if they came from the recipient.
        if role == Role::INITIATOR {
            cpace.send_cleartext(local_encoding.as_slice());
            cpace.receive_cleartext(remote_encoding.as_slice());
        } else {
            cpace.receive_cleartext(remote_encoding.as_slice());
            cpace.send_cleartext(local_encoding.as_slice());
        }

        // Compute the shared point (G*d')*d.
        let shared = scalar_mul(&y, &d);

        // Reject a peer whose point forces a degenerate shared secret.
        if is_identity(&shared) {
            return Err(InvalidPeerKey);
        }

        // Key the transcript with the shared secret point.
        let shared_encoding = encode_point(&shared);
        cpace.absorb_key(shared_encoding.as_slice());

        Ok(cpace)
    }
}

} // verus!
