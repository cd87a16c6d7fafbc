//! The laws of the exchange: proofs that a matched initiator/responder pair
//! synchronize exactly, and that any mismatch in password, identities, or
//! session id — or a reflected role — drives the two transcripts apart.
//!
//! Extraction output is a pure function of a transcript's normalized history
//! ([`crate::transcript::extract_bytes`]), so two parties extract identical
//! bytes exactly when their normalized histories agree; histories that differ
//! yield outputs with no stated relation, which is the cryptographic sense of
//! "the keys diverge".

use vstd::prelude::*;

use crate::exchange::Role;
use crate::exchange::full_hist;
use crate::exchange::generator_bytes;
use crate::exchange::protocol_label;
use crate::exchange::public_point;
use crate::exchange::record_ops;
use crate::exchange::setup_absorb_hist;
use crate::exchange::shared_point;
use crate::group::PointModel;
use crate::group::point_encoding;
use crate::group::point_is_identity;
use crate::transcript::TOp;
use crate::transcript::extract_bytes;
use crate::transcript::first_directional_is_recv;
use crate::transcript::flip;
use crate::transcript::flip_all;
use crate::transcript::is_directional;
use crate::transcript::normalized;

verus! {

/// A history that opens with a non-directional operation followed by a
/// directional one takes its orientation from that second operation.
proof fn lemma_orientation_from_second(h: Seq<TOp>)
    requires
        h.len() >= 2,
        !is_directional(h[0]),
        is_directional(h[1]),
    ensures
        first_directional_is_recv(h) == (h[1] is Recv),
{
    assert(first_directional_is_recv(h) == first_directional_is_recv(h.drop_first()));
    assert(h.drop_first()[0] == h[1]);
    assert(first_directional_is_recv(h.drop_first()) == (h[1] is Recv));
}

/// The element-by-element shape of a party's completed transcript history.
proof fn lemma_full_hist_shape(
    role: Role,
    local_id: Seq<u8>,
    remote_id: Seq<u8>,
    password: Seq<u8>,
    session_id: Seq<u8>,
    local_point: PointModel,
    remote_point: PointModel,
    shared: PointModel,
)
    ensures
        ({
            let h = full_hist(
                role,
                local_id,
                remote_id,
                password,
                session_id,
                local_point,
                remote_point,
                shared,
            );
            let rec_ids = record_ops(role, local_id, remote_id);
            let rec_pts = record_ops(
                role,
                point_encoding(local_point),
                point_encoding(remote_point),
            );
            &&& h.len() == 9
            &&& h[0] == TOp::Label(protocol_label())
            &&& h[1] == rec_ids[0]
            &&& h[2] == rec_ids[1]
            &&& h[3] == TOp::Ad(session_id)
            &&& h[4] == TOp::Key(password)
            &&& h[5] == TOp::Prf(64)
            &&& h[6] == rec_pts[0]
            &&& h[7] == rec_pts[1]
            &&& h[8] == TOp::Key(point_encoding(shared))
        }),
{
}

/// An initiator's completed history is already normalized: its first
/// directional operation is a send.
proof fn lemma_normalized_full_initiator(
    local_id: Seq<u8>,
    remote_id: Seq<u8>,
    password: Seq<u8>,
    session_id: Seq<u8>,
    local_point: PointModel,
    remote_point: PointModel,
    shared: PointModel,
)
    ensures
        normalized(
            full_hist(
                Role::INITIATOR,
                local_id,
                remote_id,
                password,
                session_id,
                local_point,
                remote_point,
                shared,
            ),
        ) == full_hist(
            Role::INITIATOR,
            local_id,
            remote_id,
            password,
            session_id,
            local_point,
            remote_point,
            shared,
        ),
{
    lemma_full_hist_shape(
        Role::INITIATOR,
        local_id,
        remote_id,
        password,
        session_id,
        local_point,
        remote_point,
        shared,
    );
    lemma_orientation_from_second(
        full_hist(
            Role::INITIATOR,
            local_id,
            remote_id,
            password,
            session_id,
            local_point,
            remote_point,
            shared,
        ),
    );
}

/// A responder's completed history normalizes to the initiator-form history
/// seen from the other side of the wire: every direction reversed, so the
/// identities and points appear swapped into the peer's perspective.
proof fn lemma_normalized_full_responder(
    local_id: Seq<u8>,
    remote_id: Seq<u8>,
    password: Seq<u8>,
    session_id: Seq<u8>,
    local_point: PointModel,
    remote_point: PointModel,
    shared: PointModel,
)
    ensures
        normalized(
            full_hist(
                Role::RESPONDER,
                local_id,
                remote_id,
                password,
                session_id,
                local_point,
                remote_point,
                shared,
            ),
        ) == full_hist(
            Role::INITIATOR,
            remote_id,
            local_id,
            password,
            session_id,
            remote_point,
            local_point,
            shared,
        ),
{
    let h = full_hist(
        Role::RESPONDER,
        local_id,
        remote_id,
        password,
        session_id,
        local_point,
        remote_point,
        shared,
    );
    let target = full_hist(
        Role::INITIATOR,
        remote_id,
        local_id,
        password,
        session_id,
        remote_point,
        local_point,
        shared,
    );
    lemma_full_hist_shape(
        Role::RESPONDER,
        local_id,
        remote_id,
        password,
        session_id,
        local_point,
        remote_point,
        shared,
    );
    lemma_full_hist_shape(
        Role::INITIATOR,
        remote_id,
        local_id,
        password,
        session_id,
        remote_point,
        local_point,
        shared,
    );
    lemma_orientation_from_second(h);
    assert(normalized(h) == flip_all(h));
    assert forall|i: int| 0 <= i < 9 implies flip_all(h)[i] == target[i] by {
        assert(flip_all(h)[i] == flip(h[i]));
    }
    assert(flip_all(h) =~= target);
}

/// The element-by-element shape of a party's transcript history after
/// construction, before the generator bytes are extracted.
proof fn lemma_setup_absorb_shape(
    role: Role,
    local_id: Seq<u8>,
    remote_id: Seq<u8>,
    password: Seq<u8>,
    session_id: Seq<u8>,
)
    ensures
        ({
            let h = setup_absorb_hist(role, local_id, remote_id, password, session_id);
            let rec_ids = record_ops(role, local_id, remote_id);
            &&& h.len() == 5
            &&& h[0] == TOp::Label(protocol_label())
            &&& h[1] == rec_ids[0]
            &&& h[2] == rec_ids[1]
            &&& h[3] == TOp::Ad(session_id)
            &&& h[4] == TOp::Key(password)
        }),
{
}

/// The construction-time history of a responder normalizes to the
/// initiator-form history with the identities swapped, so a matched pair
/// derive their generators from the same normalized context.
proof fn lemma_normalized_setup_absorb(
    local_id: Seq<u8>,
    remote_id: Seq<u8>,
    password: Seq<u8>,
    session_id: Seq<u8>,
)
    ensures
        normalized(setup_absorb_hist(Role::INITIATOR, local_id, remote_id, password, session_id))
            == setup_absorb_hist(Role::INITIATOR, local_id, remote_id, password, session_id),
        normalized(setup_absorb_hist(Role::RESPONDER, local_id, remote_id, password, session_id))
            == setup_absorb_hist(Role::INITIATOR, remote_id, local_id, password, session_id),
{
    let hi = setup_absorb_hist(Role::INITIATOR, local_id, remote_id, password, session_id);
    let hr = setup_absorb_hist(Role::RESPONDER, local_id, remote_id, password, session_id);
    let target = setup_absorb_hist(Role::INITIATOR, remote_id, local_id, password, session_id);
    lemma_setup_absorb_shape(Role::INITIATOR, local_id, remote_id, password, session_id);
    lemma_setup_absorb_shape(Role::RESPONDER, local_id, remote_id, password, session_id);
    lemma_setup_absorb_shape(Role::INITIATOR, remote_id, local_id, password, session_id);
    lemma_orientation_from_second(hi);
    lemma_orientation_from_second(hr);
    assert(normalized(hr) == flip_all(hr));
    assert forall|i: int| 0 <= i < 5 implies flip_all(hr)[i] == target[i] by {
        assert(flip_all(hr)[i] == flip(hr[i]));
    }
    assert(flip_all(hr) =~= target);
}

/// Correctness of the honest exchange. An initiator constructed with
/// `(id_a, id_b)` and a responder constructed with `(id_b, id_a)`, sharing the
/// password and session id, derive the same generator bytes; after exchanging
/// their genuine public points they compute the same shared-point model, so
/// either both reject the peer key or neither does; and on success their
/// completed transcripts normalize to the same history, so every extraction
/// of equal length yields byte-for-byte equal output.
pub proof fn lemma_honest_exchange(
    id_a: Seq<u8>,
    id_b: Seq<u8>,
    password: Seq<u8>,
    session_id: Seq<u8>,
    seed_a: Seq<u8>,
    seed_b: Seq<u8>,
    n: nat,
)
    ensures
        ({
            let g_a = generator_bytes(Role::INITIATOR, id_a, id_b, password, session_id);
            let g_b = generator_bytes(Role::RESPONDER, id_b, id_a, password, session_id);
            let y_a = public_point(g_a, seed_a);
            let y_b = public_point(g_b, seed_b);
            let k_a = shared_point(y_b, seed_a);
            let k_b = shared_point(y_a, seed_b);
            let t_a = full_hist(
                Role::INITIATOR,
                id_a,
                id_b,
                password,
                session_id,
                y_a,
                y_b,
                k_a,
            );
            let t_b = full_hist(
                Role::RESPONDER,
                id_b,
                id_a,
                password,
                session_id,
                y_b,
                y_a,
                k_b,
            );
            &&& g_a == g_b
            &&& k_a == k_b
            &&& point_is_identity(k_a) == point_is_identity(k_b)
            &&& normalized(t_a) == normalized(t_b)
            &&& extract_bytes(normalized(t_a), n) == extract_bytes(normalized(t_b), n)
        }),
{
    lemma_normalized_setup_absorb(id_a, id_b, password, session_id);
    lemma_normalized_setup_absorb(id_b, id_a, password, session_id);
    let g = generator_bytes(Role::INITIATOR, id_a, id_b, password, session_id);
    let y_a = public_point(g, seed_a);
    let y_b = public_point(g, seed_b);
    let k_a = shared_point(y_b, seed_a);
    let k_b = shared_point(y_a, seed_b);
    assert(k_a.factors =~= k_b.factors);
    assert(k_a =~= k_b);
    lemma_normalized_full_initiator(id_a, id_b, password, session_id, y_a, y_b, k_a);
    lemma_normalized_full_responder(id_b, id_a, password, session_id, y_b, y_a, k_b);
}

/// Two histories that disagree at some position are different histories.
proof fn lemma_differ_at(a: Seq<TOp>, b: Seq<TOp>, i: int)
    requires
        0 <= i < a.len(),
        0 <= i < b.len(),
        a[i] != b[i],
    ensures
        a != b,
{
    if a == b {
        assert(a[i] == b[i]);
    }
}

/// Password sensitivity. If the two sides key their transcripts with
/// different passwords, their completed histories diverge no matter which
/// identities, session id, or points the run carries, so their extracted
/// outputs bear no stated relation to one another.
pub proof fn lemma_password_sensitivity(
    id_a: Seq<u8>,
    id_b: Seq<u8>,
    password_a: Seq<u8>,
    password_b: Seq<u8>,
    session_id: Seq<u8>,
    y_a: PointModel,
    y_b: PointModel,
    k_a: PointModel,
    k_b: PointModel,
)
    requires
        password_a != password_b,
    ensures
        normalized(full_hist(Role::INITIATOR, id_a, id_b, password_a, session_id, y_a, y_b, k_a))
            != normalized(
            full_hist(Role::RESPONDER, id_b, id_a, password_b, session_id, y_b, y_a, k_b),
        ),
{
    lemma_normalized_full_initiator(id_a, id_b, password_a, session_id, y_a, y_b, k_a);
    lemma_normalized_full_responder(id_b, id_a, password_b, session_id, y_b, y_a, k_b);
    let t_a = full_hist(Role::INITIATOR, id_a, id_b, password_a, session_id, y_a, y_b, k_a);
    let t_b = full_hist(Role::INITIATOR, id_a, id_b, password_b, session_id, y_a, y_b, k_b);
    lemma_full_hist_shape(Role::INITIATOR, id_a, id_b, password_a, session_id, y_a, y_b, k_a);
    lemma_full_hist_shape(Role::INITIATOR, id_a, id_b, password_b, session_id, y_a, y_b, k_b);
    lemma_differ_at(t_a, t_b, 4);
}

/// Identity sensitivity. If the responder's identities are not exactly the
/// initiator's pair bound to the opposite role, the completed histories
/// diverge, whatever points the run carries.
pub proof fn lemma_identity_sensitivity(
    id_a: Seq<u8>,
    id_b: Seq<u8>,
    other_local: Seq<u8>,
    other_remote: Seq<u8>,
    password: Seq<u8>,
    session_id: Seq<u8>,
    y_a: PointModel,
    y_b: PointModel,
    k_a: PointModel,
    k_b: PointModel,
)
    requires
        other_local != id_b || other_remote != id_a,
    ensures
        normalized(full_hist(Role::INITIATOR, id_a, id_b, password, session_id, y_a, y_b, k_a))
            != normalized(
            full_hist(Role::RESPONDER, other_local, other_remote, password, session_id, y_b, y_a, k_b),
        ),
{
    lemma_normalized_full_initiator(id_a, id_b, password, session_id, y_a, y_b, k_a);
    lemma_normalized_full_responder(
        other_local,
        other_remote,
        password,
        session_id,
        y_b,
        y_a,
        k_b,
    );
    let t_a = full_hist(Role::INITIATOR, id_a, id_b, password, session_id, y_a, y_b, k_a);
    let t_b = full_hist(
        Role::INITIATOR,
        other_remote,
        other_local,
        password,
        session_id,
        y_a,
        y_b,
        k_b,
    );
    lemma_full_hist_shape(Role::INITIATOR, id_a, id_b, password, session_id, y_a, y_b, k_a);
    lemma_full_hist_shape(
        Role::INITIATOR,
        other_remote,
        other_local,
        password,
        session_id,
        y_a,
        y_b,
        k_b,
    );
    if other_remote != id_a {
        lemma_differ_at(t_a, t_b, 1);
    } else {
        lemma_differ_at(t_a, t_b, 2);
    }
}

/// Session-id sensitivity. If the two sides absorb different session ids —
/// an empty id and a present one included — their completed histories
/// diverge, whatever points the run carries.
pub proof fn lemma_session_id_sensitivity(
    id_a: Seq<u8>,
    id_b: Seq<u8>,
    password: Seq<u8>,
    session_id_a: Seq<u8>,
    session_id_b: Seq<u8>,
    y_a: PointModel,
    y_b: PointModel,
    k_a: PointModel,
    k_b: PointModel,
)
    requires
        session_id_a != session_id_b,
    ensures
        normalized(full_hist(Role::INITIATOR, id_a, id_b, password, session_id_a, y_a, y_b, k_a))
            != normalized(
            full_hist(Role::RESPONDER, id_b, id_a, password, session_id_b, y_b, y_a, k_b),
        ),
{
    lemma_normalized_full_initiator(id_a, id_b, password, session_id_a, y_a, y_b, k_a);
    lemma_normalized_full_responder(id_b, id_a, password, session_id_b, y_b, y_a, k_b);
    let t_a = full_hist(Role::INITIATOR, id_a, id_b, password, session_id_a, y_a, y_b, k_a);
    let t_b = full_hist(Role::INITIATOR, id_a, id_b, password, session_id_b, y_a, y_b, k_b);
    lemma_full_hist_shape(Role::INITIATOR, id_a, id_b, password, session_id_a, y_a, y_b, k_a);
    lemma_full_hist_shape(Role::INITIATOR, id_a, id_b, password, session_id_b, y_a, y_b, k_b);
    lemma_differ_at(t_a, t_b, 3);
}

/// Reflection resistance. A party that runs one session in each role with the
/// same identity pair — the situation an attacker creates by echoing the
/// party's own points and messages back as if they came from the peer —
/// produces two transcripts whose histories diverge whenever the two
/// identities differ: the fixed role forces the echoed identity into the
/// wrong slot, so the role-swapped self-exchange shares no transcript with a
/// genuine exchange.
pub proof fn lemma_reflection_resistance(
    local_id: Seq<u8>,
    remote_id: Seq<u8>,
    password: Seq<u8>,
    session_id: Seq<u8>,
    seed_send: Seq<u8>,
    seed_recv: Seq<u8>,
)
    requires
        local_id != remote_id,
    ensures
        ({
            let y_send = public_point(
                generator_bytes(Role::INITIATOR, local_id, remote_id, password, session_id),
                seed_send,
            );
            let y_recv = public_point(
                generator_bytes(Role::RESPONDER, local_id, remote_id, password, session_id),
                seed_recv,
            );
            normalized(
                full_hist(
                    Role::INITIATOR,
                    local_id,
                    remote_id,
                    password,
                    session_id,
                    y_send,
                    y_recv,
                    shared_point(y_recv, seed_send),
                ),
            ) != normalized(
                full_hist(
                    Role::RESPONDER,
                    local_id,
                    remote_id,
                    password,
                    session_id,
                    y_recv,
                    y_send,
                    shared_point(y_send, seed_recv),
                ),
            )
        }),
{
    let y_send = public_point(
        generator_bytes(Role::INITIATOR, local_id, remote_id, password, session_id),
        seed_send,
    );
    let y_recv = public_point(
        generator_bytes(Role::RESPONDER, local_id, remote_id, password, session_id),
        seed_recv,
    );
    let k_send = shared_point(y_recv, seed_send);
    let k_recv = shared_point(y_send, seed_recv);
    lemma_normalized_full_initiator(
        local_id,
        remote_id,
        password,
        session_id,
        y_send,
        y_recv,
        k_send,
    );
    lemma_normalized_full_responder(
        local_id,
        remote_id,
        password,
        session_id,
        y_recv,
        y_send,
        k_recv,
    );
    let t_a = full_hist(
        Role::INITIATOR,
        local_id,
        remote_id,
        password,
        session_id,
        y_send,
        y_recv,
        k_send,
    );
    let t_b = full_hist(
        Role::INITIATOR,
        remote_id,
        local_id,
        password,
        session_id,
        y_send,
        y_recv,
        k_recv,
    );
    lemma_full_hist_shape(
        Role::INITIATOR,
        local_id,
        remote_id,
        password,
        session_id,
        y_send,
        y_recv,
        k_send,
    );
    lemma_full_hist_shape(
        Role::INITIATOR,
        remote_id,
        local_id,
        password,
        session_id,
        y_send,
        y_recv,
        k_recv,
    );
    lemma_differ_at(t_a, t_b, 1);
}

} // verus!
