//! The transcript primitive: a keyed, stateful, order-sensitive duplex object
//! backed by a STROBE protocol instance.
//!
//! Every mutation of a [`Transcript`] is recorded in a ghost history of
//! [`TOp`] values. The pseudorandom output that [`Transcript::extract`]
//! produces is modelled as an uninterpreted function of that history, with the
//! directions of the cleartext operations normalized to the party that
//! transmitted first ([`normalized`]): STROBE keeps a role bit so that a
//! matched `send`/`receive` pair drives both parties' states identically.

use vstd::prelude::*;

use strobe_rs::SecParam;
use strobe_rs::Strobe;

verus! {

#[verifier::external_type_specification]
#[verifier::external_body]
pub struct ExStrobe(Strobe);

/// One operation applied to a transcript, with the bytes it absorbed or the
/// amount of output it produced.
#[verifier::ext_equal]
pub enum TOp {
    /// Initialization with a protocol domain label.
    Label(Seq<u8>),
    /// Associated data.
    Ad(Seq<u8>),
    /// A rekey event.
    Key(Seq<u8>),
    /// Cleartext recorded as sent by this party.
    Send(Seq<u8>),
    /// Cleartext recorded as received from the peer.
    Recv(Seq<u8>),
    /// Extraction of pseudorandom output of the given length.
    Prf(nat),
}

/// Whether an operation carries a direction (sent vs. received).
pub open spec fn is_directional(op: TOp) -> bool {
    op is Send || op is Recv
}

/// The same operation with its direction reversed.
pub open spec fn flip(op: TOp) -> TOp {
    match op {
        TOp::Send(data) => TOp::Recv(data),
        TOp::Recv(data) => TOp::Send(data),
        _ => op,
    }
}

/// Whether the first directional operation of the history is a receive.
pub open spec fn first_directional_is_recv(history: Seq<TOp>) -> bool
    decreases history.len(),
{
    if history.len() == 0 {
        false
    } else if is_directional(history[0]) {
        history[0] is Recv
    } else {
        first_directional_is_recv(history.drop_first())
    }
}

/// Every operation of the history with its direction reversed.
pub open spec fn flip_all(history: Seq<TOp>) -> Seq<TOp> {
    Seq::new(history.len(), |i: int| flip(history[i]))
}

/// The history with directions normalized so that the first directional
/// operation reads as a send. Two transcripts whose normalized histories agree
/// have been driven through states that absorbed identical bytes: the duplex
/// tracks only whether each datum moved with or against the direction of the
/// session's first transmission, not who performed the call.
pub open spec fn normalized(history: Seq<TOp>) -> Seq<TOp> {
    if first_directional_is_recv(history) {
        flip_all(history)
    } else {
        history
    }
}

/// The pseudorandom bytes that extraction yields: a pure function of the
/// normalized operation history and the requested length.
pub uninterp spec fn extract_bytes(history: Seq<TOp>, n: nat) -> Seq<u8>;

/// A keyed transcript. It absorbs associated data, keys, and directional
/// cleartext, and extracts pseudorandom output that depends on everything
/// absorbed before, in order.
pub struct Transcript {
    inner: Strobe,
    history: Ghost<Seq<TOp>>,
}

impl View for Transcript {
    type V = Seq<TOp>;

    closed spec fn view(&self) -> Seq<TOp> {
        self.history@
    }
}

impl Transcript {
    /// Starts a transcript under a protocol domain label.
    ///
    /// Relies on `strobe_rs::Strobe::new`: it initializes the duplex state as
    /// a deterministic function of the label (absorbed as metadata) and the
    /// security parameter, which is fixed here at 256 bits for every
    /// transcript this library creates.
    #[verifier::external_body]
    pub fn new(label: &[u8]) -> (t: Transcript)
        ensures
            t@ == seq![TOp::Label(label@)],
    {
        Transcript { inner: Strobe::new(label, SecParam::B256), history: Ghost(arbitrary()) }
    }

    /// Absorbs associated data.
    ///
    /// Relies on `strobe_rs::Strobe::ad` (with `more = false`): one complete
    /// associated-data operation, deterministic in the bytes absorbed, with no
    /// direction.
    #[verifier::external_body]
    pub fn absorb_associated_data(&mut self, data: &[u8])
        ensures
            final(self)@ == old(self)@.push(TOp::Ad(data@)),
    {
        self.inner.ad(data, false);
    }

    /// Rekeys the transcript.
    ///
    /// Relies on `strobe_rs::Strobe::key` (with `more = false`): one complete
    /// key operation, deterministic in the bytes absorbed, with no direction.
    #[verifier::external_body]
    pub fn absorb_key(&mut self, data: &[u8])
        ensures
            final(self)@ == old(self)@.push(TOp::Key(data@)),
    {
        self.inner.key(data, false);
    }

    /// Records cleartext as sent by this party.
    ///
    /// Relies on `strobe_rs::Strobe::send_clr` (with `more = false`): one
    /// complete outbound cleartext operation, deterministic in the bytes
    /// absorbed and in this party's role bit, which is fixed by the first
    /// directional operation.
    #[verifier::external_body]
    pub fn send_cleartext(&mut self, data: &[u8])
        ensures
            final(self)@ == old(self)@.push(TOp::Send(data@)),
    {
        self.inner.send_clr(data, false);
    }

    /// Records cleartext as received from the peer.
    ///
    /// Relies on `strobe_rs::Strobe::recv_clr` (with `more = false`): one
    /// complete inbound cleartext operation, deterministic in the bytes
    /// absorbed and in this party's role bit, which is fixed by the first
    /// directional operation.
    #[verifier::external_body]
    pub fn receive_cleartext(&mut self, data: &[u8])
        ensures
            final(self)@ == old(self)@.push(TOp::Recv(data@)),
    {
        self.inner.recv_clr(data, false);
    }

    /// Extracts `n` bytes of pseudorandom output.
    ///
    /// Relies on `strobe_rs::Strobe::prf` (with `more = false`): the output is
    /// a deterministic function of the duplex state and the requested length,
    /// and that state is in turn a function of the label, the fixed security
    /// parameter, and the operations performed so far. STROBE's role handling
    /// makes a send by one party and a receive of the same bytes by the other
    /// absorb identical flag bytes, so the state depends only on the history
    /// with directions normalized to the first transmitter, which is what
    /// [`extract_bytes`] names.
    #[verifier::external_body]
    pub fn extract(&mut self, n: usize) -> (out: Vec<u8>)
        ensures
            final(self)@ == old(self)@.push(TOp::Prf(n as nat)),
            out@ == extract_bytes(normalized(old(self)@), n as nat),
            out@.len() == n,
    {
        let mut buf = vec![0u8; n];
        self.inner.prf(&mut buf, false);
        buf
    }
}

} // verus!
