//! A password-authenticated key exchange (PAKE) in the CPace style: a
//! Diffie-Hellman exchange over the prime-order ristretto255 group whose base
//! point is derived from a password-keyed STROBE transcript, so that the two
//! parties obtain a mutually authenticated session key and an attacker gets at
//! most one password guess per online exchange.

pub mod exchange;
pub mod group;
pub mod laws;
pub mod transcript;

pub use exchange::Exchanger;
pub use exchange::InvalidPeerKey;
pub use exchange::Role;

pub use group::GroupPoint;
pub use group::PointBase;
pub use group::PointModel;
pub use group::decode_point;
pub use group::encode_point;
pub use group::point_from_uniform_bytes;
pub use transcript::TOp;
pub use transcript::Transcript;
