//! Identity material: keypairs and peer identities.
//!
//! Peer identities come from `libp2p_identity`. The types are opaque here;
//! the crate generates keypairs, derives peer ids from public keys and
//! carries the values through. Derivation is deterministic, so the public
//! key and the peer id are named as functions of the key material; what the
//! bytes look like stays the collaborator's business.

use vstd::prelude::*;

verus! {

#[verifier::external_type_specification]
#[verifier::external_body]
pub struct ExKeypair(libp2p_identity::Keypair);

#[verifier::external_type_specification]
#[verifier::external_body]
pub struct ExPublicKey(libp2p_identity::PublicKey);

#[verifier::external_type_specification]
#[verifier::external_body]
pub struct ExPeerId(libp2p_identity::PeerId);

/// The public half of a keypair; a function of the keypair alone.
pub uninterp spec fn public_of(kp: libp2p_identity::Keypair) -> libp2p_identity::PublicKey;

/// The peer id of a public key; a function of the public key alone.
pub uninterp spec fn peer_id_of(pk: libp2p_identity::PublicKey) -> libp2p_identity::PeerId;

/// Relies on libp2p_identity::Keypair::generate_ed25519: a freshly drawn
/// ed25519 keypair. Nothing is promised of a random draw.
pub assume_specification[ libp2p_identity::Keypair::generate_ed25519 ]() -> libp2p_identity::Keypair;

/// Relies on libp2p_identity::Keypair::public: the public half of the
/// keypair, a deterministic read of the key material.
pub assume_specification[ libp2p_identity::Keypair::public ](
    kp: &libp2p_identity::Keypair,
) -> (r: libp2p_identity::PublicKey)
    ensures
        r == public_of(*kp),
;

/// Relies on libp2p_identity::PeerId::from_public_key: the peer id is the
/// multihash of the encoded public key, a deterministic function of it.
pub assume_specification[ libp2p_identity::PeerId::from_public_key ](
    key: &libp2p_identity::PublicKey,
) -> (r: libp2p_identity::PeerId)
    ensures
        r == peer_id_of(*key),
;

/// Relies on the Clone impl of libp2p_identity::Keypair: an owned copy of
/// the same key material.
pub assume_specification[ <libp2p_identity::Keypair as Clone>::clone ](
    kp: &libp2p_identity::Keypair,
) -> (r: libp2p_identity::Keypair)
    ensures
        r == *kp,
;

/// Derives the node identity from its keypair, as node construction does
/// before anything else: the peer id of the keypair's public half.
pub fn derive_peer_id(kp: &libp2p_identity::Keypair) -> (r: libp2p_identity::PeerId)
    ensures
        r == peer_id_of(public_of(*kp)),
{
    let public = kp.public();
    libp2p_identity::PeerId::from_public_key(&public)
}

} // verus!
