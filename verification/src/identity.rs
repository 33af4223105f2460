//! Ed25519 key material and the keypair derived from it.
//!
//! The cryptography itself is performed by `libp2p`; this module keeps
//! the secret as plain bytes with its length invariant, and names the
//! derived values so that every caller's contract can speak of them.

use vstd::prelude::*;
use vstd::slice::slice_to_vec;
use zeroize::Zeroize;

use crate::error::Error;

verus! {

/// The public key that Ed25519 derives from a 32-byte secret key.
/// The derivation is a pure function of the secret bytes.
pub uninterp spec fn ed25519_public_of(sk: Seq<u8>) -> Seq<u8>;

/// The base58-encoded peer identifier that libp2p derives from an
/// Ed25519 public key. The derivation is a pure function of the
/// public key bytes.
pub uninterp spec fn peer_id_of(pk: Seq<u8>) -> Seq<char>;

/// Relies on `libp2p::identity::ed25519::SecretKey::generate`: draws a
/// fresh 32-byte secret from the operating system's randomness. Nothing
/// is promised of the value beyond its length.
#[verifier::external_body]
fn ed25519_generate() -> (r: Vec<u8>)
    ensures
        r@.len() == 32,
{
    let sk = libp2p::identity::ed25519::SecretKey::generate();
    sk.as_ref().to_vec()
}

/// Relies on `libp2p::identity::ed25519::Keypair::from` over a secret
/// key built with `SecretKey::try_from_bytes` (which accepts every
/// 32-byte slice): the compressed public key is derived
/// deterministically from the secret bytes and is 32 bytes long.
#[verifier::external_body]
fn ed25519_derive_public(sk: &Vec<u8>) -> (r: Vec<u8>)
    requires
        sk@.len() == 32,
    ensures
        r@ == ed25519_public_of(sk@),
        r@.len() == 32,
{
    let mut buf = sk.clone();
    let secret = libp2p::identity::ed25519::SecretKey::try_from_bytes(buf.as_mut_slice())
        .expect("every 32 byte string is an Ed25519 secret key");
    let keypair = libp2p::identity::ed25519::Keypair::from(secret);
    keypair.public().to_bytes().to_vec()
}

/// Relies on `libp2p::identity::PeerId::to_base58` over
/// `PublicKey::to_peer_id`: the peer identifier is derived
/// deterministically from the public key, which is itself derived
/// from the secret bytes as in `ed25519_derive_public`.
#[verifier::external_body]
fn ed25519_peer_id(sk: &Vec<u8>) -> (r: String)
    requires
        sk@.len() == 32,
    ensures
        r@ == peer_id_of(ed25519_public_of(sk@)),
{
    let mut buf = sk.clone();
    let secret = libp2p::identity::ed25519::SecretKey::try_from_bytes(buf.as_mut_slice())
        .expect("every 32 byte string is an Ed25519 secret key");
    let keypair = libp2p::identity::ed25519::Keypair::from(secret);
    let public = libp2p::identity::PublicKey::from(keypair.public());
    public.to_peer_id().to_base58()
}

/// Relies on `zeroize::Zeroize for Vec<u8>`: overwrites the vector's
/// whole capacity with zeroes, in a way the compiler will not optimize
/// away, and leaves the vector empty.
#[verifier::external_body]
fn zeroize_vec(v: &mut Vec<u8>)
    ensures
        final(v)@.len() == 0,
{
    v.zeroize();
}

/// Best-effort secure erasure of a transient secret buffer: the buffer
/// is overwritten with zeroes and left empty.
pub fn scrub_secret_buffer(v: &mut Vec<u8>)
    ensures
        final(v)@.len() == 0,
{
    zeroize_vec(v);
}

/// A 32-byte Ed25519 secret key, held as plain bytes.
///
/// There is deliberately no `Debug` on this type: secret material must
/// never reach a log or a debug trace.
#[derive(Clone, PartialEq, Eq)]
pub struct Ed25519SecretKey {
    bytes: Vec<u8>,
}

impl View for Ed25519SecretKey {
    type V = Seq<u8>;

    closed spec fn view(&self) -> Seq<u8> {
        self.bytes@
    }
}

impl Ed25519SecretKey {
    /// Structural validity: an Ed25519 secret key is exactly 32 bytes.
    pub open spec fn wf(&self) -> bool {
        self@.len() == 32
    }

    /// Build a secret key from raw bytes. Succeeds exactly when 32
    /// bytes are given; every 32-byte value is a valid secret key.
    pub fn from_bytes(bytes: Vec<u8>) -> (r: Result<Ed25519SecretKey, Error>)
        ensures
            r is Ok <==> bytes@.len() == 32,
            r matches Ok(k) ==> k@ == bytes@ && k.wf(),
            r matches Err(e) ==> e matches Error::Decode(_),
    {
        if bytes.len() == 32 {
            Ok(Ed25519SecretKey { bytes })
        } else {
            Err(Error::Decode(String::from_str("an Ed25519 secret key must be exactly 32 bytes")))
        }
    }

    /// The raw serialized form of the secret: a copy of its 32 bytes.
    pub fn serialize(&self) -> (r: Vec<u8>)
        ensures
            r@ == self@,
    {
        slice_to_vec(self.bytes.as_slice())
    }

    /// The secret bytes, borrowed.
    pub fn as_bytes(&self) -> (r: &Vec<u8>)
        ensures
            r@ == self@,
    {
        &self.bytes
    }
}

/// An Ed25519 keypair: a secret key together with the public key that
/// the scheme derives from it.
///
/// There is deliberately no `Debug` on this type: it holds secret
/// material.
#[derive(Clone, PartialEq, Eq)]
pub struct Keypair {
    secret: Ed25519SecretKey,
    public: Vec<u8>,
}

impl Keypair {
    /// The secret half, as bytes.
    pub closed spec fn secret_view(&self) -> Seq<u8> {
        self.secret@
    }

    /// The public half, as bytes.
    pub closed spec fn public_view(&self) -> Seq<u8> {
        self.public@
    }

    /// Well-formedness: the public half is exactly what Ed25519
    /// derives from the secret half.
    pub open spec fn wf(&self) -> bool {
        self.secret_view().len() == 32 && self.public_view() == ed25519_public_of(
            self.secret_view(),
        )
    }

    /// Derive the keypair belonging to a secret key. Pure in the
    /// secret: no randomness, no I/O, never fails.
    pub fn from_secret(sk: Ed25519SecretKey) -> (r: Keypair)
        requires
            sk.wf(),
        ensures
            r.wf(),
            r.secret_view() == sk@,
    {
        let public = ed25519_derive_public(sk.as_bytes());
        Keypair { secret: sk, public }
    }

    /// Generate a keypair from a freshly drawn random secret.
    pub fn generate() -> (r: Keypair)
        ensures
            r.wf(),
    {
        let bytes = ed25519_generate();
        let sk = Ed25519SecretKey { bytes };
        Keypair::from_secret(sk)
    }

    /// The secret key.
    pub fn secret(&self) -> (r: &Ed25519SecretKey)
        ensures
            r@ == self.secret_view(),
    {
        &self.secret
    }

    /// The derived public key, as bytes.
    pub fn public_bytes(&self) -> (r: &Vec<u8>)
        ensures
            r@ == self.public_view(),
    {
        &self.public
    }

    /// The stable public identifier of this keypair: the base58
    /// rendering of the libp2p peer id derived from the public key.
    pub fn public_identifier(&self) -> (r: String)
        requires
            self.secret_view().len() == 32,
        ensures
            r@ == peer_id_of(ed25519_public_of(self.secret_view())),
            self.wf() ==> r@ == peer_id_of(self.public_view()),
    {
        ed25519_peer_id(self.secret.as_bytes())
    }
}

/// Keypair derivation is deterministic: two well-formed keypairs over
/// the same secret agree on the public key and on the derived peer
/// identifier.
pub proof fn lemma_keypair_deterministic(a: Keypair, b: Keypair)
    requires
        a.wf(),
        b.wf(),
        a.secret_view() == b.secret_view(),
    ensures
        a.public_view() == b.public_view(),
        peer_id_of(a.public_view()) == peer_id_of(b.public_view()),
{
}

} // verus!
