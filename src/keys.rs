//! Candidate keypairs and the Base58 text of their halves.
use vstd::prelude::*;

use ed25519_dalek::SigningKey;
use rand_core::OsRng;

verus! {

/// Length in bytes of an Ed25519 secret key, and of a public key.
pub const KEY_LENGTH: usize = 32;

/// Length in bytes of a keypair: the secret key followed by the public key.
pub const KEYPAIR_LENGTH: usize = 64;

/// What `bs58::encode(..).into_string()` returns for the given bytes, with
/// the default (Bitcoin) alphabet.
pub uninterp spec fn base58_of(b: Seq<u8>) -> Seq<char>;

#[verifier::external_type_specification]
#[verifier::external_body]
pub struct ExSigningKey(SigningKey);

/// Relies on `bs58::encode` and `EncodeBuilder::into_string`: the Base58 text
/// of the bytes, which depends on the bytes alone.
#[verifier::external_body]
fn base58_encode(b: &[u8]) -> (r: String)
    ensures
        r@ == base58_of(b@),
{
    bs58::encode(b).into_string()
}

/// Relies on `SigningKey::generate` with the operating system's random source
/// (`rand_core::OsRng`). Nothing is known of the key that comes back.
#[verifier::external_body]
fn generate_signing_key() -> (r: SigningKey) {
    SigningKey::generate(&mut OsRng)
}

/// Relies on `SigningKey::to_keypair_bytes`: 64 bytes, the secret key followed
/// by the bytes of its verifying (public) key.
#[verifier::external_body]
fn to_keypair_bytes(k: &SigningKey) -> (r: Vec<u8>)
    ensures
        r@.len() == KEYPAIR_LENGTH,
{
    k.to_keypair_bytes().to_vec()
}

/// Base58 text of a byte string; the same bytes always give the same text.
pub fn encode_base58(b: &[u8]) -> (r: String)
    ensures
        r@ == base58_of(b@),
{
    base58_encode(b)
}

/// One freshly drawn keypair, with its public key already encoded.
pub struct Candidate {
    keypair: Vec<u8>,
    public_key: String,
}

impl Candidate {
    /// The keypair bytes: secret key, then public key.
    pub closed spec fn keypair_view(&self) -> Seq<u8> {
        self.keypair@
    }

    /// The public half of the keypair.
    pub open spec fn public_bytes(&self) -> Seq<u8> {
        self.keypair_view().subrange(KEY_LENGTH as int, KEYPAIR_LENGTH as int)
    }

    /// The encoded public key.
    pub closed spec fn public_key_view(&self) -> Seq<char> {
        self.public_key@
    }

    /// A candidate holds a full keypair and the encoding of its public half.
    pub open spec fn wf(&self) -> bool {
        &&& self.keypair_view().len() == KEYPAIR_LENGTH
        &&& self.public_key_view() == base58_of(self.public_bytes())
    }

    /// Builds a candidate from the 64 bytes of a keypair.
    pub fn from_keypair_bytes(keypair: Vec<u8>) -> (r: Candidate)
        requires
            keypair@.len() == KEYPAIR_LENGTH,
        ensures
            r.wf(),
            r.keypair_view() == keypair@,
    {
        let public_key = encode_base58(&keypair.as_slice()[KEY_LENGTH..KEYPAIR_LENGTH]);
        Candidate { keypair, public_key }
    }

    /// Draws a fresh keypair from the operating system's random source.
    pub fn generate() -> (r: Candidate)
        ensures
            r.wf(),
    {
        let key = generate_signing_key();
        Candidate::from_keypair_bytes(to_keypair_bytes(&key))
    }

    /// The encoded public key.
    pub fn public_key(&self) -> (r: &str)
        ensures
            r@ == self.public_key_view(),
    {
        self.public_key.as_str()
    }

    /// The Base58 text of the whole keypair, secret half included.
    pub fn encoded_keypair(&self) -> (r: String)
        ensures
            r@ == base58_of(self.keypair_view()),
    {
        encode_base58(self.keypair.as_slice())
    }
}

/// The encoded public key is a function of the public bytes: two candidates
/// with the same public half carry the same text.
pub proof fn lemma_public_key_deterministic(a: &Candidate, b: &Candidate)
    requires
        a.wf(),
        b.wf(),
        a.public_bytes() == b.public_bytes(),
    ensures
        a.public_key_view() == b.public_key_view(),
{
}

} // verus!
