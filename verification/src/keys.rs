//! Key derivation and signing primitives: seeds, deterministic ed25519
//! keypairs derived from them, child-seed derivation, and the signature
//! operations the registry protocol builds on.

use vstd::prelude::*;
use crate::encoding::extend_bytes;

verus! {

/// An ed25519 keypair. The public key is safe to share; the private key is a
/// secret for its entire lifetime, and holds the 64-byte form (seed followed
/// by public key) that the signature operations expect.
#[derive(Debug)]
pub struct KeyPair {
    pub public_key: [u8; 32],
    pub private_key: [u8; 64],
}

/// What the key-stretching step returns for a seed: 32 bytes of PBKDF2 with
/// HMAC-SHA-256, an empty salt and 1000 rounds.
pub uninterp spec fn kdf_of(seed: Seq<u8>) -> Seq<u8>;

/// What ed25519 key generation returns for a 32-byte seed: the 64-byte secret
/// key, then the 32-byte public key.
pub uninterp spec fn ed25519_keypair_of(seed: Seq<u8>) -> (Seq<u8>, Seq<u8>);

/// What deterministic ed25519 signing returns over a message and a 64-byte
/// secret key.
pub uninterp spec fn ed25519_sign_of(message: Seq<u8>, secret_key: Seq<u8>) -> Seq<u8>;

/// What ed25519 verification returns for a message, public key and signature.
pub uninterp spec fn ed25519_verify_of(
    message: Seq<u8>,
    public_key: Seq<u8>,
    signature: Seq<u8>,
) -> bool;

/// What a BLAKE2b digest of `out_len` bytes returns over `data`.
pub uninterp spec fn blake2b_of(out_len: nat, data: Seq<u8>) -> Seq<u8>;

/// The signature was honestly produced: some 32-byte seed expands to a keypair
/// whose public half is `public_key` and whose secret half signed `message`
/// into `signature`.
pub open spec fn genuinely_signed(
    message: Seq<u8>,
    public_key: Seq<u8>,
    signature: Seq<u8>,
) -> bool {
    exists|seed: Seq<u8>|
        #![trigger ed25519_keypair_of(seed)]
        seed.len() == 32 && signature.len() == 64 && public_key == ed25519_keypair_of(seed).1
            && signature == ed25519_sign_of(message, ed25519_keypair_of(seed).0)
}

/// The keypair that a seed of any length deterministically derives: the seed
/// is stretched to 32 bytes, then expanded by ed25519 key generation.
pub open spec fn derived_keypair(seed: Seq<u8>) -> (Seq<u8>, Seq<u8>) {
    ed25519_keypair_of(kdf_of(seed))
}

pub assume_specification<T>[ rand::random::<T> ]() -> (r: T)
    where
        rand::distributions::Standard: rand::distributions::Distribution<T>,
;

/// Relies on Blake2b with the digest interface (crate rust-crypto): a digest
/// of `out_len` bytes over `data`, a function of its arguments alone. Output
/// lengths outside 1..=64 make the call panic.
#[verifier::external_body]
pub(crate) fn blake2b_hash(out_len: usize, data: &[u8]) -> (r: Vec<u8>)
    requires
        1 <= out_len <= 64,
    ensures
        r@ == blake2b_of(out_len as nat, data@),
        r@.len() == out_len,
{
    let mut hasher = crypto::blake2b::Blake2b::new(out_len);
    crypto::digest::Digest::input(&mut hasher, data);
    let mut out = vec![0u8; out_len];
    crypto::digest::Digest::result(&mut hasher, &mut out);
    out
}

/// Relies on pbkdf2 with an Hmac over Sha256 (crate rust-crypto): fills the
/// 32-byte output from the seed with an empty salt and 1000 rounds, a
/// function of the seed alone.
#[verifier::external_body]
fn kdf_stretch(seed: &[u8]) -> (r: [u8; 32])
    ensures
        r@ == kdf_of(seed@),
{
    let mut mac = crypto::hmac::Hmac::new(crypto::sha2::Sha256::new(), seed);
    let mut derived = [0u8; 32];
    crypto::pbkdf2::pbkdf2(&mut mac, &[], 1000, &mut derived);
    derived
}

/// Relies on ed25519::keypair (crate rust-crypto): expands a 32-byte seed into
/// the 64-byte secret key and the matching public key, a function of the seed
/// alone.
#[verifier::external_body]
fn ed25519_expand_seed(seed: &[u8]) -> (kp: KeyPair)
    requires
        seed@.len() == 32,
    ensures
        kp.private_key@ == ed25519_keypair_of(seed@).0,
        kp.public_key@ == ed25519_keypair_of(seed@).1,
{
    let (private_key, public_key) = crypto::ed25519::keypair(seed);
    KeyPair { public_key, private_key }
}

/// Relies on ed25519::signature (crate rust-crypto): a deterministic ed25519
/// signature over the message, a function of message and secret key alone.
/// Secret keys shorter than 64 bytes make the call panic.
#[verifier::external_body]
pub(crate) fn ed25519_sign(message: &[u8], secret_key: &[u8]) -> (r: Vec<u8>)
    requires
        secret_key@.len() == 64,
    ensures
        r@ == ed25519_sign_of(message@, secret_key@),
        r@.len() == 64,
{
    crypto::ed25519::signature(message, secret_key).to_vec()
}

/// Relies on ed25519::verify (crate rust-crypto): standard ed25519
/// verification, a function of its arguments alone; and on the scheme's
/// correctness as implemented there, by which a signature that
/// `ed25519::signature` made under a secret key from `ed25519::keypair`
/// verifies under the matching public key. Slices shorter than the stated
/// lengths make the call panic.
#[verifier::external_body]
pub(crate) fn ed25519_check(message: &[u8], public_key: &[u8], signature: &[u8]) -> (r: bool)
    requires
        public_key@.len() == 32,
        signature@.len() == 64,
    ensures
        r == ed25519_verify_of(message@, public_key@, signature@),
        genuinely_signed(message@, public_key@, signature@) ==> r,
{
    crypto::ed25519::verify(message, public_key, signature)
}

/// Fills a fresh seed of the requested length from the secure random source.
fn make_seed(length: u32) -> (r: Vec<u8>)
    ensures
        r@.len() == length,
{
    let mut seed: Vec<u8> = Vec::new();
    let mut i: u32 = 0;
    while i < length
        invariant
            i <= length,
            seed@.len() == i,
        decreases length - i,
    {
        let b: u8 = rand::random();
        seed.push(b);
        i = i + 1;
    }
    seed
}

/// Derives the keypair a seed determines: the same seed always yields the
/// same keypair, whatever its length.
pub fn gen_keypair_from_seed(seed: &[u8]) -> (kp: KeyPair)
    ensures
        kp.private_key@ == derived_keypair(seed@).0,
        kp.public_key@ == derived_keypair(seed@).1,
        kdf_of(seed@).len() == 32,
{
    let derived = kdf_stretch(seed);
    ed25519_expand_seed(derived.as_slice())
}

/// Draws a fresh random seed of the given length and derives its keypair.
pub fn gen_keypair_and_seed(length: u32) -> (r: (KeyPair, Vec<u8>))
    ensures
        r.1@.len() == length,
        r.0.private_key@ == derived_keypair(r.1@).0,
        r.0.public_key@ == derived_keypair(r.1@).1,
        kdf_of(r.1@).len() == 32,
{
    let seed = make_seed(length);
    let kp = gen_keypair_from_seed(seed.as_slice());
    (kp, seed)
}

/// Derives a child seed of the master's length from a master seed and a
/// label, by a BLAKE2b digest over the master followed by the label. The
/// child is as long as the master, and distinct labels are meant to yield
/// independent-looking children.
pub fn derive_child_seed(master: &[u8], seed: &[u8]) -> (r: Vec<u8>)
    requires
        1 <= master@.len() <= 64,
    ensures
        r@ == blake2b_of(master@.len(), master@ + seed@),
        r@.len() == master@.len(),
{
    let mut input: Vec<u8> = Vec::new();
    extend_bytes(&mut input, master);
    extend_bytes(&mut input, seed);
    blake2b_hash(master.len(), input.as_slice())
}

/// Deriving a keypair is deterministic: equal seeds always yield equal
/// keypairs.
pub proof fn lemma_derived_keypair_deterministic(s1: Seq<u8>, s2: Seq<u8>)
    requires
        s1 == s2,
    ensures
        derived_keypair(s1) == derived_keypair(s2),
{
}

} // verus!
