//! Salt policies: the extra bytes submitted with an instantiation so that
//! identical code and input can be deployed more than once.
use vstd::prelude::*;
use parity_scale_codec::Encode;

verus! {

/// What the execution context's hash function (BLAKE2b with a 256-bit
/// digest) gives for `data`.
pub uninterp spec fn blake2_256_of(data: Seq<u8>) -> Seq<u8>;

/// The SCALE encoding of a `u32`: four bytes, least significant first.
pub open spec fn le_u32(n: u32) -> Seq<u8> {
    seq![n as u8, (n >> 8u32) as u8, (n >> 16u32) as u8, (n >> 24u32) as u8]
}

/// The SCALE encoding of a byte string shorter than 64 bytes: a one-byte
/// compact length (the length shifted left by two), then the bytes.
pub open spec fn short_scale_bytes(b: Seq<u8>) -> Seq<u8>
    recommends
        b.len() < 64,
{
    seq![(b.len() * 4) as u8] + b
}

/// Relies on parity-scale-codec's `Encode` for `u32`: its four bytes in
/// little-endian order.
#[verifier::external_body]
fn encode_u32(n: u32) -> (r: Vec<u8>)
    ensures
        r@ == le_u32(n),
{
    n.encode()
}

/// Relies on parity-scale-codec's `Encode` for `Vec<u8>`: a compact length,
/// which below 64 is the single byte `len << 2`, then the bytes.
#[verifier::external_body]
fn encode_bytes(b: &Vec<u8>) -> (r: Vec<u8>)
    requires
        b@.len() < 64,
    ensures
        r@ == short_scale_bytes(b@),
{
    b.encode()
}

/// Relies on parity-scale-codec's `Encode` for `[u8; 32]`: the bytes
/// themselves, with no length.
#[verifier::external_body]
pub(crate) fn encode_array32(a: &[u8; 32]) -> (r: Vec<u8>)
    ensures
        r@ == a@,
{
    a.encode()
}

/// Relies on `sp_core_hashing::blake2_256`: the 256-bit BLAKE2b digest of
/// `data`, a function of `data` alone.
#[verifier::external_body]
fn blake2_256(data: &Vec<u8>) -> (r: [u8; 32])
    ensures
        r@ == blake2_256_of(data@),
{
    sp_core_hashing::blake2_256(data)
}

/// Relies on `rand::random` for `[u8; 32]`: 32 bytes from the thread-local
/// generator; nothing is promised of their values.
#[verifier::external_body]
fn random_32() -> (r: [u8; 32]) {
    rand::random::<[u8; 32]>()
}

/// How the salt of an instantiation is chosen.
#[derive(Debug, Clone, Copy, PartialEq, Eq, Structural)]
pub enum SaltPolicy {
    /// No salt at all.
    Empty,
    /// The deployer's current transaction counter, encoded.
    Nonce,
    /// 32 random bytes, encoded with their length.
    Random,
    /// The digest of the constructor input itself, encoded.
    HashDerived,
}

/// Whether `salt` is one that `policy` may give for constructor input
/// `input` while the deployer's counter stands at `nonce`.
pub open spec fn is_salt_for(policy: SaltPolicy, input: Seq<u8>, nonce: u32, salt: Seq<u8>) -> bool {
    match policy {
        SaltPolicy::Empty => salt == Seq::<u8>::empty(),
        SaltPolicy::Nonce => salt == le_u32(nonce),
        SaltPolicy::Random => exists|e: Seq<u8>|
            e.len() == 32 && salt == #[trigger] short_scale_bytes(e),
        SaltPolicy::HashDerived => salt == blake2_256_of(input),
    }
}

/// The salt that the random policy submits for the 32 bytes `entropy`.
pub fn random_salt_from(entropy: &[u8; 32]) -> (r: Vec<u8>)
    ensures
        r@ == short_scale_bytes(entropy@),
{
    let raw = encode_array32(entropy);
    encode_bytes(&raw)
}

/// The salt that the hash-derived policy submits for a 32-byte digest.
pub fn digest_salt_from(digest: &[u8; 32]) -> (r: Vec<u8>)
    ensures
        r@ == digest@,
{
    encode_array32(digest)
}

impl SaltPolicy {
    /// Draws the salt for an instantiation whose constructor input is `input`,
    /// with the deployer's counter at `nonce`.
    pub fn next_salt(&self, input: &Vec<u8>, nonce: u32) -> (r: Vec<u8>)
        ensures
            is_salt_for(*self, input@, nonce, r@),
    {
        match self {
            SaltPolicy::Empty => Vec::new(),
            SaltPolicy::Nonce => encode_u32(nonce),
            SaltPolicy::Random => {
                let entropy = random_32();
                let r = random_salt_from(&entropy);
                assert(short_scale_bytes(entropy@) == r@);
                r
            },
            SaltPolicy::HashDerived => {
                let digest = blake2_256(input);
                digest_salt_from(&digest)
            },
        }
    }
}

/// The empty policy gives one and the same salt, the empty one, whatever the
/// input and the counter.
pub proof fn lemma_empty_salt_is_constant(
    input1: Seq<u8>,
    nonce1: u32,
    salt1: Seq<u8>,
    input2: Seq<u8>,
    nonce2: u32,
    salt2: Seq<u8>,
)
    requires
        is_salt_for(SaltPolicy::Empty, input1, nonce1, salt1),
        is_salt_for(SaltPolicy::Empty, input2, nonce2, salt2),
    ensures
        salt1 == salt2,
        salt1.len() == 0,
{
}

/// Under the nonce policy, draws made at different counter values differ,
/// whatever the inputs.
pub proof fn lemma_nonce_salts_differ(
    input1: Seq<u8>,
    nonce1: u32,
    salt1: Seq<u8>,
    input2: Seq<u8>,
    nonce2: u32,
    salt2: Seq<u8>,
)
    requires
        nonce1 != nonce2,
        is_salt_for(SaltPolicy::Nonce, input1, nonce1, salt1),
        is_salt_for(SaltPolicy::Nonce, input2, nonce2, salt2),
    ensures
        salt1 != salt2,
{
    if salt1 == salt2 {
        assert(salt1[0] == salt2[0] && salt1[1] == salt2[1] && salt1[2] == salt2[2] && salt1[3]
            == salt2[3]);
        assert((nonce1 as u8 == nonce2 as u8 && (nonce1 >> 8u32) as u8 == (nonce2 >> 8u32) as u8
            && (nonce1 >> 16u32) as u8 == (nonce2 >> 16u32) as u8 && (nonce1 >> 24u32) as u8 == (
        nonce2 >> 24u32) as u8) ==> nonce1 == nonce2) by (bit_vector);
    }
}

/// Under the hash-derived policy every salt is the digest of exactly the
/// constructor input it was drawn for, so two draws for one input agree.
pub proof fn lemma_hash_salt_follows_input(
    input: Seq<u8>,
    nonce1: u32,
    salt1: Seq<u8>,
    nonce2: u32,
    salt2: Seq<u8>,
)
    requires
        is_salt_for(SaltPolicy::HashDerived, input, nonce1, salt1),
        is_salt_for(SaltPolicy::HashDerived, input, nonce2, salt2),
    ensures
        salt1 == blake2_256_of(input),
        salt1 == salt2,
{
}

} // verus!
