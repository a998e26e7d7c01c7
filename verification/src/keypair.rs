//! The program keypair of a new project: an ed25519 key, its public key in
//! base58 as the program id, and both keys as the JSON byte array the Solana
//! CLI reads.
use vstd::prelude::*;
use crate::text::decimal;

verus! {

/// The Bitcoin base58 alphabet.
pub const BASE58_ALPHABET: &'static str = "123456789ABCDEFGHJKLMNPQRSTUVWXYZabcdefghijkmnopqrstuvwxyz";

/// The number whose big-endian base-256 digits are `bytes`.
pub open spec fn be_value(bytes: Seq<u8>) -> nat
    decreases bytes.len(),
{
    if bytes.len() == 0 {
        0
    } else {
        be_value(bytes.drop_last()) * 256 + bytes.last() as nat
    }
}

/// The base58 digits of `n`, most significant first (none for 0).
pub open spec fn base58_digits(n: nat) -> Seq<char>
    decreases n,
{
    if n == 0 {
        seq![]
    } else {
        base58_digits(n / 58) + seq![BASE58_ALPHABET@[(n % 58) as int]]
    }
}

/// The number of zero bytes that `bytes` starts with.
pub open spec fn leading_zeros(bytes: Seq<u8>) -> nat
    decreases bytes.len(),
{
    if bytes.len() > 0 && bytes[0] == 0 {
        1 + leading_zeros(bytes.drop_first())
    } else {
        0
    }
}

/// Base58 with the Bitcoin alphabet: a `1` for each leading zero byte, then
/// the base58 digits of the bytes read as a big-endian number.
pub open spec fn bs58_encoding(bytes: Seq<u8>) -> Seq<char> {
    Seq::new(leading_zeros(bytes), |i: int| '1') + base58_digits(be_value(bytes))
}

/// The decimal numbers of `bytes`, separated by commas.
pub open spec fn decimals_joined(bytes: Seq<u8>) -> Seq<char>
    decreases bytes.len(),
{
    if bytes.len() == 0 {
        seq![]
    } else if bytes.len() == 1 {
        decimal(bytes[0] as nat)
    } else {
        decimals_joined(bytes.drop_last()) + seq![','] + decimal(bytes.last() as nat)
    }
}

/// A byte array in compact JSON: `[1,2,3]`.
pub open spec fn json_byte_array(bytes: Seq<u8>) -> Seq<char> {
    seq!['['] + decimals_joined(bytes) + seq![']']
}

/// The ed25519 public key of a 32-byte secret key.
pub uninterp spec fn ed25519_public_key(secret: Seq<u8>) -> Seq<u8>;

/// `bs58::encode(bytes).into_string()`: base58 with the Bitcoin alphabet
/// (the crate's default), as `bs58_encoding` states it.
#[verifier::external_body]
fn bs58_encode(bytes: &Vec<u8>) -> (s: String)
    ensures
        s@ == bs58_encoding(bytes@),
{
    bs58::encode(bytes).into_string()
}

/// `SigningKey::generate` from `ed25519_dalek` with the thread's random
/// generator: 32 random secret-key bytes. Nothing is claimed of the bytes.
#[verifier::external_body]
fn random_secret_key() -> (secret: Vec<u8>)
    ensures
        secret@.len() == 32,
{
    ed25519_dalek::SigningKey::generate(&mut rand::thread_rng()).to_bytes().to_vec()
}

/// `SigningKey::verifying_key` from `ed25519_dalek`: the 32-byte public key
/// of a secret key, named `ed25519_public_key`.
#[verifier::external_body]
fn verifying_key(secret: &Vec<u8>) -> (public: Vec<u8>)
    requires
        secret@.len() == 32,
    ensures
        public@ == ed25519_public_key(secret@),
        public@.len() == 32,
{
    let bytes: [u8; 32] = secret.as_slice().try_into().unwrap();
    ed25519_dalek::SigningKey::from_bytes(&bytes).verifying_key().to_bytes().to_vec()
}

#[verifier::external_type_specification]
#[verifier::external_body]
pub struct ExJsonError(serde_json::Error);

/// `serde_json::to_string` of a byte vector: the compact JSON array of the
/// bytes. It fails only when a `Serialize` impl fails, a map has non-string
/// keys, or writing fails; a byte vector serialises as a sequence of
/// integers written into an in-memory buffer, so none of these happens.
#[verifier::external_body]
fn json_of_bytes(bytes: &Vec<u8>) -> (r: Result<String, serde_json::Error>)
    ensures
        r is Ok,
        r matches Ok(s) ==> s@ == json_byte_array(bytes@),
{
    serde_json::to_string(bytes)
}

/// A program's keys as a new project stores them.
pub struct ProgramKeypair {
    /// The public key in base58.
    pub program_id: String,
    /// Secret then public key, as a JSON array of 64 numbers.
    pub keypair_json: String,
}

/// The JSON serialiser refused the key bytes.
#[derive(Debug)]
pub struct KeypairJsonError;

pub open spec fn keypair_of(secret: Seq<u8>, k: ProgramKeypair) -> bool {
    &&& k.program_id@ == bs58_encoding(ed25519_public_key(secret))
    &&& k.keypair_json@ == json_byte_array(secret + ed25519_public_key(secret))
}

/// The program id and the stored keypair of a secret key.
pub fn program_keypair(secret: &Vec<u8>) -> (r: Result<ProgramKeypair, KeypairJsonError>)
    requires
        secret@.len() == 32,
    ensures
        r matches Ok(k) && keypair_of(secret@, k),
{
    let public = verifying_key(secret);
    let program_id = bs58_encode(&public);
    let mut bytes: Vec<u8> = Vec::new();
    let mut i: usize = 0;
    while i < 32
        invariant
            secret@.len() == 32,
            i <= 32,
            bytes@ == secret@.take(i as int),
        decreases 32 - i,
    {
        bytes.push(secret[i]);
        i = i + 1;
        assert(bytes@ =~= secret@.take(i as int));
    }
    let mut j: usize = 0;
    while j < 32
        invariant
            secret@.len() == 32,
            public@.len() == 32,
            j <= 32,
            bytes@ == secret@ + public@.take(j as int),
        decreases 32 - j,
    {
        bytes.push(public[j]);
        j = j + 1;
        assert(bytes@ =~= secret@ + public@.take(j as int));
    }
    assert(secret@.take(32) =~= secret@);
    assert(public@.take(32) =~= public@);
    match json_of_bytes(&bytes) {
        Ok(keypair_json) => Ok(ProgramKeypair { program_id, keypair_json }),
        Err(_) => Err(KeypairJsonError),
    }
}

/// A fresh program keypair from a random secret key.
pub fn generate_program_keypair() -> (r: Result<ProgramKeypair, KeypairJsonError>)
    ensures
        r matches Ok(k) && exists|secret: Seq<u8>| secret.len() == 32 && keypair_of(secret, k),
{
    let secret = random_secret_key();
    program_keypair(&secret)
}

} // verus!
