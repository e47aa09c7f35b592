use crate::{HASH_SIZE, VoterId};
use blake2::digest::{Update, VariableOutput};
use vstd::prelude::*;
use vstd::string::StringExecFns;

verus! {

/// Signing keypair type of the outside ed25519 library; opaque to the round
/// logic, which only ever hashes its public half.
#[verifier::external_type_specification]
#[verifier::external_body]
pub struct ExKeypair(ed25519_dalek::Keypair);

/// The 16-byte Blake2b digest of a byte string. Left abstract: it depends on
/// the input bytes alone, which is all the identifier contracts need.
pub uninterp spec fn blake2b16_of(input: Seq<u8>) -> Seq<u8>;

/// A participant: its signing keypair and the identifier derived from the
/// keypair's public half. Created once at setup; the keypair is never used to
/// authenticate votes or confirmations.
#[derive(Debug)]
pub struct Voter {
    pub voting_round_signing_key: ed25519_dalek::Keypair,
    pub voter_id: VoterId,
}

/// Relies on ed25519_dalek::Keypair::generate with the operating system's
/// randomness source; nothing is promised of the drawn keypair.
#[verifier::external_body]
pub fn generate_voting_round_signing_key() -> ed25519_dalek::Keypair {
    ed25519_dalek::Keypair::generate(&mut rand_core::OsRng)
}

/// Relies on ed25519_dalek::PublicKey::as_bytes: an ed25519 public key is
/// exactly 32 bytes of key material.
#[verifier::external_body]
fn keypair_public_bytes(keypair: &ed25519_dalek::Keypair) -> (r: Vec<u8>)
    ensures
        r@.len() == 32,
{
    keypair.public.as_bytes().to_vec()
}

/// Relies on blake2::Blake2bVar with a 16-byte output: the digest is a
/// function of the input bytes alone and always has the requested width.
#[verifier::external_body]
fn blake2b_digest_16(input: &Vec<u8>) -> (r: Vec<u8>)
    ensures
        r@ == blake2b16_of(input@),
        r@.len() == HASH_SIZE,
{
    let mut hasher = blake2::Blake2bVar::new(16).unwrap();
    hasher.update(input.as_slice());
    let mut buf = [0u8; 16];
    hasher.finalize_variable(&mut buf).unwrap();
    buf.to_vec()
}

/// Applies the one-way, fixed-output-width digest to public key material,
/// yielding the participant's identifier. Deterministic: equal key bytes give
/// equal identifiers (see `lemma_identifier_deterministic`). Zero-length key
/// material is ruled out as a defensive measure.
pub fn derive_identifier(public_key_bytes: &Vec<u8>) -> (r: VoterId)
    requires
        public_key_bytes@.len() > 0,
    ensures
        r@ == blake2b16_of(public_key_bytes@),
        r@.len() == HASH_SIZE,
{
    blake2b_digest_16(public_key_bytes)
}

/// Derives a voter's identifier from the public half of its signing keypair.
pub fn generate_voter_id(voting_round_signing_key: &ed25519_dalek::Keypair) -> (r: VoterId)
    ensures
        r@.len() == HASH_SIZE,
        exists|pk: Seq<u8>| pk.len() == 32 && r@ == blake2b16_of(pk),
{
    let public_key_bytes = keypair_public_bytes(voting_round_signing_key);
    let id = derive_identifier(&public_key_bytes);
    proof {
        assert(public_key_bytes@.len() == 32 && id@ == blake2b16_of(public_key_bytes@));
    }
    id
}

/// Identifier derivation is deterministic: deriving from the same public key
/// bytes always yields the same identifier.
pub proof fn lemma_identifier_deterministic(first: Seq<u8>, second: Seq<u8>)
    requires
        first == second,
    ensures
        blake2b16_of(first) == blake2b16_of(second),
{
}

/// The lowercase hex digit standing for a value below sixteen.
pub open spec fn hex_digit(n: int) -> char {
    seq!['0', '1', '2', '3', '4', '5', '6', '7', '8', '9', 'a', 'b', 'c', 'd', 'e', 'f'][n]
}

/// The contiguous lowercase hex rendering of a byte string: two digits per
/// byte, high nibble first, no separators.
pub open spec fn hex_of(bytes: Seq<u8>) -> Seq<char>
    decreases bytes.len(),
{
    if bytes.len() == 0 {
        Seq::empty()
    } else {
        hex_of(bytes.drop_last()) + seq![
            hex_digit(bytes.last() as int / 16),
            hex_digit(bytes.last() as int % 16),
        ]
    }
}

/// A hex rendering is twice as long as the bytes it renders.
pub proof fn lemma_hex_of_len(bytes: Seq<u8>)
    ensures
        hex_of(bytes).len() == 2 * bytes.len(),
    decreases bytes.len(),
{
    if bytes.len() > 0 {
        lemma_hex_of_len(bytes.drop_last());
    }
}

/// The one-character string holding the hex digit for a value below sixteen.
fn hex_digit_str(n: u8) -> (r: &'static str)
    requires
        n < 16,
    ensures
        r@ =~= seq![hex_digit(n as int)],
{
    proof {
        reveal_strlit("0");
        reveal_strlit("1");
        reveal_strlit("2");
        reveal_strlit("3");
        reveal_strlit("4");
        reveal_strlit("5");
        reveal_strlit("6");
        reveal_strlit("7");
        reveal_strlit("8");
        reveal_strlit("9");
        reveal_strlit("a");
        reveal_strlit("b");
        reveal_strlit("c");
        reveal_strlit("d");
        reveal_strlit("e");
        reveal_strlit("f");
    }
    match n {
        0 => "0",
        1 => "1",
        2 => "2",
        3 => "3",
        4 => "4",
        5 => "5",
        6 => "6",
        7 => "7",
        8 => "8",
        9 => "9",
        10 => "a",
        11 => "b",
        12 => "c",
        13 => "d",
        14 => "e",
        _ => "f",
    }
}

/// Renders an identifier (or any byte vector) as a contiguous lowercase hex
/// string, two digits per byte, with no separators.
pub fn get_hex(raw_hex: &VoterId) -> (r: String)
    ensures
        r@ == hex_of(raw_hex@),
        r@.len() == 2 * raw_hex@.len(),
{
    let mut rendered = String::new();
    let mut i: usize = 0;
    while i < raw_hex.len()
        invariant
            i <= raw_hex@.len(),
            rendered@ == hex_of(raw_hex@.subrange(0, i as int)),
        decreases raw_hex@.len() - i,
    {
        let byte = raw_hex[i];
        proof {
            assert(raw_hex@.subrange(0, i as int + 1).drop_last() =~= raw_hex@.subrange(
                0,
                i as int,
            ));
            assert(raw_hex@.subrange(0, i as int + 1).last() == raw_hex@[i as int]);
        }
        rendered.append(hex_digit_str(byte / 16));
        rendered.append(hex_digit_str(byte % 16));
        proof {
            assert(rendered@ =~= hex_of(raw_hex@.subrange(0, i as int + 1)));
        }
        i += 1;
    }
    proof {
        assert(raw_hex@.subrange(0, raw_hex@.len() as int) =~= raw_hex@);
        lemma_hex_of_len(raw_hex@);
    }
    rendered
}

} // verus!
