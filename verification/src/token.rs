use crate::digest::{hash_from_u8, hash_hex};
use crate::error::ApiError;
use rand_core::RngCore;
use vstd::bytes::{spec_u64_to_le_bytes, u64_to_le_bytes};
use vstd::prelude::*;

verus! {

#[verifier::external_type_specification]
#[verifier::external_body]
pub struct ExRandomnessError(rand_core::Error);

/// Calls `rand_core::OsRng::try_fill_bytes` on a buffer of eight bytes and
/// reads them as a little-endian integer, as `OsRng::next_u64` does, but
/// hands the operating system's refusal back where `next_u64` would panic.
/// Trusted: nothing is claimed of the outcome.
#[verifier::external_body]
fn os_random_u64() -> (drawn: Result<u64, rand_core::Error>) {
    let mut buffer = [0u8; 8];
    match rand_core::OsRng.try_fill_bytes(&mut buffer) {
        Ok(()) => Ok(u64::from_le_bytes(buffer)),
        Err(refusal) => Err(refusal),
    }
}

/// What a draw from the randomness source means to a request: the key, or a
/// collaborator failure.
pub fn key_from_draw(drawn: Result<u64, rand_core::Error>) -> (key: Result<u64, ApiError>)
    ensures
        match drawn {
            Ok(value) => key == Ok::<u64, ApiError>(value),
            Err(_) => key == Err::<u64, ApiError>(ApiError::StorageFailure),
        },
{
    match drawn {
        Ok(value) => Ok(value),
        Err(_) => Err(ApiError::StorageFailure),
    }
}

/// Draws eight random bytes from the operating system. Every value is a
/// possible key; the only failure is `StorageFailure`.
pub fn draw_key() -> (key: Result<u64, ApiError>)
    ensures
        key is Err ==> key == Err::<u64, ApiError>(ApiError::StorageFailure),
{
    key_from_draw(os_random_u64())
}

/// The decimal digits of a number in ASCII, most significant first, without
/// leading zeros.
pub open spec fn decimal(n: nat) -> Seq<u8>
    decreases n,
{
    if n < 10 {
        seq![(48 + n) as u8]
    } else {
        decimal(n / 10).push((48 + n % 10) as u8)
    }
}

/// What is hashed into a token: the account's identity in decimal, followed
/// by the eight bytes of the key, least significant first.
pub open spec fn token_source(account_id: u64, key: u64) -> Seq<u8> {
    decimal(account_id as nat) + spec_u64_to_le_bytes(key)
}

/// The token that an account and a key give.
pub open spec fn token_for(account_id: u64, key: u64) -> Seq<char> {
    hash_hex(token_source(account_id, key))
}

fn push_decimal(out: &mut Vec<u8>, n: u64)
    ensures
        final(out)@ == old(out)@ + decimal(n as nat),
    decreases n,
{
    if n >= 10 {
        push_decimal(out, n / 10);
    }
    let digit: u8 = (n % 10) as u8;
    out.push(48 + digit);
    assert(out@ =~= old(out)@ + decimal(n as nat));
}

/// The bytes that `token_source` describes.
pub fn source_bytes(account_id: u64, key: u64) -> (bytes: Vec<u8>)
    ensures
        bytes@ == token_source(account_id, key),
{
    let mut bytes: Vec<u8> = Vec::new();
    push_decimal(&mut bytes, account_id);
    let mut key_bytes = u64_to_le_bytes(key);
    bytes.append(&mut key_bytes);
    assert(bytes@ =~= token_source(account_id, key));
    bytes
}

/// Makes the opaque token of an account from a key: the digest text of the
/// account's identity followed by the key. The same function mints session
/// tokens and refresh tokens.
pub fn generate(account_id: u64, key: u64) -> (token: String)
    ensures
        token@ == token_for(account_id, key),
        token@.len() == 64,
{
    hash_from_u8(source_bytes(account_id, key))
}

} // verus!
