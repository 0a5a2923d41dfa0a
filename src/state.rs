use vstd::prelude::*;
use vstd::bytes::{spec_u64_from_le_bytes, spec_u64_to_le_bytes, lemma_auto_spec_u64_to_from_le_bytes};
use crate::error::CounterError;

verus! {

/// Number of bytes that a stored counter state occupies.
pub const COUNTER_SPACE: u64 = 8;

#[verifier::external_type_specification]
#[verifier::external_body]
pub struct ExIoError(std::io::Error);

/// The persisted state of a counter account.
#[derive(Debug, Clone, Copy, PartialEq, Eq, Structural)]
pub struct CounterAccount {
    pub count: u64,
}

/// The stored form of a count: eight bytes, little-endian.
pub open spec fn encoded(count: u64) -> Seq<u8> {
    spec_u64_to_le_bytes(count)
}

/// Whether `bytes` is the stored form of some count.
pub open spec fn is_encoding(bytes: Seq<u8>) -> bool {
    bytes.len() == COUNTER_SPACE
}

/// The count that a well-formed stored form holds.
pub open spec fn decoded(bytes: Seq<u8>) -> u64 {
    spec_u64_from_le_bytes(bytes)
}

/// Relies on borsh's `BorshSerialize` for `u64` through `borsh::to_vec`: it
/// writes `to_le_bytes()` into a fresh `Vec`, and writing to a `Vec` does not fail.
#[verifier::external_body]
fn borsh_to_vec_u64(value: u64) -> (r: Result<Vec<u8>, std::io::Error>)
    ensures
        r is Ok,
        r matches Ok(b) ==> b@ == spec_u64_to_le_bytes(value),
{
    borsh::to_vec(&value)
}

/// Relies on borsh's `BorshDeserialize::try_from_slice` for `u64`: it reads eight
/// bytes with `from_le_bytes`, and fails when fewer are there or any are left over.
#[verifier::external_body]
fn borsh_u64_from_slice(data: &[u8]) -> (r: Result<u64, std::io::Error>)
    ensures
        r is Ok <==> data@.len() == 8,
        r matches Ok(v) ==> v == spec_u64_from_le_bytes(data@),
{
    <u64 as borsh::BorshDeserialize>::try_from_slice(data)
}

impl CounterAccount {
    /// Encodes the state in its fixed eight-byte layout.
    pub fn pack(&self) -> (r: Vec<u8>)
        ensures
            r@ == encoded(self.count),
            r@.len() == COUNTER_SPACE,
    {
        proof {
            lemma_auto_spec_u64_to_from_le_bytes();
        }
        match borsh_to_vec_u64(self.count) {
            Ok(bytes) => bytes,
            Err(_) => Vec::new(),
        }
    }

    /// Decodes a stored state; anything but exactly eight bytes is refused.
    pub fn try_from_slice(data: &[u8]) -> (r: Result<CounterAccount, CounterError>)
        ensures
            r is Ok <==> is_encoding(data@),
            r matches Ok(s) ==> s.count == decoded(data@),
            r matches Err(e) ==> e == CounterError::InvalidAccountData,
    {
        match borsh_u64_from_slice(data) {
            Ok(count) => Ok(CounterAccount { count }),
            Err(_) => Err(CounterError::InvalidAccountData),
        }
    }
}

/// Decoding the stored form of a state gives that state back.
pub proof fn lemma_decode_encode(count: u64)
    ensures
        is_encoding(encoded(count)),
        decoded(encoded(count)) == count,
{
    lemma_auto_spec_u64_to_from_le_bytes();
}

} // verus!
