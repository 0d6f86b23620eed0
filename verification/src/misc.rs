//! Reading the randomness oracle's account: parsing its raw bytes and
//! extracting the fulfilled value as a 64-bit integer. Only the two calls
//! into the oracle's crate are trusted; everything around them is verified.

use vstd::prelude::*;
use vstd::array::array_as_slice;
use vstd::bytes::{spec_u64_from_le_bytes, u64_from_le_bytes};
use vstd::slice::slice_subrange;
use anchor_lang::AccountDeserialize;
use orao_solana_vrf::state::RandomnessAccountData;
use crate::errors::ContractError;

verus! {

#[verifier::external_type_specification]
#[verifier::external_body]
pub struct ExRandomnessAccountData(RandomnessAccountData);

/// What the oracle account's bytes parse to, when they parse at all.
pub uninterp spec fn parsed_randomness(data: Seq<u8>) -> Option<RandomnessAccountData>;

/// The fulfilled randomness bytes held by a parsed oracle account, if any.
pub uninterp spec fn fulfilled_randomness_of(data: RandomnessAccountData) -> Option<Seq<u8>>;

/// Relies on `orao_solana_vrf::state::RandomnessAccountData::try_deserialize`
/// (through `anchor_lang::AccountDeserialize`): whether and how account bytes
/// parse is a function of the bytes alone.
#[verifier::external_body]
fn deserialize_randomness(data: &[u8]) -> (r: Option<RandomnessAccountData>)
    ensures
        r == parsed_randomness(data@),
{
    RandomnessAccountData::try_deserialize(&mut &data[..]).ok()
}

/// Relies on `orao_solana_vrf::state::RandomnessAccountData::fulfilled_randomness`:
/// it returns the 64 randomness bytes once the request is fulfilled and `None`
/// while it is pending, a function of the account value alone.
#[verifier::external_body]
fn fulfilled_randomness(data: &RandomnessAccountData) -> (r: Option<[u8; 64]>)
    ensures
        (match r {
            Some(bytes) => fulfilled_randomness_of(*data) == Some(bytes@),
            None => fulfilled_randomness_of(*data) is None,
        }),
{
    data.fulfilled_randomness().copied()
}

/// Parse a randomness account's raw data. An empty account has not been
/// initialized; bytes that do not parse are rejected.
pub fn get_account_data(data: &[u8]) -> (r: Result<RandomnessAccountData, ContractError>)
    ensures
        data@.len() == 0 ==> r == Err::<RandomnessAccountData, ContractError>(
            ContractError::UninitializedAccount,
        ),
        data@.len() > 0 ==> (match parsed_randomness(data@) {
            Some(acc) => r == Ok::<RandomnessAccountData, ContractError>(acc),
            None => r == Err::<RandomnessAccountData, ContractError>(
                ContractError::InvalidAccountData,
            ),
        }),
{
    if data.len() == 0 {
        return Err(ContractError::UninitializedAccount);
    }
    match deserialize_randomness(data) {
        Some(acc) => Ok(acc),
        None => Err(ContractError::InvalidAccountData),
    }
}

/// The oracle's state read as a 64-bit value: zero while the randomness is
/// pending (or too short to read), otherwise the first eight fulfilled bytes
/// as a little-endian integer.
pub open spec fn spec_current_state(data: RandomnessAccountData) -> u64 {
    match fulfilled_randomness_of(data) {
        Some(bytes) => if bytes.len() >= 8 {
            spec_u64_from_le_bytes(bytes.subrange(0, 8))
        } else {
            0
        },
        None => 0,
    }
}

/// Extract the current fulfilled randomness value; `0` means "not yet
/// fulfilled" (the protocol's sentinel convention).
pub fn current_state(randomness: &RandomnessAccountData) -> (r: u64)
    ensures
        r == spec_current_state(*randomness),
{
    match fulfilled_randomness(randomness) {
        Some(bytes) => {
            let fulfilled: &[u8] = array_as_slice(&bytes);
            if fulfilled.len() >= 8 {
                u64_from_le_bytes(slice_subrange(fulfilled, 0, 8))
            } else {
                0
            }
        },
        None => 0,
    }
}

/// The 64-bit value the whole oracle read yields for raw account bytes:
/// zero when the bytes do not parse or the randomness is still pending.
pub open spec fn oracle_value(data: Seq<u8>) -> u64 {
    match parsed_randomness(data) {
        Some(acc) => spec_current_state(acc),
        None => 0,
    }
}

} // verus!
