//! A minimal contract over an opaque archive: it accepts any state that is
//! at least ten bytes long and shares the wholesale update, summarize and
//! delta behaviour of the container contract.

use vstd::prelude::*;

use crate::contract::{ContractError, UpdateData, ValidateResult};
use crate::crypto::{sha256, sha256_of};

verus! {

/// The smallest state length this contract accepts as plausibly an archive.
pub const MIN_STATE_SIZE: usize = 10;

/// A contract that only screens states by length.
pub struct WebContract;

impl WebContract {
    /// Judges a state by its length alone: anything shorter than
    /// `MIN_STATE_SIZE` bytes cannot be a real archive.
    pub fn validate_state(_parameters: &[u8], state: &[u8]) -> (r: Result<
        ValidateResult,
        ContractError,
    >)
        ensures
            r == Ok::<ValidateResult, ContractError>(
                if state@.len() < MIN_STATE_SIZE {
                    ValidateResult::Invalid
                } else {
                    ValidateResult::Valid
                },
            ),
    {
        if state.len() < MIN_STATE_SIZE {
            Ok(ValidateResult::Invalid)
        } else {
            Ok(ValidateResult::Valid)
        }
    }

    /// Replaces the whole state with the full-state payload of the first
    /// update, verbatim; anything else is rejected.
    pub fn update_state(_parameters: &[u8], _state: &[u8], data: Vec<UpdateData>) -> (r: Result<
        Vec<u8>,
        ContractError,
    >)
        ensures
            data@.len() == 0 ==> r == Err::<Vec<u8>, ContractError>(ContractError::InvalidUpdate),
            data@.len() > 0 ==> match data@[0] {
                UpdateData::State(new_state) => r matches Ok(v) && v@ == new_state@,
                UpdateData::Delta(_) => r == Err::<Vec<u8>, ContractError>(
                    ContractError::InvalidUpdate,
                ),
            },
    {
        let mut data = data;
        if data.len() == 0 {
            return Err(ContractError::InvalidUpdate);
        }
        match data.remove(0) {
            UpdateData::State(new_state) => Ok(new_state),
            UpdateData::Delta(_) => Err(ContractError::InvalidUpdate),
        }
    }

    /// Summarizes a state as its SHA-256 digest.
    pub fn summarize_state(_parameters: &[u8], state: &[u8]) -> (r: Result<Vec<u8>, ContractError>)
        ensures
            r matches Ok(digest) && digest@ == sha256_of(state@) && digest@.len() == 32,
    {
        Ok(sha256(state))
    }

    /// Hands out the full state as the delta, ignoring the peer's summary.
    pub fn get_state_delta(_parameters: &[u8], state: &[u8], _summary: &[u8]) -> (r: Result<
        Vec<u8>,
        ContractError,
    >)
        ensures
            r matches Ok(delta) && delta@ == state@,
    {
        let mut delta: Vec<u8> = Vec::new();
        delta.extend_from_slice(state);
        Ok(delta)
    }
}

} // verus!
