//! The validator set and the steward set an epoch reports.

use vstd::prelude::*;

use crate::id::Id;
use crate::orm::StewardInsertDb;
use crate::orm::TmAddressInsertDb;

verus! {

pub type VotingPower = String;

#[derive(Clone, Debug)]
pub struct Validator {
    pub address: Id,
    pub voting_power: VotingPower,
    pub tm_address: Id,
    pub max_commission: String,
    pub commission: String,
    pub email: String,
    pub description: Option<String>,
    pub website: Option<String>,
    pub discord_handler: Option<String>,
    pub avatar: Option<String>,
}

#[derive(Clone, Debug)]
pub struct ValidatorSet {
    pub validators: Vec<Validator>,
    pub epoch: u32,
}

impl ValidatorSet {
    /// One consensus-address row per validator, keyed by the set's epoch.
    pub fn to_tm_addresses_db(&self) -> (r: Vec<TmAddressInsertDb>)
        ensures
            r@.len() == self.validators@.len(),
            forall|i: int|
                0 <= i < r@.len() ==> {
                    &&& (#[trigger] r@[i]).tm_address@ == self.validators@[i].tm_address.text()
                    &&& r@[i].epoch == self.epoch as i32
                    &&& r@[i].validator_namada_address@ == self.validators@[i].address.text()
                },
    {
        let n = self.validators.len();
        let mut out: Vec<TmAddressInsertDb> = Vec::new();
        let mut i: usize = 0;
        while i < n
            invariant
                n == self.validators@.len(),
                0 <= i <= n,
                out@.len() == i,
                forall|j: int|
                    0 <= j < i ==> {
                        &&& (#[trigger] out@[j]).tm_address@ == self.validators@[j].tm_address.text()
                        &&& out@[j].epoch == self.epoch as i32
                        &&& out@[j].validator_namada_address@ == self.validators@[j].address.text()
                    },
            decreases n - i,
        {
            out.push(
                TmAddressInsertDb {
                    tm_address: self.validators[i].tm_address.to_string(),
                    epoch: #[verifier::truncate] (self.epoch as i32),
                    validator_namada_address: self.validators[i].address.to_string(),
                },
            );
            i += 1;
        }
        out
    }
}

#[derive(Clone, Debug)]
pub struct StewardSet {
    pub stewards: Vec<Steward>,
    pub block_height: u32,
}

#[derive(Clone, Debug)]
pub struct Steward {
    pub namada_address: Id,
}

impl StewardSet {
    /// One steward row per steward, keyed by the set's block height.
    pub fn to_stewards_db(&self) -> (r: Vec<StewardInsertDb>)
        ensures
            r@.len() == self.stewards@.len(),
            forall|i: int|
                0 <= i < r@.len() ==> {
                    &&& (#[trigger] r@[i]).namada_address@ == self.stewards@[i].namada_address.text()
                    &&& r@[i].block_height == self.block_height as i32
                },
    {
        let n = self.stewards.len();
        let mut out: Vec<StewardInsertDb> = Vec::new();
        let mut i: usize = 0;
        while i < n
            invariant
                n == self.stewards@.len(),
                0 <= i <= n,
                out@.len() == i,
                forall|j: int|
                    0 <= j < i ==> {
                        &&& (#[trigger] out@[j]).namada_address@
                            == self.stewards@[j].namada_address.text()
                        &&& out@[j].block_height == self.block_height as i32
                    },
            decreases n - i,
        {
            out.push(
                StewardInsertDb {
                    namada_address: self.stewards[i].namada_address.to_string(),
                    block_height: #[verifier::truncate] (self.block_height as i32),
                },
            );
            i += 1;
        }
        out
    }
}

} // verus!
