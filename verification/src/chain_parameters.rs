//! Chain-wide parameters as read from the chain and stored per epoch.

use vstd::prelude::*;

use crate::orm::ChainParametersDb;

verus! {

#[derive(Clone, Debug)]
pub struct ChainParameters {
    pub epoch: u32,
    pub total_native_token_supply: String,
    pub total_staked_native_token: String,
    pub max_validators: u32,
    pub pos_inflation: String,
    pub pgf_treasury_inflation: String,
    pub pgf_steward_inflation: String,
    pub pgf_treasury: String,
}

impl ChainParameters {
    /// Reads the stored row back; the row id is the epoch.
    pub fn from(value: &ChainParametersDb) -> (r: Self)
        ensures
            r.epoch == value.id as u32,
            r.total_native_token_supply@ == value.total_native_token_supply@,
            r.total_staked_native_token@ == value.total_staked_native_token@,
            r.max_validators == value.max_validators as u32,
            r.pos_inflation@ == value.pos_inflation@,
            r.pgf_treasury_inflation@ == value.pgf_treasury_inflation@,
            r.pgf_steward_inflation@ == value.pgf_steward_inflation@,
            r.pgf_treasury@ == value.pgf_treasury@,
    {
        ChainParameters {
            epoch: #[verifier::truncate] (value.id as u32),
            total_native_token_supply: value.total_native_token_supply.clone(),
            total_staked_native_token: value.total_staked_native_token.clone(),
            max_validators: #[verifier::truncate] (value.max_validators as u32),
            pos_inflation: value.pos_inflation.clone(),
            pgf_treasury_inflation: value.pgf_treasury_inflation.clone(),
            pgf_steward_inflation: value.pgf_steward_inflation.clone(),
            pgf_treasury: value.pgf_treasury.clone(),
        }
    }

    /// The stored row for these parameters; the epoch keys the row.
    pub fn to_chain_parameters_db(&self) -> (r: ChainParametersDb)
        ensures
            r.id == self.epoch as i32,
            r.total_native_token_supply@ == self.total_native_token_supply@,
            r.total_staked_native_token@ == self.total_staked_native_token@,
            r.max_validators == self.max_validators as i32,
            r.pos_inflation@ == self.pos_inflation@,
            r.pgf_steward_inflation@ == self.pgf_steward_inflation@,
            r.pgf_treasury_inflation@ == self.pgf_treasury_inflation@,
            r.pgf_treasury@ == self.pgf_treasury@,
    {
        ChainParametersDb {
            id: #[verifier::truncate] (self.epoch as i32),
            total_native_token_supply: self.total_native_token_supply.clone(),
            total_staked_native_token: self.total_staked_native_token.clone(),
            max_validators: #[verifier::truncate] (self.max_validators as i32),
            pos_inflation: self.pos_inflation.clone(),
            pgf_steward_inflation: self.pgf_steward_inflation.clone(),
            pgf_treasury_inflation: self.pgf_treasury_inflation.clone(),
            pgf_treasury: self.pgf_treasury.clone(),
        }
    }
}

#[derive(Clone, Debug)]
pub struct PosParameters {
    pub pos_inflation: String,
    pub max_validator: u32,
    pub epoch: u32,
}

#[derive(Clone, Debug)]
pub struct PgfParameters {
    pub pgf_treasury_inflation: String,
    pub pgf_steward_inflation: String,
    pub epoch: u32,
}

} // verus!
