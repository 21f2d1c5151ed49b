use vstd::prelude::*;
use crate::asset::AssetKind;

verus! {

/// The engine's singleton policy record: the asset kind the protocol fee is
/// denominated in, the minimum absolute fee, two reserved percentage fields
/// that no operation currently reads, and the address of the reserve payee,
/// who receives fees and excess and alone may replace this record.
#[derive(Debug, PartialEq)]
pub struct Config {
    pub fee_token: AssetKind,
    pub min_fee_amount: u128,
    /// Reserved: accepted and stored, never read by the settlement logic.
    pub min_fee_percent: u128,
    /// Reserved: accepted and stored, never read by the settlement logic.
    pub executor_fee_percent: u128,
    pub reserve_addr: String,
}

impl Config {
    /// An explicit copy; the result equals `*self`.
    pub fn dup(&self) -> (r: Config)
        ensures
            r == *self,
    {
        Config {
            fee_token: self.fee_token.dup(),
            min_fee_amount: self.min_fee_amount,
            min_fee_percent: self.min_fee_percent,
            executor_fee_percent: self.executor_fee_percent,
            reserve_addr: self.reserve_addr.clone(),
        }
    }
}

} // verus!
