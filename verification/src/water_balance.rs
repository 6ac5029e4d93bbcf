//! The water balance interface: a source of water balances per APN.
use vstd::prelude::*;

verus! {

/// A semi-fungible water currency that gives the balance of each APN and accepts deposits.
pub trait WaterCurrency {
    /// The balance of an APN.
    type Balancey;
    /// What a deposit adds.
    type PositiveImbalance;
    /// What a withdrawal takes.
    type NegativeImbalance;

    /// The balance of an APN.
    fn findbalance(apn: u32) -> Self::Balancey;

    /// Sets the balance of an APN, whether it was created or not.
    fn deposit_into_apn(apn: u32, value: Self::Balancey) -> Self::PositiveImbalance;
}

} // verus!
