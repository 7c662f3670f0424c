//! The accounts that each instruction is invoked with.

use vstd::prelude::*;
use crate::identity::Identity;
use crate::state::SplitState;

verus! {

/// The storage at one address: vacant, or holding a split record.
#[derive(Debug)]
pub struct SplitAccount {
    /// Where the storage lives.
    pub address: Identity,
    /// The record stored there, if any.
    pub state: Option<SplitState>,
}

/// Accounts of record creation.
#[derive(Debug)]
pub struct CreateSplit {
    /// The program on whose behalf addresses are derived.
    pub program_id: Identity,
    /// The account that is to hold the new record.
    pub split: SplitAccount,
    /// The wallet that creates the split; the ledger has authenticated it.
    pub creator: Identity,
    /// The ledger's clock, in seconds since the Unix epoch.
    pub unix_timestamp: i64,
}

/// Accounts of settlement.
#[derive(Debug)]
pub struct PaySplit {
    /// The program on whose behalf addresses are derived.
    pub program_id: Identity,
    /// The account that holds the record.
    pub split: SplitAccount,
    /// The wallet that receives the payment.
    pub creator: Identity,
    /// The wallet that pays; the ledger has authenticated it.
    pub payer: Identity,
}

/// Accounts of closure.
#[derive(Debug)]
pub struct CloseSplit {
    /// The account that holds the record.
    pub split: SplitAccount,
    /// The wallet that asks for closure; the ledger has authenticated it.
    pub creator: Identity,
}

} // verus!
