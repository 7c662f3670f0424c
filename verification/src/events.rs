//! What the instructions hand back to the ledger: the notifications to
//! publish and the transfer to carry out.

use vstd::prelude::*;
use crate::identity::Identity;

verus! {

/// Notification that a split was created.
#[derive(Debug, PartialEq, Eq)]
pub struct SplitCreated {
    pub split_id: String,
    pub creator: Identity,
    pub total_amount: u64,
    pub num_participants: u64,
    pub amount_per_person: u64,
}

/// Notification that a participant settled their share.
#[derive(Debug, PartialEq, Eq)]
pub struct PaymentMade {
    pub split_id: String,
    pub payer: Identity,
    pub amount: u64,
    pub participant_index: u8,
}

/// A movement of native currency that the ledger is asked to carry out.
#[derive(Clone, Copy, Debug, PartialEq, Eq)]
pub struct Transfer {
    /// The wallet that is debited.
    pub from: Identity,
    /// The wallet that is credited.
    pub to: Identity,
    /// The amount, in the smallest currency unit.
    pub lamports: u64,
}

} // verus!
