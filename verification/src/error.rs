//! The ways an instruction can be refused.

use vstd::prelude::*;

verus! {

/// Why an instruction was refused. Every refusal leaves the record as it was.
#[derive(Clone, Copy, Debug, PartialEq, Eq, Structural)]
pub enum MicroSplitError {
    /// The split identifier is longer than 32 bytes.
    SplitIdTooLong,
    /// The participant list is empty.
    NoParticipants,
    /// The participant list has more than 10 entries.
    TooManyParticipants,
    /// The total amount is zero.
    InvalidAmount,
    /// The invoker is not among the split's participants.
    NotAParticipant,
    /// The invoker's share is already marked paid.
    AlreadyPaid,
    /// Some participant has not paid yet.
    NotFullyPaid,
    /// The account supplied is not the one derived from the creator and the
    /// split identifier.
    AddressMismatch,
    /// The invoker is not the creator of the record.
    Unauthorized,
    /// A record already lives at the derived address.
    AddressInUse,
}

} // verus!
