//! Closure: the creator removes a fully settled record.

use vstd::prelude::*;
use crate::accounts::CloseSplit;
use crate::error::MicroSplitError;

verus! {

/// Whether closure goes through, or why not: every share must be paid, and
/// the invoker must be the record's creator. An account without a record
/// has no creator.
pub open spec fn close_outcome(ctx: CloseSplit) -> Result<(), MicroSplitError> {
    match ctx.split.state {
        None => Err(MicroSplitError::Unauthorized),
        Some(record) => if !record@.all_paid() {
            Err(MicroSplitError::NotFullyPaid)
        } else if ctx.creator@ != record@.creator {
            Err(MicroSplitError::Unauthorized)
        } else {
            Ok(())
        },
    }
}

/// Closes a fully settled split: the record is removed from its account,
/// whose storage the ledger then gives back to the creator.
pub fn close_split(ctx: &mut CloseSplit) -> (closed: Result<(), MicroSplitError>)
    ensures
        closed == close_outcome(*old(ctx)),
        match closed {
            Ok(_) => {
                &&& final(ctx).split.state is None
                &&& final(ctx).split.address == old(ctx).split.address
                &&& final(ctx).creator == old(ctx).creator
            },
            Err(_) => *final(ctx) == *old(ctx),
        },
{
    match &ctx.split.state {
        None => {
            return Err(MicroSplitError::Unauthorized);
        },
        Some(record) => {
            if !record.is_fully_paid() {
                return Err(MicroSplitError::NotFullyPaid);
            }
            if !ctx.creator.same_as(&record.creator()) {
                return Err(MicroSplitError::Unauthorized);
            }
        },
    }
    ctx.split.state = None;
    Ok(())
}

} // verus!
