//! Settlement: a participant pays their share to the creator, once.
//!
//! A settlement takes two steps, with the ledger's transfer between them.
//! [`pay_split`] decides whether the payer owes a share and says what to
//! transfer; it writes nothing. Once the transfer has gone through,
//! [`confirm_payment`] marks the payer as paid. A transfer that fails is
//! never followed by the second step, so the record then stays as it was.

use vstd::prelude::*;
use crate::accounts::PaySplit;
use crate::address::{address_view, split_address_at, split_address_with_bump};
use crate::error::MicroSplitError;
use crate::events::{PaymentMade, Transfer};
use crate::identity::Identity;

verus! {

/// The address that settlement derives again from the bump stored in the
/// record, to hold it against the account it was given.
pub open spec fn rederived_address(ctx: PaySplit, split_id: Seq<char>) -> Option<Seq<u8>> {
    match ctx.split.state {
        Some(record) => split_address_at(ctx.program_id@, ctx.creator@, split_id, record@.bump),
        None => None,
    }
}

/// Whom settlement marks as paid, given the address `derived` again from
/// the record's bump: the payer's position among the participants, or the
/// refusal.
///
/// The payer must be a participant who has not paid; the account must be
/// the derived one and the receiving wallet the record's creator. An
/// account without a record cannot be the derived one.
pub open spec fn pay_outcome(ctx: PaySplit, derived: Option<Seq<u8>>) -> Result<
    int,
    MicroSplitError,
> {
    match ctx.split.state {
        None => Err(MicroSplitError::AddressMismatch),
        Some(record) => match record@.position_of(ctx.payer@) {
            None => Err(MicroSplitError::NotAParticipant),
            Some(index) => if record@.paid[index] {
                Err(MicroSplitError::AlreadyPaid)
            } else if derived != Some(ctx.split.address@) || ctx.creator@ != record@.creator {
                Err(MicroSplitError::AddressMismatch)
            } else {
                Ok(index)
            },
        },
    }
}

/// How the recording of a payment leaves its accounts and what it returns,
/// for an `outcome` of [`pay_outcome`]: on success exactly the payer's flag
/// has been set and the payment is announced; on a refusal nothing has
/// changed.
pub open spec fn payment_effect(
    before: PaySplit,
    after: PaySplit,
    outcome: Result<int, MicroSplitError>,
    paid: Result<PaymentMade, MicroSplitError>,
) -> bool {
    match paid {
        Ok(event) => {
            &&& outcome matches Ok(index)
            &&& before.split.state matches Some(record)
            &&& after.split.state matches Some(settled)
            &&& settled@ == record@.with_paid(index)
            &&& after.program_id == before.program_id
            &&& after.creator == before.creator
            &&& after.payer == before.payer
            &&& after.split.address == before.split.address
            &&& event.split_id@ == record@.split_id
            &&& event.payer == before.payer
            &&& event.amount == record@.amount_per_person
            &&& event.participant_index == index
        },
        Err(refusal) => {
            &&& outcome == Err::<int, MicroSplitError>(refusal)
            &&& after == before
        },
    }
}

/// Finds the position that a settlement is about, or refuses it.
fn settling_position(ctx: &PaySplit, derived: Option<Identity>) -> (position: Result<
    usize,
    MicroSplitError,
>)
    ensures
        match position {
            Ok(index) => {
                &&& pay_outcome(*ctx, address_view(derived)) == Ok::<int, MicroSplitError>(
                    index as int,
                )
                &&& ctx.split.state matches Some(record)
                &&& index < record@.participants.len()
                &&& record@.wf()
            },
            Err(refusal) => pay_outcome(*ctx, address_view(derived)) == Err::<
                int,
                MicroSplitError,
            >(refusal),
        },
{
    match &ctx.split.state {
        None => Err(MicroSplitError::AddressMismatch),
        Some(record) => {
            let index: usize = match record.position_of(&ctx.payer) {
                None => {
                    return Err(MicroSplitError::NotAParticipant);
                },
                Some(index) => index,
            };
            if record.paid()[index] {
                return Err(MicroSplitError::AlreadyPaid);
            }
            let at_derived_address: bool = match derived {
                Some(address) => address.same_as(&ctx.split.address),
                None => false,
            };
            if !at_derived_address || !ctx.creator.same_as(&record.creator()) {
                return Err(MicroSplitError::AddressMismatch);
            }
            Ok(index)
        },
    }
}

/// Derives the address of the record in `ctx.split` again, from the bump
/// stored in it.
pub fn rederive_address(ctx: &PaySplit, split_id: &str) -> (derived: Option<Identity>)
    ensures
        address_view(derived) == rederived_address(*ctx, split_id@),
{
    match &ctx.split.state {
        Some(record) => split_address_with_bump(
            &ctx.program_id,
            &ctx.creator,
            split_id,
            record.bump(),
        ),
        None => None,
    }
}

/// Decides a settlement, given the address `derived` again from the
/// record's bump: the transfer of one share from the payer to the creator
/// that the ledger has to carry out, or the refusal. Nothing is written.
pub fn pay_split_at(ctx: &PaySplit, derived: Option<Identity>) -> (due: Result<
    Transfer,
    MicroSplitError,
>)
    ensures
        match due {
            Ok(transfer) => {
                &&& pay_outcome(*ctx, address_view(derived)) is Ok
                &&& ctx.split.state matches Some(record)
                &&& transfer.from == ctx.payer
                &&& transfer.to == ctx.creator
                &&& transfer.to@ == record@.creator
                &&& transfer.lamports == record@.amount_per_person
            },
            Err(refusal) => pay_outcome(*ctx, address_view(derived)) == Err::<
                int,
                MicroSplitError,
            >(refusal),
        },
{
    match settling_position(ctx, derived) {
        Err(refusal) => Err(refusal),
        Ok(_) => match &ctx.split.state {
            Some(record) => Ok(
                Transfer { from: ctx.payer, to: ctx.creator, lamports: record.amount_per_person() },
            ),
            None => Err(MicroSplitError::AddressMismatch),
        },
    }
}

/// Decides a settlement: the transfer of one share from the payer to the
/// creator that the ledger has to carry out, or the refusal. Nothing is
/// written; [`confirm_payment`] records the payment once the transfer has
/// gone through.
///
/// `split_id` serves only to derive the record's address again.
pub fn pay_split(ctx: &PaySplit, split_id: String) -> (due: Result<Transfer, MicroSplitError>)
    ensures
        match due {
            Ok(transfer) => {
                &&& pay_outcome(*ctx, rederived_address(*ctx, split_id@)) is Ok
                &&& ctx.split.state matches Some(record)
                &&& transfer.from == ctx.payer
                &&& transfer.to == ctx.creator
                &&& transfer.to@ == record@.creator
                &&& transfer.lamports == record@.amount_per_person
            },
            Err(refusal) => pay_outcome(*ctx, rederived_address(*ctx, split_id@)) == Err::<
                int,
                MicroSplitError,
            >(refusal),
        },
{
    let derived = rederive_address(ctx, split_id.as_str());
    pay_split_at(ctx, derived)
}

/// Records a settlement whose transfer has gone through, given the address
/// `derived` again from the record's bump: marks the payer as paid.
///
/// The checks of [`pay_split_at`] are made again, so that a payment is
/// recorded at most once for each participant.
pub fn confirm_payment_at(ctx: &mut PaySplit, derived: Option<Identity>) -> (paid: Result<
    PaymentMade,
    MicroSplitError,
>)
    ensures
        payment_effect(*old(ctx), *final(ctx), pay_outcome(*old(ctx), address_view(derived)), paid),
        paid is Ok ==> (final(ctx).split.state matches Some(settled) && settled@.wf()),
{
    let index: usize = match settling_position(ctx, derived) {
        Err(refusal) => {
            return Err(refusal);
        },
        Ok(index) => index,
    };
    let payer = ctx.payer;
    match &mut ctx.split.state {
        Some(record) => {
            record.mark_paid(index);
            Ok(
                PaymentMade {
                    split_id: record.split_id().clone(),
                    payer,
                    amount: record.amount_per_person(),
                    participant_index: index as u8,
                },
            )
        },
        None => Err(MicroSplitError::AddressMismatch),
    }
}

/// Records a settlement whose transfer has gone through: marks the payer as
/// paid.
///
/// `split_id` serves only to derive the record's address again.
pub fn confirm_payment(ctx: &mut PaySplit, split_id: String) -> (paid: Result<
    PaymentMade,
    MicroSplitError,
>)
    ensures
        payment_effect(
            *old(ctx),
            *final(ctx),
            pay_outcome(*old(ctx), rederived_address(*old(ctx), split_id@)),
            paid,
        ),
        paid is Ok ==> (final(ctx).split.state matches Some(settled) && settled@.wf()),
{
    let derived = rederive_address(ctx, split_id.as_str());
    confirm_payment_at(ctx, derived)
}

} // verus!
