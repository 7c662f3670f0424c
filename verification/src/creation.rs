//! Record creation: a creator opens a split among one to ten participants.

use vstd::prelude::*;
use vstd::utf8::encode_utf8;
use crate::accounts::CreateSplit;
use crate::address::{canonical_split_address, find_split_address, found_view, split_address_at};
use crate::error::MicroSplitError;
use crate::events::SplitCreated;
use crate::identity::Identity;
use crate::laws::created_record_is_sound;
use crate::state::{
    byte_len, identity_bytes, SplitState, SplitStateView, MAX_PARTICIPANTS, MAX_SPLIT_ID_LEN,
};

verus! {

/// Why creation refuses its arguments, if it does: the first rule broken
/// among identifier length, presence of participants, their number, and a
/// positive total.
pub open spec fn creation_refusal(
    split_id: Seq<char>,
    total_amount: u64,
    participants: Seq<Seq<u8>>,
) -> Option<MicroSplitError> {
    if encode_utf8(split_id).len() > MAX_SPLIT_ID_LEN {
        Some(MicroSplitError::SplitIdTooLong)
    } else if participants.len() == 0 {
        Some(MicroSplitError::NoParticipants)
    } else if participants.len() > MAX_PARTICIPANTS {
        Some(MicroSplitError::TooManyParticipants)
    } else if total_amount == 0 {
        Some(MicroSplitError::InvalidAmount)
    } else {
        None
    }
}

/// What creation does, given the address and bump `derived` from the
/// creator and the identifier: the record that it stores, or its refusal.
///
/// The arguments are checked first. Then the account must be the derived
/// one, and vacant.
pub open spec fn create_outcome(
    ctx: CreateSplit,
    derived: Option<(Seq<u8>, u8)>,
    split_id: Seq<char>,
    total_amount: u64,
    participants: Seq<Seq<u8>>,
) -> Result<SplitStateView, MicroSplitError> {
    match creation_refusal(split_id, total_amount, participants) {
        Some(refusal) => Err(refusal),
        None => match derived {
            None => Err(MicroSplitError::AddressMismatch),
            Some((address, bump)) => if address != ctx.split.address@ {
                Err(MicroSplitError::AddressMismatch)
            } else if ctx.split.state is Some {
                Err(MicroSplitError::AddressInUse)
            } else {
                Ok(
                    SplitStateView::fresh(
                        ctx.creator@,
                        split_id,
                        total_amount,
                        participants,
                        ctx.unix_timestamp,
                        bump,
                    ),
                )
            },
        },
    }
}

/// How creation leaves its accounts and what it returns, for an `outcome`
/// of [`create_outcome`]: on success the record is stored in the account
/// and announced; on a refusal nothing has changed.
pub open spec fn creation_effect(
    before: CreateSplit,
    after: CreateSplit,
    outcome: Result<SplitStateView, MicroSplitError>,
    created: Result<SplitCreated, MicroSplitError>,
) -> bool {
    match created {
        Ok(event) => {
            &&& outcome matches Ok(record)
            &&& after.split.state matches Some(stored)
            &&& stored@ == record
            &&& after.program_id == before.program_id
            &&& after.creator == before.creator
            &&& after.unix_timestamp == before.unix_timestamp
            &&& after.split.address == before.split.address
            &&& event.split_id@ == record.split_id
            &&& event.creator == before.creator
            &&& event.total_amount == record.total_amount
            &&& event.num_participants == record.participants.len()
            &&& event.amount_per_person == record.amount_per_person
        },
        Err(refusal) => {
            &&& outcome == Err::<SplitStateView, MicroSplitError>(refusal)
            &&& after == before
        },
    }
}

/// Checks the arguments of creation: the identifier has at most 32 bytes,
/// there are one to ten participants, and the total is positive.
pub fn check_creation(split_id: &str, total_amount: u64, participants: &Vec<Identity>) -> (checked:
    Result<(), MicroSplitError>)
    ensures
        match checked {
            Ok(_) => creation_refusal(split_id@, total_amount, identity_bytes(participants@))
                is None,
            Err(refusal) => creation_refusal(split_id@, total_amount, identity_bytes(participants@))
                == Some(refusal),
        },
{
    if byte_len(split_id) > MAX_SPLIT_ID_LEN {
        return Err(MicroSplitError::SplitIdTooLong);
    }
    if participants.len() == 0 {
        return Err(MicroSplitError::NoParticipants);
    }
    if participants.len() > MAX_PARTICIPANTS {
        return Err(MicroSplitError::TooManyParticipants);
    }
    if total_amount == 0 {
        return Err(MicroSplitError::InvalidAmount);
    }
    Ok(())
}

/// Creates the record of a split in `ctx.split`, given the address and bump
/// `derived` for its creator and identifier.
///
/// The record starts with every share unpaid, and the shares together never
/// exceed the total.
pub fn create_split_at(
    ctx: &mut CreateSplit,
    derived: Option<(Identity, u8)>,
    split_id: String,
    total_amount: u64,
    participants: Vec<Identity>,
) -> (created: Result<SplitCreated, MicroSplitError>)
    ensures
        creation_effect(
            *old(ctx),
            *final(ctx),
            create_outcome(
                *old(ctx),
                found_view(derived),
                split_id@,
                total_amount,
                identity_bytes(participants@),
            ),
            created,
        ),
        created is Ok ==> {
            &&& final(ctx).split.state matches Some(stored)
            &&& stored@.wf()
            &&& stored@.amount_per_person * stored@.participants.len() <= total_amount
            &&& forall|i: int| 0 <= i < stored@.paid.len() ==> !stored@.paid[i]
        },
{
    match check_creation(split_id.as_str(), total_amount, &participants) {
        Err(refusal) => {
            return Err(refusal);
        },
        Ok(_) => {},
    }
    let bump: u8 = match derived {
        None => {
            return Err(MicroSplitError::AddressMismatch);
        },
        Some((address, bump)) => {
            if !address.same_as(&ctx.split.address) {
                return Err(MicroSplitError::AddressMismatch);
            }
            bump
        },
    };
    if ctx.split.state.is_some() {
        return Err(MicroSplitError::AddressInUse);
    }
    proof {
        created_record_is_sound(
            *ctx,
            found_view(derived),
            split_id@,
            total_amount,
            identity_bytes(participants@),
        );
    }
    let num_participants: u64 = participants.len() as u64;
    let record = SplitState::open(
        ctx.creator,
        split_id.clone(),
        total_amount,
        participants,
        ctx.unix_timestamp,
        bump,
    );
    let event = SplitCreated {
        split_id,
        creator: ctx.creator,
        total_amount,
        num_participants,
        amount_per_person: record.amount_per_person(),
    };
    ctx.split.state = Some(record);
    Ok(event)
}

/// Creates the record of a split in `ctx.split`.
///
/// The address and bump are derived from the program, the creator and
/// `split_id`; the rest is [`create_split_at`]. The bump stored in the
/// record derives the account's address again.
pub fn create_split(
    ctx: &mut CreateSplit,
    split_id: String,
    total_amount: u64,
    participants: Vec<Identity>,
) -> (created: Result<SplitCreated, MicroSplitError>)
    ensures
        creation_effect(
            *old(ctx),
            *final(ctx),
            create_outcome(
                *old(ctx),
                canonical_split_address(old(ctx).program_id@, old(ctx).creator@, split_id@),
                split_id@,
                total_amount,
                identity_bytes(participants@),
            ),
            created,
        ),
        created is Ok ==> {
            &&& final(ctx).split.state matches Some(stored)
            &&& stored@.wf()
            &&& stored@.amount_per_person * stored@.participants.len() <= total_amount
            &&& forall|i: int| 0 <= i < stored@.paid.len() ==> !stored@.paid[i]
            &&& split_address_at(
                old(ctx).program_id@,
                old(ctx).creator@,
                split_id@,
                stored@.bump,
            ) == Some(old(ctx).split.address@)
        },
{
    let derived = find_split_address(&ctx.program_id, &ctx.creator, split_id.as_str());
    create_split_at(ctx, derived, split_id, total_amount, participants)
}

} // verus!
