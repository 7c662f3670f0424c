//! What holds of the instructions taken together, over the life of a
//! record.

use vstd::prelude::*;
use vstd::utf8::encode_utf8;
use crate::accounts::{CloseSplit, CreateSplit, PaySplit};
use crate::address::canonical_split_address;
use crate::closure::close_outcome;
use crate::creation::create_outcome;
use crate::error::MicroSplitError;
use crate::events::PaymentMade;
use crate::settlement::{pay_outcome, payment_effect};
use crate::state::{stored_bytes, SplitStateView, MAX_PARTICIPANTS, MAX_SPLIT_ID_LEN};

verus! {

/// Equal shares never add up to more than the total.
pub proof fn shares_fit_in_total(total: u64, count: u64)
    requires
        count > 0,
    ensures
        (total / count) * count <= total,
{
    assert((total as int / count as int) * count as int <= total as int) by (nonlinear_arith)
        requires
            count > 0,
            total >= 0,
    ;
}

/// Whatever creation stores is a well-formed record in which nobody has
/// paid yet and whose shares together do not exceed the total.
pub proof fn created_record_is_sound(
    ctx: CreateSplit,
    derived: Option<(Seq<u8>, u8)>,
    split_id: Seq<char>,
    total_amount: u64,
    participants: Seq<Seq<u8>>,
)
    requires
        create_outcome(ctx, derived, split_id, total_amount, participants) is Ok,
    ensures
        ({
            let record = create_outcome(ctx, derived, split_id, total_amount, participants)->Ok_0;
            &&& record.wf()
            &&& record.total_amount == total_amount
            &&& record.participants == participants
            &&& record.amount_per_person * record.participants.len() <= record.total_amount
            &&& record.paid.len() == record.participants.len()
            &&& forall|i: int| 0 <= i < record.paid.len() ==> !record.paid[i]
        }),
{
    shares_fit_in_total(total_amount, participants.len() as u64);
}

/// Two records of one creator cannot share an identifier.
///
/// Once a creation has succeeded, its account holds the record. A later
/// creation by the same creator under the same identifier derives the same
/// address: whether it is handed that account, now occupied, or any other
/// one, it is refused, whatever its other arguments are.
pub proof fn second_creation_is_refused(
    first: CreateSplit,
    second: CreateSplit,
    split_id: Seq<char>,
    first_total: u64,
    first_participants: Seq<Seq<u8>>,
    second_total: u64,
    second_participants: Seq<Seq<u8>>,
)
    requires
        second.program_id@ == first.program_id@,
        second.creator@ == first.creator@,
        create_outcome(
            first,
            canonical_split_address(first.program_id@, first.creator@, split_id),
            split_id,
            first_total,
            first_participants,
        ) is Ok,
        second.split.address@ == first.split.address@ ==> second.split.state is Some,
    ensures
        create_outcome(
            second,
            canonical_split_address(second.program_id@, second.creator@, split_id),
            split_id,
            second_total,
            second_participants,
        ) is Err,
{
}

/// The position of a wallet in a record is that of its first entry among
/// the participants, and there is none exactly when it has no entry.
pub proof fn position_is_first_entry(record: SplitStateView, who: Seq<u8>)
    ensures
        match record.position_of(who) {
            Some(index) => {
                &&& 0 <= index < record.participants.len()
                &&& record.participants[index] == who
                &&& forall|i: int| 0 <= i < index ==> record.participants[i] != who
            },
            None => !record.participants.contains(who),
        },
{
    record.participants.index_of_first_ensures(who);
}

/// A wallet that is not among the participants cannot settle: it is refused
/// as no participant whatever address is derived, no transfer is asked for,
/// and recording a payment leaves every account as it was.
pub proof fn non_participant_is_refused(ctx: PaySplit, derived: Option<Seq<u8>>)
    requires
        ctx.split.state matches Some(record) && !record@.participants.contains(ctx.payer@),
    ensures
        pay_outcome(ctx, derived) == Err::<int, MicroSplitError>(MicroSplitError::NotAParticipant),
        forall|after: PaySplit, paid: Result<PaymentMade, MicroSplitError>|
            payment_effect(ctx, after, pay_outcome(ctx, derived), paid) ==> paid is Err && after
                == ctx,
{
    let record = ctx.split.state->Some_0;
    record@.participants.index_of_first_ensures(ctx.payer@);
}

/// A settlement cannot be replayed: once a participant's payment has been
/// recorded, every further settlement by that participant is refused as
/// already paid, so that no second transfer is asked for.
pub proof fn replayed_settlement_is_refused(
    before: PaySplit,
    after: PaySplit,
    derived: Option<Seq<u8>>,
    paid: Result<PaymentMade, MicroSplitError>,
    derived_again: Option<Seq<u8>>,
)
    requires
        before.split.state matches Some(record) ==> record@.wf(),
        payment_effect(before, after, pay_outcome(before, derived), paid),
        paid is Ok,
    ensures
        pay_outcome(after, derived_again) == Err::<int, MicroSplitError>(
            MicroSplitError::AlreadyPaid,
        ),
{
    let record = before.split.state->Some_0;
    record@.participants.index_of_first_ensures(before.payer@);
}

/// A settlement sets the payer's flag, which was clear, and no other: every
/// share paid before is still paid, and the record stays well formed.
pub proof fn settlement_sets_one_flag(record: SplitStateView, who: Seq<u8>)
    requires
        record.wf(),
        record.position_of(who) matches Some(index) && !record.paid[index],
    ensures
        ({
            let index = record.position_of(who)->Some_0;
            let settled = record.with_paid(index);
            &&& settled.wf()
            &&& 0 <= index < record.paid.len()
            &&& settled.paid[index]
            &&& forall|i: int|
                0 <= i < record.paid.len() && i != index ==> settled.paid[i] == record.paid[i]
            &&& settled.participants == record.participants
            &&& settled.amount_per_person == record.amount_per_person
        }),
{
    record.participants.index_of_first_ensures(who);
}

/// Closure is refused as not fully paid as long as any share is unpaid; and
/// for the record's creator it goes through exactly when every share is
/// paid.
pub proof fn closure_needs_every_share_paid(ctx: CloseSplit)
    requires
        ctx.split.state is Some,
    ensures
        ({
            let record = ctx.split.state->Some_0;
            &&& !record@.all_paid() ==> close_outcome(ctx) == Err::<(), MicroSplitError>(
                MicroSplitError::NotFullyPaid,
            )
            &&& ctx.creator@ == record@.creator ==> (close_outcome(ctx) is Ok
                <==> record@.all_paid())
        }),
{
}

/// An account sized for the largest participant list holds every
/// well-formed record of the same identifier, and never takes more than 439
/// bytes.
pub proof fn record_fits_its_account(record: SplitStateView)
    requires
        record.wf(),
    ensures
        stored_bytes(encode_utf8(record.split_id).len(), record.participants.len())
            <= stored_bytes(encode_utf8(record.split_id).len(), MAX_PARTICIPANTS as nat),
        stored_bytes(encode_utf8(record.split_id).len(), MAX_PARTICIPANTS as nat)
            <= stored_bytes(MAX_SPLIT_ID_LEN as nat, MAX_PARTICIPANTS as nat) == 439,
{
}

} // verus!
