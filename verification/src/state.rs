//! The split record: the one persistent entity of the program.

use vstd::prelude::*;
use vstd::utf8::encode_utf8;
use crate::identity::Identity;

verus! {

/// Longest split identifier, in bytes.
pub const MAX_SPLIT_ID_LEN: usize = 32;

/// Largest number of participants in one split.
pub const MAX_PARTICIPANTS: usize = 10;

/// Bytes that a stored record takes: 77 for what is fixed (discriminator,
/// creator, length prefixes, amounts, creation time, bump), the bytes of
/// the identifier, and 33 for each participant (identity and paid flag).
pub open spec fn stored_bytes(split_id_bytes: nat, participants: nat) -> nat {
    77 + split_id_bytes + 33 * participants
}

/// The mathematical content of a split record.
pub struct SplitStateView {
    /// Bytes of the creator's identity.
    pub creator: Seq<u8>,
    /// Characters of the split identifier.
    pub split_id: Seq<char>,
    /// Total bill, in the smallest currency unit.
    pub total_amount: u64,
    /// Share owed by each participant.
    pub amount_per_person: u64,
    /// Bytes of each participant's identity, in creation order.
    pub participants: Seq<Seq<u8>>,
    /// `paid[i]` tells whether `participants[i]` has settled.
    pub paid: Seq<bool>,
    /// Ledger time at creation.
    pub created_at: i64,
    /// Bump byte of the record's address.
    pub bump: u8,
}

impl SplitStateView {
    /// The invariant of a record: a short identifier, a positive total, one
    /// to ten participants with one paid flag each, and an equal share that
    /// drops the remainder.
    pub open spec fn wf(self) -> bool {
        &&& encode_utf8(self.split_id).len() <= MAX_SPLIT_ID_LEN
        &&& self.total_amount > 0
        &&& 1 <= self.participants.len() <= MAX_PARTICIPANTS
        &&& self.paid.len() == self.participants.len()
        &&& self.amount_per_person == self.total_amount / (self.participants.len() as u64)
    }

    /// Whether every participant has settled.
    pub open spec fn all_paid(self) -> bool {
        forall|i: int| 0 <= i < self.paid.len() ==> self.paid[i]
    }

    /// The first position of `who` among the participants, if any.
    pub open spec fn position_of(self, who: Seq<u8>) -> Option<int> {
        self.participants.index_of_first(who)
    }

    /// The record after the participant at `index` has settled.
    pub open spec fn with_paid(self, index: int) -> SplitStateView {
        SplitStateView { paid: self.paid.update(index, true), ..self }
    }

    /// The record as creation leaves it: nobody has paid, and the share is
    /// the total divided by the number of participants.
    pub open spec fn fresh(
        creator: Seq<u8>,
        split_id: Seq<char>,
        total_amount: u64,
        participants: Seq<Seq<u8>>,
        created_at: i64,
        bump: u8,
    ) -> SplitStateView {
        SplitStateView {
            creator,
            split_id,
            total_amount,
            amount_per_person: total_amount / (participants.len() as u64),
            participants,
            paid: Seq::new(participants.len(), |i: int| false),
            created_at,
            bump,
        }
    }
}

/// Length of a string in bytes.
pub fn byte_len(s: &str) -> (n: usize)
    ensures
        n == encode_utf8(s@).len(),
{
    s.as_bytes().len()
}

/// The bytes of each identity, in order.
pub open spec fn identity_bytes(ids: Seq<Identity>) -> Seq<Seq<u8>> {
    ids.map_values(|id: Identity| id@)
}

/// One expense split as the ledger stores it.
///
/// A value of this type always satisfies [`SplitStateView::wf`].
#[derive(Debug)]
pub struct SplitState {
    creator: Identity,
    split_id: String,
    total_amount: u64,
    amount_per_person: u64,
    participants: Vec<Identity>,
    paid: Vec<bool>,
    created_at: i64,
    bump: u8,
}

impl View for SplitState {
    type V = SplitStateView;

    closed spec fn view(&self) -> SplitStateView {
        SplitStateView {
            creator: self.creator@,
            split_id: self.split_id@,
            total_amount: self.total_amount,
            amount_per_person: self.amount_per_person,
            participants: identity_bytes(self.participants@),
            paid: self.paid@,
            created_at: self.created_at,
            bump: self.bump,
        }
    }
}

impl SplitState {
    #[verifier::type_invariant]
    spec fn inv(&self) -> bool {
        self@.wf()
    }

    /// A new record on inputs that creation has accepted: nobody has paid
    /// yet, and each share is the total divided by the number of
    /// participants, the remainder dropped.
    pub(crate) fn open(
        creator: Identity,
        split_id: String,
        total_amount: u64,
        participants: Vec<Identity>,
        created_at: i64,
        bump: u8,
    ) -> (record: SplitState)
        requires
            encode_utf8(split_id@).len() <= MAX_SPLIT_ID_LEN,
            total_amount > 0,
            1 <= participants.len() <= MAX_PARTICIPANTS,
        ensures
            record@ == SplitStateView::fresh(
                creator@,
                split_id@,
                total_amount,
                identity_bytes(participants@),
                created_at,
                bump,
            ),
            record@.wf(),
    {
        let n: usize = participants.len();
        let mut paid: Vec<bool> = Vec::new();
        while paid.len() < n
            invariant
                paid.len() <= n,
                forall|i: int| 0 <= i < paid.len() ==> !paid[i],
            decreases n - paid.len(),
        {
            paid.push(false);
        }
        assert(paid@ =~= Seq::new(identity_bytes(participants@).len(), |i: int| false));
        SplitState {
            creator,
            split_id,
            total_amount,
            amount_per_person: total_amount / (n as u64),
            participants,
            paid,
            created_at,
            bump,
        }
    }

    /// Rebuilds a record from stored fields, if they satisfy the invariant
    /// of a record.
    pub fn from_parts(
        creator: Identity,
        split_id: String,
        total_amount: u64,
        amount_per_person: u64,
        participants: Vec<Identity>,
        paid: Vec<bool>,
        created_at: i64,
        bump: u8,
    ) -> (record: Option<SplitState>)
        ensures
            match record {
                Some(r) => r@.wf() && r@ == (SplitStateView {
                    creator: creator@,
                    split_id: split_id@,
                    total_amount,
                    amount_per_person,
                    participants: identity_bytes(participants@),
                    paid: paid@,
                    created_at,
                    bump,
                }),
                None => !(SplitStateView {
                    creator: creator@,
                    split_id: split_id@,
                    total_amount,
                    amount_per_person,
                    participants: identity_bytes(participants@),
                    paid: paid@,
                    created_at,
                    bump,
                }).wf(),
            },
    {
        let n: usize = participants.len();
        if byte_len(split_id.as_str()) > MAX_SPLIT_ID_LEN || total_amount == 0 || n < 1
            || n > MAX_PARTICIPANTS || paid.len() != n {
            return None;
        }
        if amount_per_person != total_amount / (n as u64) {
            return None;
        }
        Some(
            SplitState {
                creator,
                split_id,
                total_amount,
                amount_per_person,
                participants,
                paid,
                created_at,
                bump,
            },
        )
    }

    /// The wallet that created the split.
    pub fn creator(&self) -> (creator: Identity)
        ensures
            creator@ == self@.creator,
    {
        self.creator
    }

    /// The identifier that the creator chose.
    pub fn split_id(&self) -> (split_id: &String)
        ensures
            split_id@ == self@.split_id,
    {
        &self.split_id
    }

    /// The total bill.
    pub fn total_amount(&self) -> (total: u64)
        ensures
            total == self@.total_amount,
    {
        self.total_amount
    }

    /// The share that each participant owes.
    pub fn amount_per_person(&self) -> (share: u64)
        ensures
            share == self@.amount_per_person,
    {
        self.amount_per_person
    }

    /// The participants, in creation order.
    pub fn participants(&self) -> (participants: &Vec<Identity>)
        ensures
            identity_bytes(participants@) == self@.participants,
            self@.wf(),
    {
        proof {
            use_type_invariant(self);
        }
        &self.participants
    }

    /// The paid flags, one for each participant.
    pub fn paid(&self) -> (paid: &Vec<bool>)
        ensures
            paid@ == self@.paid,
            self@.wf(),
    {
        proof {
            use_type_invariant(self);
        }
        &self.paid
    }

    /// Ledger time at creation.
    pub fn created_at(&self) -> (created_at: i64)
        ensures
            created_at == self@.created_at,
    {
        self.created_at
    }

    /// The bump byte of the record's address.
    pub fn bump(&self) -> (bump: u8)
        ensures
            bump == self@.bump,
    {
        self.bump
    }

    /// The first position of `who` among the participants.
    pub fn position_of(&self, who: &Identity) -> (position: Option<usize>)
        ensures
            match position {
                Some(i) => self@.position_of(who@) == Some(i as int)
                    && i < self@.participants.len(),
                None => self@.position_of(who@) is None,
            },
            self@.wf(),
    {
        proof {
            use_type_invariant(self);
        }
        let ghost ids = self@.participants;
        let mut i: usize = 0;
        while i < self.participants.len()
            invariant
                i <= self.participants.len(),
                ids == identity_bytes(self.participants@),
                self@.wf(),
                forall|j: int| 0 <= j < i ==> ids[j] != who@,
            decreases self.participants.len() - i,
        {
            if self.participants[i].same_as(who) {
                proof {
                    assert(ids[i as int] == who@);
                    ids.index_of_first_ensures(who@);
                }
                return Some(i);
            }
            i += 1;
        }
        proof {
            ids.index_of_first_ensures(who@);
        }
        None
    }

    /// Whether every participant has settled.
    pub fn is_fully_paid(&self) -> (all: bool)
        ensures
            all == self@.all_paid(),
    {
        let mut i: usize = 0;
        while i < self.paid.len()
            invariant
                i <= self.paid.len(),
                forall|j: int| 0 <= j < i ==> self.paid@[j],
            decreases self.paid.len() - i,
        {
            if !self.paid[i] {
                assert(!self@.paid[i as int]);
                return false;
            }
            i += 1;
        }
        true
    }

    /// Marks the participant at `index` as paid.
    pub(crate) fn mark_paid(&mut self, index: usize)
        requires
            index < old(self)@.participants.len(),
        ensures
            final(self)@ == old(self)@.with_paid(index as int),
            final(self)@.wf(),
    {
        proof {
            use_type_invariant(&*self);
        }
        self.paid[index] = true;
    }

    /// Number of bytes that storing a record takes, with room for
    /// `max_participants` participants and their paid flags.
    pub fn space(split_id: &str, max_participants: usize) -> (bytes: usize)
        requires
            stored_bytes(encode_utf8(split_id@).len(), max_participants as nat) <= usize::MAX,
        ensures
            bytes == stored_bytes(encode_utf8(split_id@).len(), max_participants as nat),
    {
        8  // record discriminator
         + 32  // creator
         + 4 + split_id.len()  // split_id: length prefix and bytes
         + 8  // total_amount
         + 8  // amount_per_person
         + 4 + (32 * max_participants)  // participants: length prefix and identities
         + 4 + max_participants  // paid: length prefix and flags
         + 8  // created_at
         + 1  // bump
    }
}

} // verus!
