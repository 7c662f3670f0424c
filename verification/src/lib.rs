//! Expense splitting on a ledger: a creator opens a bill, each participant
//! settles an equal share, and the creator closes the record once every
//! share is paid.
//!
//! The instructions work on plain values. The ledger authenticates the
//! invoking wallets, reads its clock, carries out the transfers and keeps
//! the accounts; this crate decides what each instruction does to a record.

pub mod accounts;
pub mod address;
pub mod closure;
pub mod creation;
pub mod error;
pub mod events;
pub mod identity;
pub mod laws;
pub mod settlement;
pub mod state;

pub use accounts::{CloseSplit, CreateSplit, PaySplit, SplitAccount};
pub use address::{find_split_address, split_address_with_bump, SPLIT_SEED_TAG};
pub use closure::close_split;
pub use creation::{check_creation, create_split, create_split_at};
pub use error::MicroSplitError;
pub use events::{PaymentMade, SplitCreated, Transfer};
pub use identity::Identity;
pub use settlement::{
    confirm_payment, confirm_payment_at, pay_split, pay_split_at, rederive_address,
};
pub use state::{SplitState, SplitStateView, MAX_PARTICIPANTS, MAX_SPLIT_ID_LEN};
