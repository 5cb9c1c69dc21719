use vstd::prelude::*;
use crate::address::Address;

verus! {

/// The workflow record: tracks one applicant's engagement with one job
/// posting through status changes and a payment/entitlement flag.
///
/// The three reference fields `company_pubkey`, `user_pubkey` and
/// `job_pubkey`, and the copied `company_owner_pubkey`, are fixed at creation
/// and never change afterwards; only the status and payment fields, the
/// archival flags and the timestamps are mutable.
#[derive(Debug, PartialEq, Clone)]
pub struct WorkflowState {
    pub is_initialized: bool,
    /// Set by the caller when the engagement has reached a terminal status.
    pub archived: bool,
    /// The identity allowed to administer the company, copied from the
    /// company profile's controlling identity at creation.
    pub company_owner_pubkey: Address,
    pub company_pubkey: Address,
    /// The applicant profile record's address.
    pub user_pubkey: Address,
    pub job_pubkey: Address,
    /// Free-form short status string, conventionally one of applied,
    /// in_progress, accepted, rejected, withdraw or saved.
    pub status: String,
    /// Set by the caller when the applicant saves the job.
    pub is_saved: bool,
    /// Ledger time of creation, in milliseconds.
    pub job_applied_at: u64,
    pub is_paid: bool,
    pub paid_amount: u64,
    /// Settlement time: the subscription's purchase time when creation-time
    /// entitlement applies, otherwise the ledger time of the payment update.
    pub paid_at: u64,
    pub last_updated_at: u64,
}

impl WorkflowState {
    /// Fixed allocation size of the encoded record in the store.
    pub const LEN: usize = 1 + 1 + 1 + 16 + 32 + 32 + 32 + 32 + 8 + 1 + 8 + 8 + 8;

    /// Whether the record has been created.
    pub fn is_initialized(&self) -> (r: bool)
        ensures
            r == self.is_initialized,
    {
        self.is_initialized
    }
}

} // verus!
