use vstd::prelude::*;
use crate::address::Address;

verus! {

/// A company profile record.
///
/// The workflow engine reads the initialization flag, the controlling
/// identity (`user_info_state_account_pubkey`) and the subscription fields;
/// the remaining profile fields are carried but not consulted.
#[derive(Debug, PartialEq, Clone)]
pub struct CompanyInfoState {
    pub is_initialized: bool,
    pub archived: bool,
    /// The applicant-profile record address of the identity allowed to
    /// administer this company.
    pub user_info_state_account_pubkey: Address,
    pub username: String,
    pub name: String,
    pub logo_uri: String,
    pub domain: String,
    pub company_type: String,
    pub company_size: String,
    pub company_stage: String,
    pub funding_amount: String,
    pub funding_currency: String,
    pub image_uri: String,
    pub cover_image_uri: String,
    pub founded_in: String,
    pub employee_size: String,
    pub address: String,
    pub description: String,
    pub website: String,
    pub linkedin: String,
    pub twitter: String,
    pub facebook: String,
    pub instagram: String,
    /// Subscription plan: "paynuse" (the pay-per-use baseline), or a paid
    /// plan such as "sixmonths", "yearly" or "forever".
    pub subscription_plan: String,
    /// Ledger time at which the subscription was purchased, in milliseconds.
    pub subscription_purchased_on: u64,
    /// Ledger time until which the subscription is valid, in milliseconds.
    pub subscription_valid_till: u64,
    /// Sequence number used as a derivation seed for the company's postings.
    pub company_seq_number: String,
}

impl CompanyInfoState {
    /// Fixed allocation size of the encoded record in the store.
    pub const LEN: usize = 1 + 1 + 32 + 32 + 64 + 128 + 64 + 8 + 8 + 32 + 32 + 8 + 128 + 128 + 16
        + 32 + 512 + 1024 + 128 + 128 + 128 + 128 + 128 + 16 + 8 + 8 + 8;

    /// Whether the record has been created.
    pub fn is_initialized(&self) -> (r: bool)
        ensures
            r == self.is_initialized,
    {
        self.is_initialized
    }
}

} // verus!
