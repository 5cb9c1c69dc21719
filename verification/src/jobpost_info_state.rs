use vstd::prelude::*;
use crate::address::Address;

verus! {

/// A job posting record.
///
/// The workflow engine reads the initialization flag, the company reference
/// and the posting's sequence number (`job_number`, a derivation seed); the
/// remaining posting fields are carried but not consulted.
#[derive(Debug, PartialEq, Clone)]
pub struct JobPostState {
    pub is_initialized: bool,
    pub archived: bool,
    pub owner_pubkey: Address,
    /// The company profile record this posting belongs to.
    pub company_pubkey: Address,
    pub job_title: String,
    pub short_description: String,
    pub long_description: String,
    pub category: Vec<String>,
    pub job_type: String,
    pub currency_type: String,
    pub currency: String,
    pub min_salary: u64,
    pub max_salary: u64,
    pub experience_in_months: u64,
    pub skills: Vec<String>,
    pub qualification: String,
    pub job_location_type: String,
    pub country: String,
    pub city: String,
    /// Sequence number used as a derivation seed for this posting's address.
    pub job_number: String,
}

impl JobPostState {
    /// Fixed allocation size of the encoded record in the store.
    pub const LEN: usize = 1 + 1 + 32 + 32 + 128 + 256 + 1024 + 148 + 16 + 8 + 8 + 8 + 8 + 8 + 660
        + 512 + 32 + 64 + 64 + 8;

    /// Whether the record has been created.
    pub fn is_initialized(&self) -> (r: bool)
        ensures
            r == self.is_initialized,
    {
        self.is_initialized
    }
}

} // verus!
