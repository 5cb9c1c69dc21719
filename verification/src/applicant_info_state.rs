use vstd::prelude::*;
use crate::address::Address;

verus! {

/// An applicant profile record.
///
/// The workflow engine reads the initialization flag and the owning identity
/// (`owner_pubkey`, the account that may act as this applicant, and the seed
/// from which the profile's own address is derived); the remaining profile
/// fields are carried but not consulted.
#[derive(Debug, PartialEq, Clone)]
pub struct ApplicantInfoState {
    pub is_initialized: bool,
    /// The identity that owns this profile and may act as the applicant.
    pub owner_pubkey: Address,
    pub created_at: u64,
    pub updated_at: u64,
    pub username: String,
    pub name: String,
    pub address: String,
    pub image_uri: String,
    pub bio: String,
    pub skills: Vec<String>,
    pub designation: String,
    pub current_employment_status: String,
    pub can_join_in: String,
    pub user_type: String,
    pub is_company_profile_complete: bool,
    pub is_overview_complete: bool,
    pub is_projects_complete: bool,
    pub is_contact_info_complete: bool,
    pub is_education_complete: bool,
    pub is_work_experience_complete: bool,
}

impl ApplicantInfoState {
    /// Fixed allocation size of the encoded record in the store.
    pub const LEN: usize = 1 + 32 + 8 + 8 + 32 + 32 + 256 + 128 + 512 + 660 + 64 + 32 + 32 + 16 + 1
        + 1 + 1 + 1 + 1 + 1;

    /// Whether the record has been created.
    pub fn is_initialized(&self) -> (r: bool)
        ensures
            r == self.is_initialized,
    {
        self.is_initialized
    }
}

} // verus!
