use vstd::prelude::*;
use crate::address::{
    derivation_of, applicant_seeds, job_seeds, workflow_seeds, spec_applicant_seeds,
    spec_job_seeds, spec_workflow_seeds, Address,
};
use crate::applicant_info_state::ApplicantInfoState;
use crate::company_info_state::CompanyInfoState;
use crate::error::WorkflowError;
use crate::jobpost_info_state::JobPostState;

verus! {

/// The addresses and signer metadata an instruction supplies, in the fixed
/// account order: the authorizing identity, the four record addresses, and
/// the owning-module identifiers of the referenced record types.
///
/// None of these values is trusted: every record address is re-derived and
/// compared before any mutation.
#[derive(Clone, Copy, Debug)]
pub struct WorkflowAccounts {
    /// The authorizing identity submitting the instruction.
    pub owner: Address,
    /// Whether the authorizing identity has signed the instruction.
    pub owner_is_signer: bool,
    /// Supplied address of the company profile record.
    pub company_address: Address,
    /// Supplied address of the applicant profile record.
    pub applicant_address: Address,
    /// Supplied address of the job posting record.
    pub job_address: Address,
    /// Supplied address of the workflow record.
    pub workflow_address: Address,
    /// The module the store registers as the workflow record's owner.
    pub workflow_record_owner: Address,
    /// Owning module of applicant profile records.
    pub applicant_module: Address,
    /// Owning module of company profile records (supplied with the
    /// instruction; not consulted by the validation chain).
    pub company_module: Address,
    /// Owning module of job posting records.
    pub job_module: Address,
    /// This module's own identifier, under which workflow records live.
    pub program_id: Address,
}

/// The ordered address-derivation and signer checks applied before every
/// mutation.
///
/// In order: the applicant profile's address is re-derived from the owning
/// identity stored in the profile itself; the company profile must be
/// initialized; the job posting's address is re-derived from its sequence
/// number and the company address; the workflow record's address is
/// re-derived from the job and applicant addresses; and the authorizing
/// identity must have signed.  The first failed check decides the error.
pub open spec fn spec_validate_addresses(
    accounts: WorkflowAccounts,
    company: CompanyInfoState,
    applicant: ApplicantInfoState,
    job: JobPostState,
) -> Result<(), WorkflowError> {
    match derivation_of(
        spec_applicant_seeds(applicant.owner_pubkey@),
        accounts.applicant_module@,
    ) {
        None => Err(WorkflowError::DerivationFailure),
        Some(applicant_derived) => if applicant_derived.0 != accounts.applicant_address@ {
            Err(WorkflowError::AddressMismatch)
        } else if !company.is_initialized {
            Err(WorkflowError::Uninitialized)
        } else {
            match derivation_of(
                spec_job_seeds(job.job_number@, accounts.company_address@),
                accounts.job_module@,
            ) {
                None => Err(WorkflowError::DerivationFailure),
                Some(job_derived) => if job_derived.0 != accounts.job_address@ {
                    Err(WorkflowError::AddressMismatch)
                } else {
                    match derivation_of(
                        spec_workflow_seeds(accounts.job_address@, accounts.applicant_address@),
                        accounts.program_id@,
                    ) {
                        None => Err(WorkflowError::DerivationFailure),
                        Some(workflow_derived) => if workflow_derived.0
                            != accounts.workflow_address@ {
                            Err(WorkflowError::AddressMismatch)
                        } else if !accounts.owner_is_signer {
                            Err(WorkflowError::MissingAuthorization)
                        } else {
                            Ok(())
                        },
                    }
                },
            }
        },
    }
}

/// The caller-relationship check of the create and update-status
/// transitions: the signer must own the presented applicant profile.
///
/// This anchors both permitted linkages to the caller.  The applicant acts
/// through their own profile; the company administrator acts through the
/// company's controlling profile, which they own — and each transition's
/// record-level checks then bind the presented profile to the record, so a
/// signer who merely presents someone else's profile is rejected here.
pub open spec fn spec_caller_linked(
    accounts: WorkflowAccounts,
    applicant: ApplicantInfoState,
) -> bool {
    applicant.owner_pubkey@ == accounts.owner@
}

/// The full validation chain of the create and update-status transitions:
/// the address-derivation and signer checks, then the caller-relationship
/// check.  The payment transition runs the address checks only; its caller
/// check is the subscription-modifier comparison.
pub open spec fn spec_validate_references(
    accounts: WorkflowAccounts,
    company: CompanyInfoState,
    applicant: ApplicantInfoState,
    job: JobPostState,
) -> Result<(), WorkflowError> {
    match spec_validate_addresses(accounts, company, applicant, job) {
        Err(e) => Err(e),
        Ok(()) => if !spec_caller_linked(accounts, applicant) {
            Err(WorkflowError::UnauthorizedRelationship)
        } else {
            Ok(())
        },
    }
}

/// Re-derives the expected address of every record an instruction touches,
/// failing fast on the first mismatch, and requires the authorizing identity
/// to have signed.  Addresses are never trusted from a prior instruction.
pub fn validate_addresses(
    accounts: &WorkflowAccounts,
    company: &CompanyInfoState,
    applicant: &ApplicantInfoState,
    job: &JobPostState,
) -> (r: Result<(), WorkflowError>)
    ensures
        r == spec_validate_addresses(*accounts, *company, *applicant, *job),
{
    let seeds = applicant_seeds(&applicant.owner_pubkey);
    let applicant_derived = match crate::address::derive(&seeds, &accounts.applicant_module) {
        Ok(p) => p.0,
        Err(e) => {
            return Err(e);
        },
    };
    if !applicant_derived.equals(&accounts.applicant_address) {
        return Err(WorkflowError::AddressMismatch);
    }
    if !company.is_initialized() {
        return Err(WorkflowError::Uninitialized);
    }
    let seeds = job_seeds(job.job_number.as_str(), &accounts.company_address);
    let job_derived = match crate::address::derive(&seeds, &accounts.job_module) {
        Ok(p) => p.0,
        Err(e) => {
            return Err(e);
        },
    };
    if !job_derived.equals(&accounts.job_address) {
        return Err(WorkflowError::AddressMismatch);
    }
    let seeds = workflow_seeds(&accounts.job_address, &accounts.applicant_address);
    let workflow_derived = match crate::address::derive(&seeds, &accounts.program_id) {
        Ok(p) => p.0,
        Err(e) => {
            return Err(e);
        },
    };
    if !workflow_derived.equals(&accounts.workflow_address) {
        return Err(WorkflowError::AddressMismatch);
    }
    if !accounts.owner_is_signer {
        return Err(WorkflowError::MissingAuthorization);
    }
    Ok(())
}

/// The address-derivation and signer checks followed by the
/// caller-relationship check: the validation chain of the create and
/// update-status transitions.
pub fn validate_references(
    accounts: &WorkflowAccounts,
    company: &CompanyInfoState,
    applicant: &ApplicantInfoState,
    job: &JobPostState,
) -> (r: Result<(), WorkflowError>)
    ensures
        r == spec_validate_references(*accounts, *company, *applicant, *job),
{
    match validate_addresses(accounts, company, applicant, job) {
        Ok(()) => (),
        Err(e) => {
            return Err(e);
        },
    }
    if !applicant.owner_pubkey.equals(&accounts.owner) {
        return Err(WorkflowError::UnauthorizedRelationship);
    }
    Ok(())
}

} // verus!
