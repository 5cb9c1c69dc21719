use vstd::prelude::*;
use crate::address::Address;
use crate::applicant_info_state::ApplicantInfoState;
use crate::company_info_state::CompanyInfoState;
use crate::entitlement::{compute_entitlement, spec_entitled, spec_settlement};
use crate::error::WorkflowError;
use crate::instruction::{SpecInstruction, WorkflowStateInstruction};
use crate::jobpost_info_state::JobPostState;
use crate::state::WorkflowState;
use crate::validation::{
    spec_validate_addresses, spec_validate_references, validate_addresses, validate_references,
    WorkflowAccounts,
};

verus! {

/// What the create transition demands: the full validation chain (address,
/// signer and caller checks), then the store must register this module as
/// the workflow record's owner, then the record must not already be active.
pub open spec fn spec_add_workflow_checks(
    accounts: WorkflowAccounts,
    company: CompanyInfoState,
    applicant: ApplicantInfoState,
    job: JobPostState,
    existing: WorkflowState,
) -> Result<(), WorkflowError> {
    match spec_validate_references(accounts, company, applicant, job) {
        Err(e) => Err(e),
        Ok(()) => if accounts.workflow_record_owner@ != accounts.program_id@ {
            Err(WorkflowError::NotOwned)
        } else if existing.is_initialized {
            Err(WorkflowError::AlreadyInitialized)
        } else {
            Ok(())
        },
    }
}

/// What the update-status transition demands: the full validation chain
/// (address, signer and caller checks), then the record must be active and
/// owned by this module, the presented applicant record must be either the
/// company owner identity or the applicant identity stored on the record,
/// and the record must reference the validated job posting.
pub open spec fn spec_update_workflow_checks(
    accounts: WorkflowAccounts,
    company: CompanyInfoState,
    applicant: ApplicantInfoState,
    job: JobPostState,
    workflow: WorkflowState,
) -> Result<(), WorkflowError> {
    match spec_validate_references(accounts, company, applicant, job) {
        Err(e) => Err(e),
        Ok(()) => if !workflow.is_initialized {
            Err(WorkflowError::Uninitialized)
        } else if accounts.workflow_record_owner@ != accounts.program_id@ {
            Err(WorkflowError::NotOwned)
        } else if workflow.company_owner_pubkey@ != accounts.applicant_address@
            && workflow.user_pubkey@ != accounts.applicant_address@ {
            Err(WorkflowError::UnauthorizedRelationship)
        } else if workflow.job_pubkey@ != accounts.job_address@ {
            Err(WorkflowError::ForeignRecord)
        } else {
            Ok(())
        },
    }
}

/// What the update-payment transition demands: the applicant profile must be
/// active, then the address-derivation and signer checks, then the workflow
/// record must be active and owned by this module, its stored company owner
/// and job reference must match the validated graph, and the authorizing
/// identity must be the single configured subscription modifier.  No
/// caller-relationship check runs here: the modifier comparison is this
/// transition's only caller check, so the modifier can settle any
/// applicant's workflow.
pub open spec fn spec_update_payment_checks(
    accounts: WorkflowAccounts,
    company: CompanyInfoState,
    applicant: ApplicantInfoState,
    job: JobPostState,
    workflow: WorkflowState,
    subscription_modifier: Address,
) -> Result<(), WorkflowError> {
    if !applicant.is_initialized {
        Err(WorkflowError::Uninitialized)
    } else {
        match spec_validate_addresses(accounts, company, applicant, job) {
            Err(e) => Err(e),
            Ok(()) => if !workflow.is_initialized {
                Err(WorkflowError::Uninitialized)
            } else if accounts.workflow_record_owner@ != accounts.program_id@ {
                Err(WorkflowError::NotOwned)
            } else if workflow.company_owner_pubkey@ != company.user_info_state_account_pubkey@ {
                Err(WorkflowError::ForeignRecord)
            } else if workflow.job_pubkey@ != accounts.job_address@ {
                Err(WorkflowError::ForeignRecord)
            } else if accounts.owner@ != subscription_modifier@ {
                Err(WorkflowError::UnauthorizedRelationship)
            } else {
                Ok(())
            },
        }
    }
}

/// The workflow record produced by a successful create transition: freshly
/// active, unarchived and unsaved, carrying the given status, its reference
/// fields copied from the validated graph, timestamps at the ledger time,
/// and the entitlement decision applied with a zero paid amount.
pub open spec fn spec_created_record(
    w: WorkflowState,
    accounts: WorkflowAccounts,
    company: CompanyInfoState,
    status: Seq<char>,
    now: u64,
) -> bool {
    &&& w.is_initialized == true
    &&& w.archived == false
    &&& w.is_saved == false
    &&& w.status@ == status
    &&& w.company_owner_pubkey@ == company.user_info_state_account_pubkey@
    &&& w.company_pubkey@ == accounts.company_address@
    &&& w.user_pubkey@ == accounts.applicant_address@
    &&& w.job_pubkey@ == accounts.job_address@
    &&& w.job_applied_at == now
    &&& w.is_paid == spec_entitled(company.subscription_plan@, company.subscription_valid_till, now)
    &&& w.paid_amount == 0
    &&& w.paid_at == spec_settlement(
        company.subscription_plan@,
        company.subscription_purchased_on,
        company.subscription_valid_till,
        now,
    )
    &&& w.last_updated_at == now
}

/// The workflow record produced by a successful update-status transition:
/// the archival flags and the status are overwritten, the update time is
/// recorded, and every other field — the reference fields above all — is
/// unchanged.
pub open spec fn spec_status_updated_record(
    w: WorkflowState,
    prev: WorkflowState,
    archived: bool,
    is_saved: bool,
    status: Seq<char>,
    now: u64,
) -> bool {
    &&& w.archived == archived
    &&& w.is_saved == is_saved
    &&& w.status@ == status
    &&& w.last_updated_at == now
    &&& w.is_initialized == prev.is_initialized
    &&& w.company_owner_pubkey@ == prev.company_owner_pubkey@
    &&& w.company_pubkey@ == prev.company_pubkey@
    &&& w.user_pubkey@ == prev.user_pubkey@
    &&& w.job_pubkey@ == prev.job_pubkey@
    &&& w.job_applied_at == prev.job_applied_at
    &&& w.is_paid == prev.is_paid
    &&& w.paid_amount == prev.paid_amount
    &&& w.paid_at == prev.paid_at
}

/// The workflow record produced by a successful update-payment transition:
/// the payment fields are overwritten, the settlement and update times are
/// recorded, and every other field — the reference fields above all — is
/// unchanged.
pub open spec fn spec_payment_updated_record(
    w: WorkflowState,
    prev: WorkflowState,
    is_paid: bool,
    paid_amount: u64,
    now: u64,
) -> bool {
    &&& w.is_paid == is_paid
    &&& w.paid_amount == paid_amount
    &&& w.paid_at == now
    &&& w.last_updated_at == now
    &&& w.is_initialized == prev.is_initialized
    &&& w.archived == prev.archived
    &&& w.is_saved == prev.is_saved
    &&& w.status@ == prev.status@
    &&& w.company_owner_pubkey@ == prev.company_owner_pubkey@
    &&& w.company_pubkey@ == prev.company_pubkey@
    &&& w.user_pubkey@ == prev.user_pubkey@
    &&& w.job_pubkey@ == prev.job_pubkey@
    &&& w.job_applied_at == prev.job_applied_at
}

/// The workflow engine: applies one of the three transitions to a workflow
/// record, after validating the supplied record graph.
pub struct Processor;

impl Processor {
    /// The create transition.  Validates the record graph, requires the
    /// target record to be owned by this module and not yet active, and
    /// produces the initial workflow record for this job-applicant pair:
    /// reference fields copied from the validated records, timestamps at the
    /// ledger time `now` (milliseconds), and the creation-time entitlement
    /// decision applied.
    pub fn add_workflow_state(
        accounts: &WorkflowAccounts,
        company: &CompanyInfoState,
        applicant: &ApplicantInfoState,
        job: &JobPostState,
        existing: &WorkflowState,
        status: String,
        now: u64,
    ) -> (r: Result<WorkflowState, WorkflowError>)
        ensures
            match r {
                Ok(w) => spec_add_workflow_checks(
                    *accounts,
                    *company,
                    *applicant,
                    *job,
                    *existing,
                ) is Ok && spec_created_record(w, *accounts, *company, status@, now),
                Err(e) => spec_add_workflow_checks(*accounts, *company, *applicant, *job, *existing)
                    == Err::<(), WorkflowError>(e),
            },
    {
        match validate_references(accounts, company, applicant, job) {
            Ok(()) => (),
            Err(e) => {
                return Err(e);
            },
        }
        if !accounts.workflow_record_owner.equals(&accounts.program_id) {
            return Err(WorkflowError::NotOwned);
        }
        if existing.is_initialized() {
            return Err(WorkflowError::AlreadyInitialized);
        }
        let entitlement = compute_entitlement(
            &company.subscription_plan,
            company.subscription_purchased_on,
            company.subscription_valid_till,
            now,
        );
        Ok(
            WorkflowState {
                is_initialized: true,
                archived: false,
                company_owner_pubkey: company.user_info_state_account_pubkey,
                company_pubkey: accounts.company_address,
                user_pubkey: accounts.applicant_address,
                job_pubkey: accounts.job_address,
                status,
                is_saved: false,
                job_applied_at: now,
                is_paid: entitlement.0,
                paid_amount: 0,
                paid_at: entitlement.1,
                last_updated_at: now,
            },
        )
    }

    /// The update-status transition.  Validates the record graph, requires
    /// the record to be active and the caller to be the company owner or the
    /// applicant stored on it, and overwrites the archival flags and the
    /// status; the reference fields never change.  Whether a given status
    /// implies archival is the caller's decision.
    pub fn update_workflow_state(
        accounts: &WorkflowAccounts,
        company: &CompanyInfoState,
        applicant: &ApplicantInfoState,
        job: &JobPostState,
        workflow: &WorkflowState,
        archived: bool,
        is_saved: bool,
        status: String,
        now: u64,
    ) -> (r: Result<WorkflowState, WorkflowError>)
        ensures
            match r {
                Ok(w) => spec_update_workflow_checks(
                    *accounts,
                    *company,
                    *applicant,
                    *job,
                    *workflow,
                ) is Ok && spec_status_updated_record(w, *workflow, archived, is_saved, status@, now),
                Err(e) => spec_update_workflow_checks(
                    *accounts,
                    *company,
                    *applicant,
                    *job,
                    *workflow,
                ) == Err::<(), WorkflowError>(e),
            },
    {
        match validate_references(accounts, company, applicant, job) {
            Ok(()) => (),
            Err(e) => {
                return Err(e);
            },
        }
        if !workflow.is_initialized() {
            return Err(WorkflowError::Uninitialized);
        }
        if !accounts.workflow_record_owner.equals(&accounts.program_id) {
            return Err(WorkflowError::NotOwned);
        }
        if !workflow.company_owner_pubkey.equals(&accounts.applicant_address)
            && !workflow.user_pubkey.equals(&accounts.applicant_address) {
            return Err(WorkflowError::UnauthorizedRelationship);
        }
        if !workflow.job_pubkey.equals(&accounts.job_address) {
            return Err(WorkflowError::ForeignRecord);
        }
        Ok(
            WorkflowState {
                is_initialized: workflow.is_initialized,
                archived,
                company_owner_pubkey: workflow.company_owner_pubkey,
                company_pubkey: workflow.company_pubkey,
                user_pubkey: workflow.user_pubkey,
                job_pubkey: workflow.job_pubkey,
                status,
                is_saved,
                job_applied_at: workflow.job_applied_at,
                is_paid: workflow.is_paid,
                paid_amount: workflow.paid_amount,
                paid_at: workflow.paid_at,
                last_updated_at: now,
            },
        )
    }

    /// The update-payment transition.  Re-derives and checks every address,
    /// and checks the record's stored references; the caller check is the
    /// subscription-modifier comparison alone, so the modifier can settle
    /// any applicant's workflow, while any other authorizing identity is
    /// rejected — even the company owner.  Overwrites the payment fields
    /// and records the settlement time; the reference fields never change.
    pub fn update_workflow_payment_state(
        accounts: &WorkflowAccounts,
        company: &CompanyInfoState,
        applicant: &ApplicantInfoState,
        job: &JobPostState,
        workflow: &WorkflowState,
        subscription_modifier: &Address,
        is_paid: bool,
        paid_amount: u64,
        now: u64,
    ) -> (r: Result<WorkflowState, WorkflowError>)
        ensures
            match r {
                Ok(w) => spec_update_payment_checks(
                    *accounts,
                    *company,
                    *applicant,
                    *job,
                    *workflow,
                    *subscription_modifier,
                ) is Ok && spec_payment_updated_record(w, *workflow, is_paid, paid_amount, now),
                Err(e) => spec_update_payment_checks(
                    *accounts,
                    *company,
                    *applicant,
                    *job,
                    *workflow,
                    *subscription_modifier,
                ) == Err::<(), WorkflowError>(e),
            },
    {
        if !applicant.is_initialized() {
            return Err(WorkflowError::Uninitialized);
        }
        match validate_addresses(accounts, company, applicant, job) {
            Ok(()) => (),
            Err(e) => {
                return Err(e);
            },
        }
        if !workflow.is_initialized() {
            return Err(WorkflowError::Uninitialized);
        }
        if !accounts.workflow_record_owner.equals(&accounts.program_id) {
            return Err(WorkflowError::NotOwned);
        }
        if !workflow.company_owner_pubkey.equals(&company.user_info_state_account_pubkey) {
            return Err(WorkflowError::ForeignRecord);
        }
        if !workflow.job_pubkey.equals(&accounts.job_address) {
            return Err(WorkflowError::ForeignRecord);
        }
        if !accounts.owner.equals(subscription_modifier) {
            return Err(WorkflowError::UnauthorizedRelationship);
        }
        Ok(
            WorkflowState {
                is_initialized: workflow.is_initialized,
                archived: workflow.archived,
                company_owner_pubkey: workflow.company_owner_pubkey,
                company_pubkey: workflow.company_pubkey,
                user_pubkey: workflow.user_pubkey,
                job_pubkey: workflow.job_pubkey,
                status: workflow.status.clone(),
                is_saved: workflow.is_saved,
                job_applied_at: workflow.job_applied_at,
                is_paid,
                paid_amount,
                paid_at: now,
                last_updated_at: now,
            },
        )
    }

    /// Decodes a raw instruction payload and applies the selected
    /// transition.  The workflow record the transition produces is returned
    /// for the caller to write back; on any rejection nothing is produced
    /// and no record may be mutated.
    pub fn process(
        accounts: &WorkflowAccounts,
        company: &CompanyInfoState,
        applicant: &ApplicantInfoState,
        job: &JobPostState,
        workflow: &WorkflowState,
        subscription_modifier: &Address,
        instruction_data: &[u8],
        now: u64,
    ) -> (r: Result<WorkflowState, WorkflowError>)
        ensures
            match crate::instruction::spec_unpack(instruction_data@) {
                Err(e) => r == Err::<WorkflowState, WorkflowError>(e),
                Ok(instruction) => match instruction {
                    SpecInstruction::AddWorkflowState { status } => match r {
                        Ok(w) => spec_add_workflow_checks(
                            *accounts,
                            *company,
                            *applicant,
                            *job,
                            *workflow,
                        ) is Ok && spec_created_record(w, *accounts, *company, status, now),
                        Err(e) => spec_add_workflow_checks(
                            *accounts,
                            *company,
                            *applicant,
                            *job,
                            *workflow,
                        ) == Err::<(), WorkflowError>(e),
                    },
                    SpecInstruction::UpdateWorkflowState { archived, is_saved, status } => match r {
                        Ok(w) => spec_update_workflow_checks(
                            *accounts,
                            *company,
                            *applicant,
                            *job,
                            *workflow,
                        ) is Ok && spec_status_updated_record(
                            w,
                            *workflow,
                            archived,
                            is_saved,
                            status,
                            now,
                        ),
                        Err(e) => spec_update_workflow_checks(
                            *accounts,
                            *company,
                            *applicant,
                            *job,
                            *workflow,
                        ) == Err::<(), WorkflowError>(e),
                    },
                    SpecInstruction::UpdateWorkflowPaymentState { is_paid, paid_amount } => match r {
                        Ok(w) => spec_update_payment_checks(
                            *accounts,
                            *company,
                            *applicant,
                            *job,
                            *workflow,
                            *subscription_modifier,
                        ) is Ok && spec_payment_updated_record(w, *workflow, is_paid, paid_amount, now),
                        Err(e) => spec_update_payment_checks(
                            *accounts,
                            *company,
                            *applicant,
                            *job,
                            *workflow,
                            *subscription_modifier,
                        ) == Err::<(), WorkflowError>(e),
                    },
                },
            },
    {
        let instruction = match WorkflowStateInstruction::unpack(instruction_data) {
            Ok(instruction) => instruction,
            Err(e) => {
                return Err(e);
            },
        };
        match instruction {
            WorkflowStateInstruction::AddWorkflowState { status } => {
                Self::add_workflow_state(accounts, company, applicant, job, workflow, status, now)
            },
            WorkflowStateInstruction::UpdateWorkflowState { archived, is_saved, status } => {
                Self::update_workflow_state(
                    accounts,
                    company,
                    applicant,
                    job,
                    workflow,
                    archived,
                    is_saved,
                    status,
                    now,
                )
            },
            WorkflowStateInstruction::UpdateWorkflowPaymentState { is_paid, paid_amount } => {
                Self::update_workflow_payment_state(
                    accounts,
                    company,
                    applicant,
                    job,
                    workflow,
                    subscription_modifier,
                    is_paid,
                    paid_amount,
                    now,
                )
            },
        }
    }
}

/// A workflow record can be created only once at its derived address: if
/// creation succeeds against a not-yet-active record, a second creation
/// attempt presenting the same validated graph and the just-created record
/// is rejected with AlreadyInitialized.
pub proof fn lemma_create_once(
    accounts: WorkflowAccounts,
    company: CompanyInfoState,
    applicant: ApplicantInfoState,
    job: JobPostState,
    fresh: WorkflowState,
    created: WorkflowState,
)
    requires
        spec_add_workflow_checks(accounts, company, applicant, job, fresh) is Ok,
        created.is_initialized,
    ensures
        spec_add_workflow_checks(accounts, company, applicant, job, created) == Err::<
            (),
            WorkflowError,
        >(WorkflowError::AlreadyInitialized),
{
}

/// Update-status is closed to strangers: when the validated graph would
/// otherwise permit the update, a presented applicant record that is neither
/// the company owner identity nor the applicant identity stored on the
/// workflow record is rejected with UnauthorizedRelationship.
pub proof fn lemma_update_status_requires_relationship(
    accounts: WorkflowAccounts,
    company: CompanyInfoState,
    applicant: ApplicantInfoState,
    job: JobPostState,
    workflow: WorkflowState,
)
    requires
        spec_validate_references(accounts, company, applicant, job) is Ok,
        workflow.is_initialized,
        accounts.workflow_record_owner@ == accounts.program_id@,
        workflow.company_owner_pubkey@ != accounts.applicant_address@,
        workflow.user_pubkey@ != accounts.applicant_address@,
    ensures
        spec_update_workflow_checks(accounts, company, applicant, job, workflow) == Err::<
            (),
            WorkflowError,
        >(WorkflowError::UnauthorizedRelationship),
{
}

/// Update-payment is closed to everyone but the configured subscription
/// modifier: whenever the authorizing identity differs from it, the
/// transition is rejected — nothing here excludes the company owner, so the
/// rejection covers that caller too.
pub proof fn lemma_payment_requires_modifier(
    accounts: WorkflowAccounts,
    company: CompanyInfoState,
    applicant: ApplicantInfoState,
    job: JobPostState,
    workflow: WorkflowState,
    subscription_modifier: Address,
)
    requires
        accounts.owner@ != subscription_modifier@,
    ensures
        spec_update_payment_checks(
            accounts,
            company,
            applicant,
            job,
            workflow,
            subscription_modifier,
        ) is Err,
{
}

} // verus!
