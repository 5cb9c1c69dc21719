use job_workflow::address::{applicant_seeds, job_seeds, workflow_seeds, Address};
use job_workflow::applicant_info_state::ApplicantInfoState;
use job_workflow::company_info_state::CompanyInfoState;
use job_workflow::entitlement::compute_entitlement;
use job_workflow::error::WorkflowError;
use job_workflow::jobpost_info_state::JobPostState;
use job_workflow::processor::Processor;
use job_workflow::state::WorkflowState;
use job_workflow::validation::{validate_references, WorkflowAccounts};

fn derive_address(seeds: &Vec<Vec<u8>>, owner: &Address) -> Address {
    job_workflow::address::derive(seeds, owner).unwrap().0
}

fn applicant_record(owner: Address) -> ApplicantInfoState {
    ApplicantInfoState {
        is_initialized: true,
        owner_pubkey: owner,
        created_at: 0,
        updated_at: 0,
        username: String::new(),
        name: String::new(),
        address: String::new(),
        image_uri: String::new(),
        bio: String::new(),
        skills: Vec::new(),
        designation: String::new(),
        current_employment_status: String::new(),
        can_join_in: String::new(),
        user_type: String::from("applicant"),
        is_company_profile_complete: false,
        is_overview_complete: false,
        is_projects_complete: false,
        is_contact_info_complete: false,
        is_education_complete: false,
        is_work_experience_complete: false,
    }
}

fn company_record(controlling: Address, plan: &str, purchased_on: u64, valid_till: u64) -> CompanyInfoState {
    CompanyInfoState {
        is_initialized: true,
        archived: false,
        user_info_state_account_pubkey: controlling,
        username: String::new(),
        name: String::new(),
        logo_uri: String::new(),
        domain: String::new(),
        company_type: String::new(),
        company_size: String::new(),
        company_stage: String::new(),
        funding_amount: String::new(),
        funding_currency: String::new(),
        image_uri: String::new(),
        cover_image_uri: String::new(),
        founded_in: String::new(),
        employee_size: String::new(),
        address: String::new(),
        description: String::new(),
        website: String::new(),
        linkedin: String::new(),
        twitter: String::new(),
        facebook: String::new(),
        instagram: String::new(),
        subscription_plan: String::from(plan),
        subscription_purchased_on: purchased_on,
        subscription_valid_till: valid_till,
        company_seq_number: String::from("1"),
    }
}

fn job_record(company: Address, job_number: &str) -> JobPostState {
    JobPostState {
        is_initialized: true,
        archived: false,
        owner_pubkey: Address::new([8u8; 32]),
        company_pubkey: company,
        job_title: String::new(),
        short_description: String::new(),
        long_description: String::new(),
        category: Vec::new(),
        job_type: String::new(),
        currency_type: String::new(),
        currency: String::new(),
        min_salary: 0,
        max_salary: 0,
        experience_in_months: 0,
        skills: Vec::new(),
        qualification: String::new(),
        job_location_type: String::new(),
        country: String::new(),
        city: String::new(),
        job_number: String::from(job_number),
    }
}

fn blank_workflow() -> WorkflowState {
    WorkflowState {
        is_initialized: false,
        archived: false,
        company_owner_pubkey: Address::new([0u8; 32]),
        company_pubkey: Address::new([0u8; 32]),
        user_pubkey: Address::new([0u8; 32]),
        job_pubkey: Address::new([0u8; 32]),
        status: String::new(),
        is_saved: false,
        job_applied_at: 0,
        is_paid: false,
        paid_amount: 0,
        paid_at: 0,
        last_updated_at: 0,
    }
}

struct Fixture {
    accounts: WorkflowAccounts,
    company: CompanyInfoState,
    applicant: ApplicantInfoState,
    job: JobPostState,
    fresh: WorkflowState,
    modifier: Address,
}

/// A consistent record graph: the applicant profile's address, the job
/// posting's address and the workflow record's address all match their
/// derivations, and the company's controlling identity is the applicant
/// profile itself.
fn fixture(plan: &str, purchased_on: u64, valid_till: u64) -> Fixture {
    let owner = Address::new([7u8; 32]);
    let applicant_module = Address::new([3u8; 32]);
    let company_module = Address::new([4u8; 32]);
    let job_module = Address::new([5u8; 32]);
    let program_id = Address::new([6u8; 32]);
    let company_address = Address::new([2u8; 32]);
    let modifier = Address::new([9u8; 32]);

    let applicant = applicant_record(owner);
    let applicant_address = derive_address(&applicant_seeds(&owner), &applicant_module);
    let company = company_record(applicant_address, plan, purchased_on, valid_till);
    let job = job_record(company_address, "1");
    let job_address = derive_address(&job_seeds("1", &company_address), &job_module);
    let workflow_address =
        derive_address(&workflow_seeds(&job_address, &applicant_address), &program_id);

    let accounts = WorkflowAccounts {
        owner,
        owner_is_signer: true,
        company_address,
        applicant_address,
        job_address,
        workflow_address,
        workflow_record_owner: program_id,
        applicant_module,
        company_module,
        job_module,
        program_id,
    };
    Fixture {
        accounts,
        company,
        applicant,
        job,
        fresh: blank_workflow(),
        modifier,
    }
}

/// Like `fixture`, but the company is controlled by a distinct
/// administrator profile, as an ordinary company is; the workflow's
/// applicant is unrelated to the company's administration.
fn fixture_with_admin(plan: &str, purchased_on: u64, valid_till: u64) -> Fixture {
    let mut f = fixture(plan, purchased_on, valid_till);
    let admin_identity = Address::new([10u8; 32]);
    let admin_profile = derive_address(
        &applicant_seeds(&admin_identity),
        &f.accounts.applicant_module,
    );
    f.company.user_info_state_account_pubkey = admin_profile;
    f
}

#[test]
fn create_initializes_the_record() {
    let f = fixture("paynuse", 0, 0);
    let created = Processor::add_workflow_state(
        &f.accounts,
        &f.company,
        &f.applicant,
        &f.job,
        &f.fresh,
        String::from("applied"),
        1_000,
    )
    .unwrap();
    assert!(created.is_initialized);
    assert!(!created.archived);
    assert!(!created.is_saved);
    assert_eq!(created.status, "applied");
    assert_eq!(created.company_owner_pubkey, f.accounts.applicant_address);
    assert_eq!(created.company_pubkey, f.accounts.company_address);
    assert_eq!(created.user_pubkey, f.accounts.applicant_address);
    assert_eq!(created.job_pubkey, f.accounts.job_address);
    assert_eq!(created.job_applied_at, 1_000);
    assert!(!created.is_paid);
    assert_eq!(created.paid_amount, 0);
    assert_eq!(created.paid_at, 0);
    assert_eq!(created.last_updated_at, 1_000);
}

#[test]
fn create_twice_fails_with_already_initialized() {
    let f = fixture("paynuse", 0, 0);
    let created = Processor::add_workflow_state(
        &f.accounts,
        &f.company,
        &f.applicant,
        &f.job,
        &f.fresh,
        String::from("applied"),
        1_000,
    )
    .unwrap();
    let before = created.clone();
    let second = Processor::add_workflow_state(
        &f.accounts,
        &f.company,
        &f.applicant,
        &f.job,
        &created,
        String::from("applied"),
        2_000,
    );
    assert_eq!(second, Err(WorkflowError::AlreadyInitialized));
    assert_eq!(created, before);
}

#[test]
fn create_under_a_paid_subscription_grants_entitlement() {
    let f = fixture("yearly", 400, 5_000);
    let created = Processor::add_workflow_state(
        &f.accounts,
        &f.company,
        &f.applicant,
        &f.job,
        &f.fresh,
        String::from("applied"),
        1_000,
    )
    .unwrap();
    assert!(created.is_paid);
    assert_eq!(created.paid_amount, 0);
    assert_eq!(created.paid_at, 400);
}

#[test]
fn create_rejects_an_uninitialized_company() {
    let mut f = fixture("paynuse", 0, 0);
    f.company.is_initialized = false;
    let r = Processor::add_workflow_state(
        &f.accounts,
        &f.company,
        &f.applicant,
        &f.job,
        &f.fresh,
        String::from("applied"),
        1_000,
    );
    assert_eq!(r, Err(WorkflowError::Uninitialized));
}

#[test]
fn create_rejects_a_wrong_applicant_address() {
    let mut f = fixture("paynuse", 0, 0);
    f.accounts.applicant_address = Address::new([42u8; 32]);
    let r = Processor::add_workflow_state(
        &f.accounts,
        &f.company,
        &f.applicant,
        &f.job,
        &f.fresh,
        String::from("applied"),
        1_000,
    );
    assert_eq!(r, Err(WorkflowError::AddressMismatch));
}

#[test]
fn create_rejects_a_missing_signature() {
    let mut f = fixture("paynuse", 0, 0);
    f.accounts.owner_is_signer = false;
    let r = Processor::add_workflow_state(
        &f.accounts,
        &f.company,
        &f.applicant,
        &f.job,
        &f.fresh,
        String::from("applied"),
        1_000,
    );
    assert_eq!(r, Err(WorkflowError::MissingAuthorization));
}

#[test]
fn create_rejects_a_foreign_store_owner() {
    let mut f = fixture("paynuse", 0, 0);
    f.accounts.workflow_record_owner = Address::new([42u8; 32]);
    let r = Processor::add_workflow_state(
        &f.accounts,
        &f.company,
        &f.applicant,
        &f.job,
        &f.fresh,
        String::from("applied"),
        1_000,
    );
    assert_eq!(r, Err(WorkflowError::NotOwned));
}

#[test]
fn validate_rejects_an_unrelated_caller() {
    let mut f = fixture("paynuse", 0, 0);
    // The signer does not own the presented applicant profile.
    f.company.user_info_state_account_pubkey = Address::new([42u8; 32]);
    f.accounts.owner = Address::new([43u8; 32]);
    let r = validate_references(&f.accounts, &f.company, &f.applicant, &f.job);
    assert_eq!(r, Err(WorkflowError::UnauthorizedRelationship));
}

#[test]
fn update_status_presenting_an_unowned_profile_is_rejected() {
    let f = fixture("paynuse", 0, 0);
    let created = Processor::add_workflow_state(
        &f.accounts,
        &f.company,
        &f.applicant,
        &f.job,
        &f.fresh,
        String::from("applied"),
        1_000,
    )
    .unwrap();
    // A stranger signs while presenting the applicant's profile, which the
    // company's controlling identity happens to equal; the caller check
    // still demands that the signer own the presented profile.
    let mut accounts = f.accounts;
    accounts.owner = Address::new([23u8; 32]);
    let r = Processor::update_workflow_state(
        &accounts,
        &f.company,
        &f.applicant,
        &f.job,
        &created,
        true,
        false,
        String::from("rejected"),
        2_000,
    );
    assert_eq!(r, Err(WorkflowError::UnauthorizedRelationship));
}

#[test]
fn update_status_by_a_stranger_is_rejected() {
    let f = fixture("paynuse", 0, 0);
    let created = Processor::add_workflow_state(
        &f.accounts,
        &f.company,
        &f.applicant,
        &f.job,
        &f.fresh,
        String::from("applied"),
        1_000,
    )
    .unwrap();
    let before = created.clone();

    // A stranger presents their own, correctly derived applicant profile,
    // with the workflow address re-derived accordingly; the workflow record
    // on file references neither the stranger nor the stranger's profile.
    let stranger_identity = Address::new([23u8; 32]);
    let stranger = applicant_record(stranger_identity);
    let stranger_address =
        derive_address(&applicant_seeds(&stranger_identity), &f.accounts.applicant_module);
    let mut accounts = f.accounts;
    accounts.owner = stranger_identity;
    accounts.applicant_address = stranger_address;
    accounts.workflow_address = derive_address(
        &workflow_seeds(&f.accounts.job_address, &stranger_address),
        &f.accounts.program_id,
    );
    let mut company = f.company.clone();
    company.user_info_state_account_pubkey = Address::new([42u8; 32]);

    let r = Processor::update_workflow_state(
        &accounts,
        &company,
        &stranger,
        &f.job,
        &created,
        true,
        false,
        String::from("rejected"),
        2_000,
    );
    assert_eq!(r, Err(WorkflowError::UnauthorizedRelationship));
    assert_eq!(created, before);
}

#[test]
fn update_status_on_an_uncreated_record_is_rejected() {
    let f = fixture("paynuse", 0, 0);
    let r = Processor::update_workflow_state(
        &f.accounts,
        &f.company,
        &f.applicant,
        &f.job,
        &f.fresh,
        true,
        false,
        String::from("rejected"),
        2_000,
    );
    assert_eq!(r, Err(WorkflowError::Uninitialized));
}

#[test]
fn update_status_rejects_a_record_for_another_job() {
    let f = fixture("paynuse", 0, 0);
    let mut created = Processor::add_workflow_state(
        &f.accounts,
        &f.company,
        &f.applicant,
        &f.job,
        &f.fresh,
        String::from("applied"),
        1_000,
    )
    .unwrap();
    created.job_pubkey = Address::new([42u8; 32]);
    let r = Processor::update_workflow_state(
        &f.accounts,
        &f.company,
        &f.applicant,
        &f.job,
        &created,
        true,
        false,
        String::from("rejected"),
        2_000,
    );
    assert_eq!(r, Err(WorkflowError::ForeignRecord));
}

#[test]
fn payment_update_by_anyone_but_the_modifier_is_rejected() {
    let f = fixture("paynuse", 0, 0);
    let created = Processor::add_workflow_state(
        &f.accounts,
        &f.company,
        &f.applicant,
        &f.job,
        &f.fresh,
        String::from("applied"),
        1_000,
    )
    .unwrap();
    let before = created.clone();
    // The caller is the company owner itself: the company's controlling
    // identity is the presented applicant profile, owned by the signer.
    // Even this identity is rejected, because it is not the configured
    // subscription modifier.
    assert_ne!(f.accounts.owner, f.modifier);
    let r = Processor::update_workflow_payment_state(
        &f.accounts,
        &f.company,
        &f.applicant,
        &f.job,
        &created,
        &f.modifier,
        true,
        500,
        3_000,
    );
    assert_eq!(r, Err(WorkflowError::UnauthorizedRelationship));
    assert_eq!(created, before);
}

#[test]
fn payment_update_by_the_modifier_settles_an_ordinary_workflow() {
    // An ordinary configuration: the company is administered by a distinct
    // admin profile, and the workflow belongs to an unrelated applicant.
    // The subscription modifier signs without owning the applicant's
    // profile; the payment transition runs no caller-relationship check, so
    // the settlement goes through.
    let f = fixture_with_admin("paynuse", 0, 0);
    let created = Processor::add_workflow_state(
        &f.accounts,
        &f.company,
        &f.applicant,
        &f.job,
        &f.fresh,
        String::from("applied"),
        1_000,
    )
    .unwrap();
    let mut accounts = f.accounts;
    accounts.owner = f.modifier;
    let paid = Processor::update_workflow_payment_state(
        &accounts,
        &f.company,
        &f.applicant,
        &f.job,
        &created,
        &f.modifier,
        true,
        500,
        3_000,
    )
    .unwrap();
    assert!(paid.is_paid);
    assert_eq!(paid.paid_amount, 500);
    assert_eq!(paid.paid_at, 3_000);
    assert_eq!(paid.company_pubkey, created.company_pubkey);
    assert_eq!(paid.user_pubkey, created.user_pubkey);
    assert_eq!(paid.job_pubkey, created.job_pubkey);
    assert_eq!(paid.status, "applied");
}

#[test]
fn payment_update_rejects_an_uninitialized_applicant() {
    let mut f = fixture("paynuse", 0, 0);
    f.applicant.is_initialized = false;
    let r = Processor::update_workflow_payment_state(
        &f.accounts,
        &f.company,
        &f.applicant,
        &f.job,
        &f.fresh,
        &f.modifier,
        true,
        500,
        3_000,
    );
    assert_eq!(r, Err(WorkflowError::Uninitialized));
}

#[test]
fn payment_update_rejects_a_foreign_company_owner() {
    let f = fixture("paynuse", 0, 0);
    let mut created = Processor::add_workflow_state(
        &f.accounts,
        &f.company,
        &f.applicant,
        &f.job,
        &f.fresh,
        String::from("applied"),
        1_000,
    )
    .unwrap();
    created.company_owner_pubkey = Address::new([42u8; 32]);
    let mut accounts = f.accounts;
    accounts.owner = f.modifier;
    // The record-based derivation of the applicant address still has to
    // match, so the linkage failure is the company owner field.
    let r = Processor::update_workflow_payment_state(
        &accounts,
        &f.company,
        &f.applicant,
        &f.job,
        &created,
        &f.modifier,
        true,
        500,
        3_000,
    );
    assert_eq!(r, Err(WorkflowError::ForeignRecord));
}

#[test]
fn full_lifecycle_scenario() {
    let f = fixture("paynuse", 0, 0);
    let created = Processor::add_workflow_state(
        &f.accounts,
        &f.company,
        &f.applicant,
        &f.job,
        &f.fresh,
        String::from("applied"),
        1_000,
    )
    .unwrap();
    assert!(created.is_initialized);
    assert!(!created.archived);
    assert_eq!(created.status, "applied");
    assert_eq!(created.paid_amount, 0);

    // The company owner archives the engagement: the company's controlling
    // identity is the presented applicant profile, the record names it as
    // the company owner, and the signer owns it.
    let updated = Processor::update_workflow_state(
        &f.accounts,
        &f.company,
        &f.applicant,
        &f.job,
        &created,
        true,
        false,
        String::from("rejected"),
        2_000,
    )
    .unwrap();
    assert!(updated.archived);
    assert_eq!(updated.status, "rejected");
    assert_eq!(updated.company_pubkey, created.company_pubkey);
    assert_eq!(updated.user_pubkey, created.user_pubkey);
    assert_eq!(updated.job_pubkey, created.job_pubkey);
    assert_eq!(updated.job_applied_at, 1_000);
    assert_eq!(updated.last_updated_at, 2_000);

    // The configured subscription modifier settles the payment.
    let mut accounts = f.accounts;
    accounts.owner = f.modifier;
    let paid = Processor::update_workflow_payment_state(
        &accounts,
        &f.company,
        &f.applicant,
        &f.job,
        &updated,
        &f.modifier,
        true,
        500,
        3_000,
    )
    .unwrap();
    assert!(paid.is_paid);
    assert_eq!(paid.paid_amount, 500);
    assert_eq!(paid.paid_at, 3_000);
    assert_eq!(paid.company_pubkey, created.company_pubkey);
    assert_eq!(paid.user_pubkey, created.user_pubkey);
    assert_eq!(paid.job_pubkey, created.job_pubkey);
    assert_eq!(paid.status, "rejected");
    assert_eq!(paid.last_updated_at, 3_000);
}

#[test]
fn entitlement_pay_per_use_never_grants() {
    assert_eq!(compute_entitlement(&String::from("paynuse"), 50, 200, 100), (false, 0));
    assert_eq!(compute_entitlement(&String::from("paynuse"), 50, 0, 0), (false, 0));
    assert_eq!(
        compute_entitlement(&String::from("paynuse"), u64::MAX, u64::MAX, 0),
        (false, 0)
    );
}

#[test]
fn entitlement_annual_plan_respects_expiry() {
    assert_eq!(compute_entitlement(&String::from("yearly"), 50, 200, 100), (true, 50));
    assert_eq!(compute_entitlement(&String::from("yearly"), 50, 200, 300), (false, 0));
    assert_eq!(compute_entitlement(&String::from("yearly"), 50, 200, 200), (false, 0));
}

#[test]
fn process_dispatches_on_the_instruction_tag() {
    let f = fixture("paynuse", 0, 0);
    let mut data = vec![0u8];
    let status = String::from("applied");
    data.extend((status.len() as u32).to_le_bytes());
    data.extend(status.as_bytes());
    let created = Processor::process(
        &f.accounts,
        &f.company,
        &f.applicant,
        &f.job,
        &f.fresh,
        &f.modifier,
        &data,
        1_000,
    )
    .unwrap();
    assert!(created.is_initialized);
    assert_eq!(created.status, "applied");

    let bad = Processor::process(
        &f.accounts,
        &f.company,
        &f.applicant,
        &f.job,
        &f.fresh,
        &f.modifier,
        &[9u8],
        1_000,
    );
    assert_eq!(bad, Err(WorkflowError::InvalidInstruction));
}
