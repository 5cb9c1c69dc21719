use vstd::prelude::*;
use vstd::slice::slice_to_vec;
use vstd::string::StrSliceExecFns;
use vstd::string::StringSliceAdditionalSpecFns;
use crate::error::WorkflowError;

verus! {

broadcast use vstd::array::group_array_axioms;

/// A canonical 32-byte storage address in the shared keyed-record store.
///
/// Addresses identify records; a record's provenance is proved by re-deriving
/// its expected address from seed values and comparing, never by trusting the
/// caller.
#[derive(Clone, Copy, Debug, PartialEq, Eq)]
pub struct Address {
    bytes: [u8; 32],
}

impl View for Address {
    type V = Seq<u8>;

    closed spec fn view(&self) -> Seq<u8> {
        self.bytes@
    }
}

impl Address {
    /// Wraps raw address bytes.
    pub fn new(bytes: [u8; 32]) -> (r: Address)
        ensures
            r@ == bytes@,
    {
        Address { bytes }
    }

    /// The raw address bytes.
    pub fn to_bytes(&self) -> (r: [u8; 32])
        ensures
            r@ == self@,
    {
        self.bytes
    }

    /// Byte-wise address comparison.
    pub fn equals(&self, other: &Address) -> (r: bool)
        ensures
            r == (self@ == other@),
    {
        let mut i: usize = 0;
        while i < 32
            invariant
                0 <= i <= 32,
                forall|j: int| 0 <= j < i ==> self.bytes@[j] == other.bytes@[j],
            decreases 32 - i,
        {
            if self.bytes[i] != other.bytes[i] {
                return false;
            }
            i += 1;
        }
        proof {
            assert(self@ =~= other@);
        }
        true
    }

    /// The address bytes as a seed component for a further derivation.
    pub fn seed_bytes(&self) -> (r: Vec<u8>)
        ensures
            r@ == self@,
    {
        slice_to_vec(self.bytes.as_slice())
    }
}

/// The outcome of the canonical address derivation for an ordered list of
/// seed byte-strings under an owning module identifier: the derived address
/// and its disambiguating nonce, or `None` when no nonce within the bounded
/// search space yields a valid derived address.
pub uninterp spec fn derivation_of(seeds: Seq<Seq<u8>>, owner: Seq<u8>) -> Option<(Seq<u8>, u8)>;

/// Relies on solana_program's `Pubkey::try_find_program_address`: the derived
/// address and bump nonce are computed from the seed byte-strings and the
/// owning program identifier alone (a bounded search over nonces, each tried
/// through a hash of the seeds), so the result is a deterministic function of
/// the arguments; a derived address is 32 bytes; `None` is returned exactly
/// when the bounded nonce search finds no valid derived address.
#[verifier::external_body]
fn find_derived_address(seeds: &Vec<Vec<u8>>, owner: &Address) -> (r: Option<(Address, u8)>)
    ensures
        match (r, derivation_of(seeds.deep_view(), owner@)) {
            (Some(p), Some(q)) => p.0@ == q.0 && p.1 == q.1 && q.0.len() == 32,
            (None, None) => true,
            _ => false,
        },
{
    let seed_slices: Vec<&[u8]> = seeds.iter().map(|s| s.as_slice()).collect();
    let owner_key = solana_program::pubkey::Pubkey::new_from_array(owner.bytes);
    let found = solana_program::pubkey::Pubkey::try_find_program_address(&seed_slices, &owner_key);
    found.map(|(key, nonce)| (Address { bytes: key.to_bytes() }, nonce))
}

/// Computes the canonical storage address for the ordered seed byte-strings
/// under the owning module, together with the disambiguating nonce.
///
/// Deterministic: the result is a function of the seeds and the owning module
/// alone.  When no nonce within the bounded search space yields a valid
/// address the derivation fails with a reported error, never a panic.
pub fn derive(seeds: &Vec<Vec<u8>>, owner: &Address) -> (r: Result<(Address, u8), WorkflowError>)
    ensures
        match r {
            Ok(p) => derivation_of(seeds.deep_view(), owner@) == Some((p.0@, p.1))
                && p.0@.len() == 32,
            Err(e) => derivation_of(seeds.deep_view(), owner@) is None
                && e == WorkflowError::DerivationFailure,
        },
{
    match find_derived_address(seeds, owner) {
        Some(p) => Ok(p),
        None => Err(WorkflowError::DerivationFailure),
    }
}

/// Determinism of the derivation: identical seed lists under the identical
/// owning module always yield the identical (address, nonce) outcome.
pub proof fn lemma_derive_deterministic(
    seeds: Seq<Seq<u8>>,
    owner: Seq<u8>,
    r1: Option<(Seq<u8>, u8)>,
    r2: Option<(Seq<u8>, u8)>,
)
    requires
        r1 == derivation_of(seeds, owner),
        r2 == derivation_of(seeds, owner),
    ensures
        r1 == r2,
{
}

/// Seed prefix for applicant profile record addresses.
pub open spec fn spec_applicant_prefix() -> Seq<u8> {
    "applicant_state".spec_bytes()
}

/// Seed prefix for job posting record addresses.
pub open spec fn spec_jobpost_prefix() -> Seq<u8> {
    "jobpost_state".spec_bytes()
}

/// Seed prefix for workflow record addresses.
pub open spec fn spec_workflow_prefix() -> Seq<u8> {
    "workflow_state".spec_bytes()
}

/// Seed prefix for applicant profile record addresses, as bytes.
pub fn applicant_state_account_prefix() -> (r: Vec<u8>)
    ensures
        r@ == spec_applicant_prefix(),
{
    "applicant_state".as_bytes_vec()
}

/// Seed prefix for job posting record addresses, as bytes.
pub fn jobpost_state_account_prefix() -> (r: Vec<u8>)
    ensures
        r@ == spec_jobpost_prefix(),
{
    "jobpost_state".as_bytes_vec()
}

/// Seed prefix for workflow record addresses, as bytes.
pub fn workflow_state_account_prefix() -> (r: Vec<u8>)
    ensures
        r@ == spec_workflow_prefix(),
{
    "workflow_state".as_bytes_vec()
}

/// Seed list for an applicant profile record: the applicant prefix and the
/// identity that owns the profile.
pub open spec fn spec_applicant_seeds(applicant_owner: Seq<u8>) -> Seq<Seq<u8>> {
    seq![spec_applicant_prefix(), applicant_owner]
}

/// Seed list for a job posting record: the job prefix, the posting's sequence
/// number, and the company record's address.
pub open spec fn spec_job_seeds(job_number: Seq<char>, company_address: Seq<u8>) -> Seq<Seq<u8>> {
    seq![spec_jobpost_prefix(), vstd::utf8::encode_utf8(job_number), company_address]
}

/// Seed list for a workflow record: the workflow prefix, the job posting's
/// address, and the applicant profile's address.  Both the job and the
/// applicant are seed components, so one workflow record exists per
/// job-applicant pair.
pub open spec fn spec_workflow_seeds(job_address: Seq<u8>, applicant_address: Seq<u8>) -> Seq<
    Seq<u8>,
> {
    seq![spec_workflow_prefix(), job_address, applicant_address]
}

/// Builds the applicant profile seed list.
pub fn applicant_seeds(applicant_owner: &Address) -> (r: Vec<Vec<u8>>)
    ensures
        r.deep_view() == spec_applicant_seeds(applicant_owner@),
{
    let mut seeds: Vec<Vec<u8>> = Vec::new();
    seeds.push(applicant_state_account_prefix());
    seeds.push(applicant_owner.seed_bytes());
    proof {
        assert(seeds.deep_view() =~~= spec_applicant_seeds(applicant_owner@));
    }
    seeds
}

/// Builds the job posting seed list.
pub fn job_seeds(job_number: &str, company_address: &Address) -> (r: Vec<Vec<u8>>)
    ensures
        r.deep_view() == spec_job_seeds(job_number@, company_address@),
{
    let mut seeds: Vec<Vec<u8>> = Vec::new();
    seeds.push(jobpost_state_account_prefix());
    seeds.push(job_number.as_bytes_vec());
    seeds.push(company_address.seed_bytes());
    proof {
        assert(seeds.deep_view() =~~= spec_job_seeds(job_number@, company_address@));
    }
    seeds
}

/// Builds the workflow record seed list.
pub fn workflow_seeds(job_address: &Address, applicant_address: &Address) -> (r: Vec<Vec<u8>>)
    ensures
        r.deep_view() == spec_workflow_seeds(job_address@, applicant_address@),
{
    let mut seeds: Vec<Vec<u8>> = Vec::new();
    seeds.push(workflow_state_account_prefix());
    seeds.push(job_address.seed_bytes());
    seeds.push(applicant_address.seed_bytes());
    proof {
        assert(seeds.deep_view() =~~= spec_workflow_seeds(job_address@, applicant_address@));
    }
    seeds
}

/// Two distinct applicants applying to the same job derive their workflow
/// records from distinct seed lists: the applicant's address is itself a seed
/// component, so the derivation inputs cannot coincide.
pub proof fn lemma_workflow_seeds_distinct(job: Seq<u8>, a1: Seq<u8>, a2: Seq<u8>)
    requires
        a1 != a2,
    ensures
        spec_workflow_seeds(job, a1) != spec_workflow_seeds(job, a2),
{
    assert(spec_workflow_seeds(job, a1)[2] == a1);
    assert(spec_workflow_seeds(job, a2)[2] == a2);
}

} // verus!
