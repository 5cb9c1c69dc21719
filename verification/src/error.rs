use vstd::prelude::*;

verus! {

/// Reasons for rejecting a workflow instruction.
///
/// Every rejection is terminal for the instruction: the caller must resubmit
/// with corrected inputs, and no record is mutated.
#[derive(Clone, Copy, Debug, PartialEq, Eq, Structural)]
pub enum WorkflowError {
    /// A supplied record address does not match its re-derivation, so the
    /// record presented is not the canonical one.
    AddressMismatch,
    /// A prerequisite record has not been created yet.
    Uninitialized,
    /// Creation was attempted on a workflow record that is already active.
    AlreadyInitialized,
    /// The required authorizing identity has not signed the instruction.
    MissingAuthorization,
    /// The caller is not one of the identities permitted for this mutation.
    UnauthorizedRelationship,
    /// A cross-reference field stored on the workflow record does not match
    /// the freshly validated record graph.
    ForeignRecord,
    /// The record store does not register this module as the record's owner.
    NotOwned,
    /// No disambiguating nonce exists within the bounded search space of the
    /// address derivation.
    DerivationFailure,
    /// The instruction payload could not be decoded.
    InvalidInstruction,
}

impl WorkflowError {
    /// The wording used when reporting this rejection at the boundary.
    pub open spec fn spec_message(self) -> Seq<char> {
        match self {
            WorkflowError::AddressMismatch => "supplied address does not match its derivation"@,
            WorkflowError::Uninitialized => "prerequisite record is not initialized"@,
            WorkflowError::AlreadyInitialized => "workflow record is already initialized"@,
            WorkflowError::MissingAuthorization => "required signer is absent"@,
            WorkflowError::UnauthorizedRelationship => "caller is not permitted for this mutation"@,
            WorkflowError::ForeignRecord => "workflow record references a different record graph"@,
            WorkflowError::NotOwned => "record is not owned by this module"@,
            WorkflowError::DerivationFailure => "no valid derivation nonce exists"@,
            WorkflowError::InvalidInstruction => "instruction payload could not be decoded"@,
        }
    }

    /// A short description of the rejection, for reporting.
    pub fn message(&self) -> (r: &'static str)
        ensures
            r@ == self.spec_message(),
    {
        match self {
            WorkflowError::AddressMismatch => "supplied address does not match its derivation",
            WorkflowError::Uninitialized => "prerequisite record is not initialized",
            WorkflowError::AlreadyInitialized => "workflow record is already initialized",
            WorkflowError::MissingAuthorization => "required signer is absent",
            WorkflowError::UnauthorizedRelationship => "caller is not permitted for this mutation",
            WorkflowError::ForeignRecord => "workflow record references a different record graph",
            WorkflowError::NotOwned => "record is not owned by this module",
            WorkflowError::DerivationFailure => "no valid derivation nonce exists",
            WorkflowError::InvalidInstruction => "instruction payload could not be decoded",
        }
    }
}

} // verus!
