//! Verified core of a job-application workflow engine for a shared,
//! permissioned keyed-record store.
//!
//! Four record shapes (company profile, applicant profile, job posting,
//! workflow record) live in the same store, linked by address fields rather
//! than by any central authority.  Before any mutation, the engine re-derives
//! the canonical storage address of every referenced record from seed values
//! and compares it against the address actually supplied, walks the
//! cross-record reference graph, and gates the mutation behind signer and
//! authorization checks.  The workflow record itself is driven through a small
//! status/payment state machine.
//!
//! The record store (address lookup, allocation, write-back), the byte codec
//! for whole records, and the ledger clock are external collaborators: callers
//! decode records, fetch the current time, and write results back.

pub mod address;
pub mod applicant_info_state;
pub mod company_info_state;
pub mod entitlement;
pub mod error;
pub mod instruction;
pub mod jobpost_info_state;
pub mod processor;
pub mod state;
pub mod validation;
