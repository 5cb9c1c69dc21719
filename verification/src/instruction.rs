use vstd::prelude::*;
use vstd::bytes::{spec_u32_from_le_bytes, spec_u64_from_le_bytes, u32_from_le_bytes, u64_from_le_bytes};
use vstd::slice::{slice_subrange, slice_to_vec};
use vstd::utf8::{decode_utf8, valid_utf8};
use crate::error::WorkflowError;

verus! {

/// Payload of the create instruction.
#[derive(Debug, PartialEq, Clone)]
pub struct AddWorkflowStatePayload {
    pub status: String,
}

/// Payload of the update-status instruction.
#[derive(Debug, PartialEq, Clone)]
pub struct UpdateWorkflowStatePayload {
    pub archived: bool,
    pub is_saved: bool,
    pub status: String,
}

/// Payload of the update-payment instruction.
#[derive(Debug, PartialEq, Clone)]
pub struct UpdateWorkflowPaymentStatePayload {
    pub is_paid: bool,
    pub paid_amount: u64,
}

/// A decoded workflow instruction: one of the three operations of the
/// instruction surface.
#[derive(Debug, PartialEq, Clone)]
pub enum WorkflowStateInstruction {
    /// Tag 0: create the workflow record.
    AddWorkflowState { status: String },
    /// Tag 1: overwrite the archival flags and the status string.
    UpdateWorkflowState { archived: bool, is_saved: bool, status: String },
    /// Tag 2: record an explicit payment settlement.
    UpdateWorkflowPaymentState { is_paid: bool, paid_amount: u64 },
}

/// The mathematical shape of a decoded instruction.
pub enum SpecInstruction {
    AddWorkflowState { status: Seq<char> },
    UpdateWorkflowState { archived: bool, is_saved: bool, status: Seq<char> },
    UpdateWorkflowPaymentState { is_paid: bool, paid_amount: u64 },
}

impl View for WorkflowStateInstruction {
    type V = SpecInstruction;

    open spec fn view(&self) -> SpecInstruction {
        match self {
            WorkflowStateInstruction::AddWorkflowState { status } => {
                SpecInstruction::AddWorkflowState { status: status@ }
            },
            WorkflowStateInstruction::UpdateWorkflowState { archived, is_saved, status } => {
                SpecInstruction::UpdateWorkflowState {
                    archived: *archived,
                    is_saved: *is_saved,
                    status: status@,
                }
            },
            WorkflowStateInstruction::UpdateWorkflowPaymentState { is_paid, paid_amount } => {
                SpecInstruction::UpdateWorkflowPaymentState {
                    is_paid: *is_paid,
                    paid_amount: *paid_amount,
                }
            },
        }
    }
}

/// A boolean on the wire is a single byte holding exactly 0 or 1.
pub open spec fn spec_parse_bool(byte: u8) -> Option<bool> {
    if byte == 0 {
        Some(false)
    } else if byte == 1 {
        Some(true)
    } else {
        None
    }
}

/// A string on the wire is a 4-byte little-endian length followed by that
/// many bytes of valid UTF-8.  Yields the decoded characters and the number
/// of bytes consumed.
pub open spec fn spec_parse_string(bytes: Seq<u8>) -> Option<(Seq<char>, int)> {
    if bytes.len() < 4 {
        None
    } else {
        let n = spec_u32_from_le_bytes(bytes.subrange(0, 4)) as int;
        if bytes.len() < 4 + n {
            None
        } else {
            let string_bytes = bytes.subrange(4, 4 + n);
            if valid_utf8(string_bytes) {
                Some((decode_utf8(string_bytes), 4 + n))
            } else {
                None
            }
        }
    }
}

/// The meaning of a raw instruction payload: a one-byte tag selecting the
/// operation, followed by that operation's fields, with nothing left over.
/// Any other byte string is rejected.
pub open spec fn spec_unpack(input: Seq<u8>) -> Result<SpecInstruction, WorkflowError> {
    if input.len() < 1 {
        Err(WorkflowError::InvalidInstruction)
    } else {
        let tag = input[0];
        let rest = input.skip(1);
        if tag == 0 {
            match spec_parse_string(rest) {
                Some(parsed) => if parsed.1 == rest.len() {
                    Ok(SpecInstruction::AddWorkflowState { status: parsed.0 })
                } else {
                    Err(WorkflowError::InvalidInstruction)
                },
                None => Err(WorkflowError::InvalidInstruction),
            }
        } else if tag == 1 {
            if rest.len() < 2 {
                Err(WorkflowError::InvalidInstruction)
            } else {
                match (spec_parse_bool(rest[0]), spec_parse_bool(rest[1])) {
                    (Some(archived), Some(is_saved)) => match spec_parse_string(rest.skip(2)) {
                        Some(parsed) => if 2 + parsed.1 == rest.len() {
                            Ok(SpecInstruction::UpdateWorkflowState {
                                archived,
                                is_saved,
                                status: parsed.0,
                            })
                        } else {
                            Err(WorkflowError::InvalidInstruction)
                        },
                        None => Err(WorkflowError::InvalidInstruction),
                    },
                    _ => Err(WorkflowError::InvalidInstruction),
                }
            }
        } else if tag == 2 {
            if rest.len() != 9 {
                Err(WorkflowError::InvalidInstruction)
            } else {
                match spec_parse_bool(rest[0]) {
                    Some(is_paid) => Ok(SpecInstruction::UpdateWorkflowPaymentState {
                        is_paid,
                        paid_amount: spec_u64_from_le_bytes(rest.subrange(1, 9)),
                    }),
                    None => Err(WorkflowError::InvalidInstruction),
                }
            }
        } else {
            Err(WorkflowError::InvalidInstruction)
        }
    }
}

/// Relies on String::from_utf8: it succeeds exactly when the bytes are a
/// valid UTF-8 encoding, and then returns the string of those bytes.
#[verifier::external_body]
fn string_from_utf8(bytes: Vec<u8>) -> (r: Option<String>)
    ensures
        match r {
            Some(s) => valid_utf8(bytes@) && s@ == decode_utf8(bytes@),
            None => !valid_utf8(bytes@),
        },
{
    String::from_utf8(bytes).ok()
}

/// Reads one wire boolean.
fn parse_bool(byte: u8) -> (r: Result<bool, WorkflowError>)
    ensures
        match r {
            Ok(v) => spec_parse_bool(byte) == Some(v),
            Err(e) => spec_parse_bool(byte) is None && e == WorkflowError::InvalidInstruction,
        },
{
    if byte == 0 {
        Ok(false)
    } else if byte == 1 {
        Ok(true)
    } else {
        Err(WorkflowError::InvalidInstruction)
    }
}

/// Reads one wire string starting at `start`, returning it together with
/// the position of the first byte after it.
fn parse_string(data: &Vec<u8>, start: usize) -> (r: Result<(String, usize), WorkflowError>)
    requires
        start <= data@.len(),
    ensures
        match r {
            Ok(p) => {
                &&& spec_parse_string(data@.skip(start as int)) == Some(
                    (p.0@, p.1 - start as int),
                )
                &&& start < p.1 <= data@.len()
            },
            Err(e) => {
                &&& spec_parse_string(data@.skip(start as int)) is None
                &&& e == WorkflowError::InvalidInstruction
            },
        },
{
    let remaining = data.len() - start;
    if remaining < 4 {
        return Err(WorkflowError::InvalidInstruction);
    }
    let len_bytes = slice_subrange(data.as_slice(), start, start + 4);
    proof {
        assert(len_bytes@ =~= data@.skip(start as int).subrange(0, 4));
    }
    let n = u32_from_le_bytes(len_bytes) as usize;
    if remaining - 4 < n {
        return Err(WorkflowError::InvalidInstruction);
    }
    let string_slice = slice_subrange(data.as_slice(), start + 4, start + 4 + n);
    proof {
        assert(string_slice@ =~= data@.skip(start as int).subrange(4, 4 + n as int));
    }
    let string_bytes = slice_to_vec(string_slice);
    match string_from_utf8(string_bytes) {
        Some(s) => Ok((s, start + 4 + n)),
        None => Err(WorkflowError::InvalidInstruction),
    }
}

impl WorkflowStateInstruction {
    /// Decodes a raw instruction payload: a one-byte tag selecting the
    /// operation, followed by that operation's fields, with nothing left
    /// over.  Malformed payloads are rejected, never a panic.
    pub fn unpack(input: &[u8]) -> (r: Result<WorkflowStateInstruction, WorkflowError>)
        ensures
            match r {
                Ok(instruction) => spec_unpack(input@) == Ok::<_, WorkflowError>(instruction@),
                Err(e) => spec_unpack(input@) == Err::<SpecInstruction, _>(e),
            },
    {
        let data = slice_to_vec(input);
        if data.len() < 1 {
            return Err(WorkflowError::InvalidInstruction);
        }
        let tag = data[0];
        proof {
            assert(data@.skip(1) =~= input@.skip(1));
        }
        if tag == 0 {
            match parse_string(&data, 1) {
                Ok((status, end)) => {
                    if end == data.len() {
                        Ok(WorkflowStateInstruction::AddWorkflowState { status })
                    } else {
                        Err(WorkflowError::InvalidInstruction)
                    }
                },
                Err(e) => Err(e),
            }
        } else if tag == 1 {
            if data.len() < 3 {
                return Err(WorkflowError::InvalidInstruction);
            }
            let archived = match parse_bool(data[1]) {
                Ok(v) => v,
                Err(e) => {
                    return Err(e);
                },
            };
            let is_saved = match parse_bool(data[2]) {
                Ok(v) => v,
                Err(e) => {
                    return Err(e);
                },
            };
            proof {
                assert(data@.skip(1).skip(2) =~= data@.skip(3));
            }
            match parse_string(&data, 3) {
                Ok((status, end)) => {
                    if end == data.len() {
                        Ok(
                            WorkflowStateInstruction::UpdateWorkflowState {
                                archived,
                                is_saved,
                                status,
                            },
                        )
                    } else {
                        Err(WorkflowError::InvalidInstruction)
                    }
                },
                Err(e) => Err(e),
            }
        } else if tag == 2 {
            if data.len() != 10 {
                return Err(WorkflowError::InvalidInstruction);
            }
            let is_paid = match parse_bool(data[1]) {
                Ok(v) => v,
                Err(e) => {
                    return Err(e);
                },
            };
            let amount_bytes = slice_subrange(data.as_slice(), 2, 10);
            proof {
                assert(amount_bytes@ =~= data@.skip(1).subrange(1, 9));
            }
            let paid_amount = u64_from_le_bytes(amount_bytes);
            Ok(WorkflowStateInstruction::UpdateWorkflowPaymentState { is_paid, paid_amount })
        } else {
            Err(WorkflowError::InvalidInstruction)
        }
    }
}

} // verus!
