use crate::error::{ICOError, ProgramError};
use crate::state::{ClashTokenExchangeData, ClashTokenPaymentData};
use borsh::BorshDeserialize;
use vstd::bytes::*;
use vstd::prelude::*;

verus! {

/// One operation of the sale, as decoded from instruction data.
#[derive(Clone, Copy, Debug, PartialEq, Eq, Structural)]
pub enum ProgramInstruction {
    InitializeICO,
    ExchangeClashToken { data: ClashTokenExchangeData },
    ExecuteClashPayment { data: ClashTokenPaymentData },
    TerminateICO,
    /// Never the result of decoding: stands for a tag that names no operation.
    InvalidInstruction,
}

/// What a little-endian 64-bit payload decodes to: the number that its eight
/// bytes spell, and nothing for any other length.
pub open spec fn spec_amount_payload(payload: Seq<u8>) -> Option<u64> {
    if payload.len() == 8 {
        Some(spec_u64_from_le_bytes(payload))
    } else {
        None
    }
}

/// Calls borsh's `BorshDeserialize::try_from_slice` for `u64`. It reads eight
/// bytes as a little-endian number and fails when fewer are there or any are
/// left over; the failure's text is dropped.
#[verifier::external_body]
fn amount_from_payload(payload: &[u8]) -> (r: Option<u64>)
    ensures
        r == spec_amount_payload(payload@),
{
    u64::try_from_slice(payload).ok()
}

impl ProgramInstruction {
    /// The operation that instruction data stands for: the first byte is the
    /// tag, the rest the payload.
    pub open spec fn spec_unpack(input: Seq<u8>) -> Result<ProgramInstruction, ProgramError> {
        if input.len() == 0 {
            Err(ICOError::InvalidInstructionDataEmpty.spec_program_error())
        } else if input[0] == 0 {
            Ok(ProgramInstruction::InitializeICO)
        } else if input[0] == 1 {
            match spec_amount_payload(input.subrange(1, input.len() as int)) {
                Some(amount) => Ok(
                    ProgramInstruction::ExchangeClashToken {
                        data: ClashTokenExchangeData { sol_as_lamports_amount: amount },
                    },
                ),
                None => Err(ProgramError::BorshIoError),
            }
        } else if input[0] == 2 {
            match spec_amount_payload(input.subrange(1, input.len() as int)) {
                Some(amount) => Ok(
                    ProgramInstruction::ExecuteClashPayment {
                        data: ClashTokenPaymentData { clash_token_amount: amount },
                    },
                ),
                None => Err(ProgramError::BorshIoError),
            }
        } else if input[0] == 3 {
            Ok(ProgramInstruction::TerminateICO)
        } else {
            Err(ICOError::InvalidProgramInstruction.spec_program_error())
        }
    }

    /// The instruction data that stands for an operation; none for
    /// `InvalidInstruction`.
    pub open spec fn spec_pack(self) -> Option<Seq<u8>> {
        match self {
            ProgramInstruction::InitializeICO => Some(seq![0u8]),
            ProgramInstruction::ExchangeClashToken { data } => Some(
                seq![1u8] + spec_u64_to_le_bytes(data.sol_as_lamports_amount),
            ),
            ProgramInstruction::ExecuteClashPayment { data } => Some(
                seq![2u8] + spec_u64_to_le_bytes(data.clash_token_amount),
            ),
            ProgramInstruction::TerminateICO => Some(seq![3u8]),
            ProgramInstruction::InvalidInstruction => None,
        }
    }

    /// Decodes instruction data. All or nothing: empty data, an unknown tag
    /// and a payload of the wrong length are each rejected with their own
    /// failure.
    pub fn unpack(input_data: &[u8]) -> (r: Result<ProgramInstruction, ProgramError>)
        ensures
            r == Self::spec_unpack(input_data@),
            input_data@.len() == 0 ==> r == Err::<ProgramInstruction, ProgramError>(
                ProgramError::Custom(0),
            ),
            input_data@.len() > 0 && input_data@[0] > 3 ==> r == Err::<
                ProgramInstruction,
                ProgramError,
            >(ProgramError::Custom(1)),
            r != Ok::<ProgramInstruction, ProgramError>(ProgramInstruction::InvalidInstruction),
    {
        if input_data.len() == 0 {
            return Err(ICOError::InvalidInstructionDataEmpty.to_program_error());
        }
        let instruction_type: u8 = input_data[0];
        let instruction_data = vstd::slice::slice_subrange(input_data, 1, input_data.len());
        if instruction_type == 0 {
            Ok(ProgramInstruction::InitializeICO)
        } else if instruction_type == 1 {
            match amount_from_payload(instruction_data) {
                Some(amount) => Ok(
                    ProgramInstruction::ExchangeClashToken {
                        data: ClashTokenExchangeData { sol_as_lamports_amount: amount },
                    },
                ),
                None => Err(ProgramError::BorshIoError),
            }
        } else if instruction_type == 2 {
            match amount_from_payload(instruction_data) {
                Some(amount) => Ok(
                    ProgramInstruction::ExecuteClashPayment {
                        data: ClashTokenPaymentData { clash_token_amount: amount },
                    },
                ),
                None => Err(ProgramError::BorshIoError),
            }
        } else if instruction_type == 3 {
            Ok(ProgramInstruction::TerminateICO)
        } else {
            Err(ICOError::InvalidProgramInstruction.to_program_error())
        }
    }

    /// Encodes an operation as instruction data.
    pub fn pack(&self) -> (r: Option<Vec<u8>>)
        ensures
            r.is_some() == self.spec_pack().is_some(),
            r.is_some() ==> r.unwrap()@ == self.spec_pack().unwrap(),
    {
        match self {
            ProgramInstruction::InitializeICO => {
                let mut out: Vec<u8> = Vec::new();
                out.push(0u8);
                proof {
                    assert(out@ =~= seq![0u8]);
                }
                Some(out)
            },
            ProgramInstruction::ExchangeClashToken { data } => {
                let mut out: Vec<u8> = Vec::new();
                out.push(1u8);
                let mut amount = u64_to_le_bytes(data.sol_as_lamports_amount);
                out.append(&mut amount);
                proof {
                    assert(out@ =~= seq![1u8] + spec_u64_to_le_bytes(
                        data.sol_as_lamports_amount,
                    ));
                }
                Some(out)
            },
            ProgramInstruction::ExecuteClashPayment { data } => {
                let mut out: Vec<u8> = Vec::new();
                out.push(2u8);
                let mut amount = u64_to_le_bytes(data.clash_token_amount);
                out.append(&mut amount);
                proof {
                    assert(out@ =~= seq![2u8] + spec_u64_to_le_bytes(data.clash_token_amount));
                }
                Some(out)
            },
            ProgramInstruction::TerminateICO => {
                let mut out: Vec<u8> = Vec::new();
                out.push(3u8);
                proof {
                    assert(out@ =~= seq![3u8]);
                }
                Some(out)
            },
            ProgramInstruction::InvalidInstruction => None,
        }
    }
}

/// Decoding what was encoded gives the operation back, whatever amount it
/// carries: every 64-bit value survives the trip through its payload.
pub proof fn lemma_pack_unpack_round_trip(instruction: ProgramInstruction)
    requires
        instruction != ProgramInstruction::InvalidInstruction,
    ensures
        instruction.spec_pack().is_some(),
        ProgramInstruction::spec_unpack(instruction.spec_pack().unwrap()) == Ok::<
            ProgramInstruction,
            ProgramError,
        >(instruction),
{
    lemma_auto_spec_u64_to_from_le_bytes();
    let bytes = instruction.spec_pack().unwrap();
    match instruction {
        ProgramInstruction::ExchangeClashToken { data } => {
            let payload = spec_u64_to_le_bytes(data.sol_as_lamports_amount);
            assert(bytes.subrange(1, bytes.len() as int) =~= payload);
        },
        ProgramInstruction::ExecuteClashPayment { data } => {
            let payload = spec_u64_to_le_bytes(data.clash_token_amount);
            assert(bytes.subrange(1, bytes.len() as int) =~= payload);
        },
        _ => {},
    }
}

/// An amount's eight payload bytes decode to that amount.
pub proof fn lemma_amount_payload_round_trip(amount: u64)
    ensures
        spec_amount_payload(spec_u64_to_le_bytes(amount)) == Some(amount),
{
    lemma_auto_spec_u64_to_from_le_bytes();
}

/// Data whose first byte is no known tag is rejected as an invalid
/// instruction, whatever follows the tag.
pub proof fn lemma_unknown_tag_rejected(input: Seq<u8>)
    requires
        input.len() > 0,
        input[0] > 3,
    ensures
        ProgramInstruction::spec_unpack(input) == Err::<ProgramInstruction, ProgramError>(
            ICOError::InvalidProgramInstruction.spec_program_error(),
        ),
{
}

} // verus!
