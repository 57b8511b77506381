use vstd::prelude::*;

verus! {

/// The sale's own failure reasons. Each has a stable numeric code, its position
/// in this list, and a fixed message.
#[derive(Copy, Clone, Debug, PartialEq, Eq, Structural)]
pub enum ICOError {
    InvalidInstructionDataEmpty,
    InvalidProgramInstruction,
    InvalidClashTokenId,
    InvalidAddressProgramPDA,
    AlreadyCreatedPDAAccount,
    InitializerNotMintAuthority,
    InvalidInitializerATAAddress,
    CannotTransferSameAccount,
    CannotTransferSameAssociatedAccount,
    InvalidSourceAssociatedAccountOwner,
    InvalidProgramAssociatedPDAOwner,
    InvalidClashTokenDestinationWallet,
    InvalidOfferTooFew,
    InvalidOfferTooMuch,
    InvalidClashTokenAmount,
    InsuficientClashToken,
    InvalidClashTrustedAuthority,
    InvalidTerminateUninitializedICO,
    InitializerAccountMismatch,
    InitializerAssociatedAccountMismatch,
}

/// Why an instruction was rejected: one of the sale's own reasons, carried by
/// its code, or one of the ledger's generic reasons.
#[derive(Copy, Clone, Debug, PartialEq, Eq, Structural)]
pub enum ProgramError {
    Custom(u32),
    InvalidArgument,
    InvalidInstructionData,
    InvalidAccountData,
    InsufficientFunds,
    IncorrectProgramId,
    MissingRequiredSignature,
    UninitializedAccount,
    NotEnoughAccountKeys,
    InvalidSeeds,
    BorshIoError,
    UnsupportedSysvar,
    IllegalOwner,
}

impl ICOError {
    /// The stable numeric code of a failure reason.
    pub open spec fn spec_code(self) -> u32 {
        match self {
            ICOError::InvalidInstructionDataEmpty => 0,
            ICOError::InvalidProgramInstruction => 1,
            ICOError::InvalidClashTokenId => 2,
            ICOError::InvalidAddressProgramPDA => 3,
            ICOError::AlreadyCreatedPDAAccount => 4,
            ICOError::InitializerNotMintAuthority => 5,
            ICOError::InvalidInitializerATAAddress => 6,
            ICOError::CannotTransferSameAccount => 7,
            ICOError::CannotTransferSameAssociatedAccount => 8,
            ICOError::InvalidSourceAssociatedAccountOwner => 9,
            ICOError::InvalidProgramAssociatedPDAOwner => 10,
            ICOError::InvalidClashTokenDestinationWallet => 11,
            ICOError::InvalidOfferTooFew => 12,
            ICOError::InvalidOfferTooMuch => 13,
            ICOError::InvalidClashTokenAmount => 14,
            ICOError::InsuficientClashToken => 15,
            ICOError::InvalidClashTrustedAuthority => 16,
            ICOError::InvalidTerminateUninitializedICO => 17,
            ICOError::InitializerAccountMismatch => 18,
            ICOError::InitializerAssociatedAccountMismatch => 19,
        }
    }

    /// The failure that the ledger reports for this reason.
    pub open spec fn spec_program_error(self) -> ProgramError {
        ProgramError::Custom(self.spec_code())
    }

    pub fn code(&self) -> (c: u32)
        ensures
            c == self.spec_code(),
            c < 20,
    {
        match self {
            ICOError::InvalidInstructionDataEmpty => 0,
            ICOError::InvalidProgramInstruction => 1,
            ICOError::InvalidClashTokenId => 2,
            ICOError::InvalidAddressProgramPDA => 3,
            ICOError::AlreadyCreatedPDAAccount => 4,
            ICOError::InitializerNotMintAuthority => 5,
            ICOError::InvalidInitializerATAAddress => 6,
            ICOError::CannotTransferSameAccount => 7,
            ICOError::CannotTransferSameAssociatedAccount => 8,
            ICOError::InvalidSourceAssociatedAccountOwner => 9,
            ICOError::InvalidProgramAssociatedPDAOwner => 10,
            ICOError::InvalidClashTokenDestinationWallet => 11,
            ICOError::InvalidOfferTooFew => 12,
            ICOError::InvalidOfferTooMuch => 13,
            ICOError::InvalidClashTokenAmount => 14,
            ICOError::InsuficientClashToken => 15,
            ICOError::InvalidClashTrustedAuthority => 16,
            ICOError::InvalidTerminateUninitializedICO => 17,
            ICOError::InitializerAccountMismatch => 18,
            ICOError::InitializerAssociatedAccountMismatch => 19,
        }
    }

    /// The reason with a given code, if there is one.
    pub fn from_code(code: u32) -> (r: Option<ICOError>)
        ensures
            r.is_some() == (code < 20),
            r.is_some() ==> r.unwrap().spec_code() == code,
    {
        match code {
            0 => Some(ICOError::InvalidInstructionDataEmpty),
            1 => Some(ICOError::InvalidProgramInstruction),
            2 => Some(ICOError::InvalidClashTokenId),
            3 => Some(ICOError::InvalidAddressProgramPDA),
            4 => Some(ICOError::AlreadyCreatedPDAAccount),
            5 => Some(ICOError::InitializerNotMintAuthority),
            6 => Some(ICOError::InvalidInitializerATAAddress),
            7 => Some(ICOError::CannotTransferSameAccount),
            8 => Some(ICOError::CannotTransferSameAssociatedAccount),
            9 => Some(ICOError::InvalidSourceAssociatedAccountOwner),
            10 => Some(ICOError::InvalidProgramAssociatedPDAOwner),
            11 => Some(ICOError::InvalidClashTokenDestinationWallet),
            12 => Some(ICOError::InvalidOfferTooFew),
            13 => Some(ICOError::InvalidOfferTooMuch),
            14 => Some(ICOError::InvalidClashTokenAmount),
            15 => Some(ICOError::InsuficientClashToken),
            16 => Some(ICOError::InvalidClashTrustedAuthority),
            17 => Some(ICOError::InvalidTerminateUninitializedICO),
            18 => Some(ICOError::InitializerAccountMismatch),
            19 => Some(ICOError::InitializerAssociatedAccountMismatch),
            _ => None,
        }
    }

    /// The text that describes a failure reason to a reader of the execution log.
    pub open spec fn spec_message(self) -> Seq<char> {
        match self {
            ICOError::InvalidInstructionDataEmpty =>
                "Invalid instruction data: No data was passed to program"@,
            ICOError::InvalidProgramInstruction => "Invalid program instruction"@,
            ICOError::InvalidClashTokenId => "Invalid Clash token ID"@,
            ICOError::InvalidAddressProgramPDA =>
                "Program account PDA does not match the expected PDA"@,
            ICOError::AlreadyCreatedPDAAccount =>
                "Program PDA account already exists! Terminate the current ICO and try again"@,
            ICOError::InitializerNotMintAuthority =>
                "Initializer is not the token mint authority"@,
            ICOError::InvalidInitializerATAAddress =>
                "Unexpected address for initializer associated token account"@,
            ICOError::CannotTransferSameAccount =>
                "Cannot transfer SOL from/to the same account"@,
            ICOError::CannotTransferSameAssociatedAccount =>
                "Cannot transfer CLASH from/to the same associated account"@,
            ICOError::InvalidSourceAssociatedAccountOwner =>
                "Invalid source associated account owner: must be owned by the source SOL account"@,
            ICOError::InvalidProgramAssociatedPDAOwner =>
                "Invalid program associated account owner: must be owner by the program PDA"@,
            ICOError::InvalidClashTokenDestinationWallet =>
                "Invalid Clash token destination account address"@,
            ICOError::InvalidOfferTooFew =>
                "Invalid offer because its value in USD is bellow the limit"@,
            ICOError::InvalidOfferTooMuch =>
                "Invalid offer because its value in USD is above the limit"@,
            ICOError::InvalidClashTokenAmount =>
                "Invalid Clash token count: more SOL may be required"@,
            ICOError::InsuficientClashToken =>
                "Not enough Clash tokens available to exchange"@,
            ICOError::InvalidClashTrustedAuthority =>
                "Invalid Clash trusted payment authority"@,
            ICOError::InvalidTerminateUninitializedICO =>
                "There is not an initialized ICO to terminate"@,
            ICOError::InitializerAccountMismatch => "Incorrect initializer account"@,
            ICOError::InitializerAssociatedAccountMismatch =>
                "Incorrect initializer associated token account"@,
        }
    }

    pub fn message(&self) -> (m: &'static str)
        ensures
            m@ == self.spec_message(),
    {
        match self {
            ICOError::InvalidInstructionDataEmpty =>
                "Invalid instruction data: No data was passed to program",
            ICOError::InvalidProgramInstruction => "Invalid program instruction",
            ICOError::InvalidClashTokenId => "Invalid Clash token ID",
            ICOError::InvalidAddressProgramPDA =>
                "Program account PDA does not match the expected PDA",
            ICOError::AlreadyCreatedPDAAccount =>
                "Program PDA account already exists! Terminate the current ICO and try again",
            ICOError::InitializerNotMintAuthority =>
                "Initializer is not the token mint authority",
            ICOError::InvalidInitializerATAAddress =>
                "Unexpected address for initializer associated token account",
            ICOError::CannotTransferSameAccount =>
                "Cannot transfer SOL from/to the same account",
            ICOError::CannotTransferSameAssociatedAccount =>
                "Cannot transfer CLASH from/to the same associated account",
            ICOError::InvalidSourceAssociatedAccountOwner =>
                "Invalid source associated account owner: must be owned by the source SOL account",
            ICOError::InvalidProgramAssociatedPDAOwner =>
                "Invalid program associated account owner: must be owner by the program PDA",
            ICOError::InvalidClashTokenDestinationWallet =>
                "Invalid Clash token destination account address",
            ICOError::InvalidOfferTooFew =>
                "Invalid offer because its value in USD is bellow the limit",
            ICOError::InvalidOfferTooMuch =>
                "Invalid offer because its value in USD is above the limit",
            ICOError::InvalidClashTokenAmount =>
                "Invalid Clash token count: more SOL may be required",
            ICOError::InsuficientClashToken =>
                "Not enough Clash tokens available to exchange",
            ICOError::InvalidClashTrustedAuthority =>
                "Invalid Clash trusted payment authority",
            ICOError::InvalidTerminateUninitializedICO =>
                "There is not an initialized ICO to terminate",
            ICOError::InitializerAccountMismatch => "Incorrect initializer account",
            ICOError::InitializerAssociatedAccountMismatch =>
                "Incorrect initializer associated token account",
        }
    }

    /// Converts a failure reason to the failure that the ledger reports.
    pub fn to_program_error(&self) -> (e: ProgramError)
        ensures
            e == self.spec_program_error(),
    {
        ProgramError::Custom(self.code())
    }
}

/// Rejects the instruction for the given reason: never `Ok`.
pub fn ico_err(err: ICOError) -> (r: Result<(), ProgramError>)
    ensures
        r == Err::<(), ProgramError>(err.spec_program_error()),
{
    Err(err.to_program_error())
}

/// Distinct reasons have distinct codes.
pub proof fn lemma_codes_are_distinct(a: ICOError, b: ICOError)
    ensures
        a.spec_code() == b.spec_code() <==> a == b,
{
}

} // verus!
