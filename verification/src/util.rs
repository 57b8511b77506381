use crate::account::{AccountInfo, TokenAccount};
use crate::address::Address;
use crate::error::ProgramError;
use vstd::prelude::*;

verus! {

/// The outcome of the structural check of one account: the first of the
/// demanded properties that the account lacks, in the order signature,
/// writability, funds.
pub open spec fn spec_validate_account(
    account: AccountInfo,
    signer: bool,
    writable: bool,
    initialized: bool,
) -> Result<(), ProgramError> {
    if signer && !account.is_signer {
        Err(ProgramError::MissingRequiredSignature)
    } else if writable && !account.is_writable {
        Err(ProgramError::InvalidArgument)
    } else if initialized && account.lamports == 0 {
        Err(ProgramError::UninitializedAccount)
    } else {
        Ok(())
    }
}

/// The outcome of checking a token account against the owner and the mint
/// expected of it: the owner is looked at first.
pub open spec fn spec_validate_token_account(
    account: TokenAccount,
    owner: Seq<u8>,
    mint: Seq<u8>,
) -> Result<(), ProgramError> {
    if account.owner@ != owner {
        Err(ProgramError::IllegalOwner)
    } else if account.mint@ != mint {
        Err(ProgramError::InvalidArgument)
    } else {
        Ok(())
    }
}

/// Checks that an account signed, may be written and holds lamports, as far
/// as each is demanded.
pub fn validate_account(
    acc_info: &AccountInfo,
    signer: bool,
    writable: bool,
    initialized: bool,
) -> (r: Result<(), ProgramError>)
    ensures
        r == spec_validate_account(*acc_info, signer, writable, initialized),
{
    if signer && !acc_info.is_signer {
        return Err(ProgramError::MissingRequiredSignature);
    }
    if writable && !acc_info.is_writable {
        return Err(ProgramError::InvalidArgument);
    }
    if initialized && acc_info.lamports == 0 {
        return Err(ProgramError::UninitializedAccount);
    }
    Ok(())
}

/// Checks that a token account belongs to `owner` and holds tokens of `mint`.
pub fn validate_token_account(acc_info: &TokenAccount, owner: &Address, mint: &Address) -> (r:
    Result<(), ProgramError>)
    ensures
        r == spec_validate_token_account(*acc_info, owner@, mint@),
{
    if !acc_info.owner.same(owner) {
        return Err(ProgramError::IllegalOwner);
    }
    if !acc_info.mint.same(mint) {
        return Err(ProgramError::InvalidArgument);
    }
    Ok(())
}

/// The structural check passes exactly when the account has every demanded
/// property.
pub proof fn lemma_validate_account_ok(
    account: AccountInfo,
    signer: bool,
    writable: bool,
    initialized: bool,
)
    ensures
        spec_validate_account(account, signer, writable, initialized).is_ok() <==> (signer
            ==> account.is_signer) && (writable ==> account.is_writable) && (initialized
            ==> account.lamports != 0),
{
}

} // verus!
