use crate::account::{spec_mint, spec_token_account, AccountInfo, TokenAccount};
use crate::address::Address;
use crate::config::Config;
use crate::error::{ICOError, ProgramError};
use crate::ledger::{
    associated_token_account_creation, plan_view, spec_associated_token_address,
    spec_create_associated_token_account,
    spec_token_program_id,
    spec_transfer_checked, transfer_checked, Effect, EffectView, InstructionView,
};
use crate::processor::{plan_matches, step_if, Processor};
use crate::state::ClashTokenPaymentData;
use crate::util::{spec_validate_account, validate_account};
use vstd::prelude::*;

verus! {

impl Processor {
    /// The structural demands on the accounts of a confirmed payment: the
    /// payer is funded, its token account writable, the mint funded, the
    /// trusted authority signs and is funded, the custody account is
    /// writable and funded.
    pub open spec fn spec_payment_structure(accounts: Seq<AccountInfo>) -> Result<
        (),
        ProgramError,
    > {
        let payer = spec_validate_account(accounts[0], false, false, true);
        let payer_token = spec_validate_account(accounts[1], false, true, false);
        let mint = spec_validate_account(accounts[2], false, false, true);
        let signer = spec_validate_account(accounts[3], true, false, true);
        let custody = spec_validate_account(accounts[4], false, true, true);
        if accounts.len() < 11 {
            Err(ProgramError::NotEnoughAccountKeys)
        } else if payer.is_err() {
            payer
        } else if payer_token.is_err() {
            payer_token
        } else if mint.is_err() {
            mint
        } else if signer.is_err() {
            signer
        } else {
            custody
        }
    }

    /// The checks of a confirmed payment that look at the accounts alone, in
    /// their order. The signer's identity is the whole authorization of this
    /// path: it must be the configured payment authority.
    pub open spec fn spec_payment_accounts(
        cfg: Config,
        program_id: Seq<u8>,
        accounts: Seq<AccountInfo>,
    ) -> Result<(), ProgramError> {
        let structure = Self::spec_payment_structure(accounts);
        let payer_token = spec_token_account(accounts[1].data@);
        let authority = cfg.spec_authority(program_id);
        let custody = spec_token_account(accounts[4].data@);
        if structure.is_err() {
            structure
        } else if accounts[5].key@ != program_id {
            Err(ProgramError::IncorrectProgramId)
        } else if accounts[2].key@ != cfg.clash_token_id@ {
            Err(ICOError::InvalidClashTokenId.spec_program_error())
        } else if accounts[1].key@ == accounts[4].key@ {
            Err(ICOError::CannotTransferSameAssociatedAccount.spec_program_error())
        } else if accounts[3].key@ != cfg.clash_payment_authority@ {
            Err(ICOError::InvalidClashTrustedAuthority.spec_program_error())
        } else if accounts[1].lamports != 0 && payer_token.is_none() {
            Err(ProgramError::InvalidAccountData)
        } else if accounts[1].lamports != 0 && payer_token.unwrap().owner@ != accounts[0].key@ {
            Err(ICOError::InvalidClashTokenDestinationWallet.spec_program_error())
        } else if authority.is_none() {
            Err(ProgramError::InvalidSeeds)
        } else if accounts[6].key@ != authority.unwrap().0 {
            Err(ICOError::InvalidAddressProgramPDA.spec_program_error())
        } else if custody.is_none() {
            Err(ProgramError::InvalidAccountData)
        } else if custody.unwrap().owner@ != authority.unwrap().0 {
            Err(ICOError::InvalidProgramAssociatedPDAOwner.spec_program_error())
        } else {
            Ok(())
        }
    }

    /// The token transfer of a confirmed payment: from custody to the
    /// payer's token account, in the name of the derived address.
    pub open spec fn spec_payment_token_transfer(
        accounts: Seq<AccountInfo>,
        data: ClashTokenPaymentData,
    ) -> Option<InstructionView> {
        spec_transfer_checked(
            accounts[8].key@,
            accounts[4].key@,
            accounts[2].key@,
            accounts[1].key@,
            accounts[6].key@,
            data.clash_token_amount,
            spec_mint(accounts[2].data@).unwrap().decimals,
        )
    }

    /// The checks of a confirmed payment that look at the amount, once the
    /// accounts have passed: it is not zero, custody holds it, the payer's
    /// token account has an address where it is to be created, the mint
    /// decodes, and the token program is the one named.
    pub open spec fn spec_payment_amount(
        accounts: Seq<AccountInfo>,
        data: ClashTokenPaymentData,
    ) -> Result<(), ProgramError> {
        if data.clash_token_amount == 0 {
            Err(ICOError::InvalidClashTokenAmount.spec_program_error())
        } else if spec_token_account(accounts[4].data@).unwrap().amount
            < data.clash_token_amount {
            Err(ICOError::InsuficientClashToken.spec_program_error())
        } else if accounts[1].lamports == 0 && spec_associated_token_address(
            accounts[0].key@,
            accounts[2].key@,
        ).is_none() {
            Err(ProgramError::InvalidSeeds)
        } else if spec_mint(accounts[2].data@).is_none() {
            Err(ProgramError::InvalidAccountData)
        } else if accounts[8].key@ != spec_token_program_id() {
            Err(ProgramError::IncorrectProgramId)
        } else {
            Ok(())
        }
    }

    /// What an accepted payment does: it creates the payer's token account
    /// where that holds no lamports, and moves the confirmed quantity from
    /// custody to the payer. No lamports move.
    pub open spec fn spec_payment_plan(
        cfg: Config,
        program_id: Seq<u8>,
        accounts: Seq<AccountInfo>,
        data: ClashTokenPaymentData,
    ) -> Seq<EffectView> {
        step_if(
            accounts[1].lamports == 0,
            EffectView::Invoke {
                instruction: spec_create_associated_token_account(
                    accounts[0].key@,
                    accounts[0].key@,
                    accounts[2].key@,
                ),
                accounts: seq![0usize, 1usize, 2usize, 7usize, 9usize, 10usize],
                signer_bump: None,
            },
        ) + seq![
            EffectView::Invoke {
                instruction: Self::spec_payment_token_transfer(accounts, data).unwrap(),
                accounts: seq![4usize, 1usize, 2usize, 8usize, 6usize],
                signer_bump: Some(cfg.spec_authority(program_id).unwrap().1),
            },
        ]
    }

    /// The answer to a payment that the trusted authority confirms.
    pub open spec fn spec_execute_clash_payment(
        cfg: Config,
        program_id: Seq<u8>,
        accounts: Seq<AccountInfo>,
        data: ClashTokenPaymentData,
    ) -> Result<Seq<EffectView>, ProgramError> {
        let checked = Self::spec_payment_accounts(cfg, program_id, accounts);
        let amount = Self::spec_payment_amount(accounts, data);
        if checked.is_err() {
            Err(checked.unwrap_err())
        } else if amount.is_err() {
            Err(amount.unwrap_err())
        } else {
            Ok(Self::spec_payment_plan(cfg, program_id, accounts, data))
        }
    }

    /// Checks the structure of the accounts of a confirmed payment.
    fn payment_structure(accounts: &[AccountInfo]) -> (r: Result<(), ProgramError>)
        ensures
            r == Self::spec_payment_structure(accounts@),
    {
        if accounts.len() < 11 {
            return Err(ProgramError::NotEnoughAccountKeys);
        }
        validate_account(&accounts[0], false, false, true)?;
        validate_account(&accounts[1], false, true, false)?;
        validate_account(&accounts[2], false, false, true)?;
        validate_account(&accounts[3], true, false, true)?;
        validate_account(&accounts[4], false, true, true)
    }

    /// Runs the checks of a confirmed payment that look at the accounts
    /// alone, and gives the derived address's bump and the custody account.
    fn payment_accounts(cfg: &Config, program_id: &Address, accounts: &[AccountInfo]) -> (r:
        Result<(u8, TokenAccount), ProgramError>)
        ensures
            match r {
                Ok(found) => Self::spec_payment_accounts(*cfg, program_id@, accounts@).is_ok()
                    && found.0 == cfg.spec_authority(program_id@).unwrap().1 && Some(found.1)
                    == spec_token_account(accounts@[4].data@),
                Err(e) => Self::spec_payment_accounts(*cfg, program_id@, accounts@) == Err::<
                    (),
                    ProgramError,
                >(e),
            },
    {
        Self::payment_structure(accounts)?;
        if !accounts[5].key.same(program_id) {
            return Err(ProgramError::IncorrectProgramId);
        }
        if !accounts[2].key.same(&cfg.clash_token_id) {
            return Err(ICOError::InvalidClashTokenId.to_program_error());
        }
        if accounts[1].key.same(&accounts[4].key) {
            return Err(ICOError::CannotTransferSameAssociatedAccount.to_program_error());
        }
        if !accounts[3].key.same(&cfg.clash_payment_authority) {
            return Err(ICOError::InvalidClashTrustedAuthority.to_program_error());
        }
        if accounts[1].lamports != 0 {
            let payer_token = match accounts[1].token_account() {
                Some(account) => account,
                None => { return Err(ProgramError::InvalidAccountData); },
            };
            if !payer_token.owner.same(&accounts[0].key) {
                return Err(ICOError::InvalidClashTokenDestinationWallet.to_program_error());
            }
        }
        let authority = match cfg.derive_authority(program_id) {
            Some(authority) => authority,
            None => { return Err(ProgramError::InvalidSeeds); },
        };
        if !accounts[6].key.same(&authority.address) {
            return Err(ICOError::InvalidAddressProgramPDA.to_program_error());
        }
        let custody = match accounts[4].token_account() {
            Some(account) => account,
            None => { return Err(ProgramError::InvalidAccountData); },
        };
        if !custody.owner.same(&authority.address) {
            return Err(ICOError::InvalidProgramAssociatedPDAOwner.to_program_error());
        }
        Ok((authority.bump, custody))
    }

    /// Decides a payment that the trusted authority confirms: the quantity in
    /// `data` is credited as it stands. The answer is the first failure in
    /// the order of the checks, or the plan of the payment.
    pub fn execute_clash_payment(
        cfg: &Config,
        program_id: &Address,
        accounts: &[AccountInfo],
        data: &ClashTokenPaymentData,
    ) -> (r: Result<Vec<Effect>, ProgramError>)
        ensures
            plan_matches(
                r,
                Self::spec_execute_clash_payment(*cfg, program_id@, accounts@, *data),
            ),
    {
        let (bump, custody) = Self::payment_accounts(cfg, program_id, accounts)?;
        let clash_amount: u64 = data.clash_token_amount;
        if clash_amount == 0 {
            return Err(ICOError::InvalidClashTokenAmount.to_program_error());
        }
        if custody.amount < clash_amount {
            return Err(ICOError::InsuficientClashToken.to_program_error());
        }
        let creation = if accounts[1].lamports == 0 {
            match associated_token_account_creation(
                &accounts[0].key,
                &accounts[0].key,
                &accounts[2].key,
            ) {
                Some(instruction) => Some(instruction),
                None => { return Err(ProgramError::InvalidSeeds); },
            }
        } else {
            None
        };
        let mint = match accounts[2].mint() {
            Some(mint) => mint,
            None => { return Err(ProgramError::InvalidAccountData); },
        };
        let token_transfer = match transfer_checked(
            &accounts[8].key,
            &accounts[4].key,
            &accounts[2].key,
            &accounts[1].key,
            &accounts[6].key,
            clash_amount,
            mint.decimals,
        ) {
            Some(instruction) => instruction,
            None => { return Err(ProgramError::IncorrectProgramId); },
        };
        let mut plan: Vec<Effect> = Vec::new();
        if let Some(instruction) = creation {
            plan.push(
                Effect::Invoke {
                    instruction,
                    accounts: vec![0usize, 1usize, 2usize, 7usize, 9usize, 10usize],
                    signer_bump: None,
                },
            );
        }
        plan.push(
            Effect::Invoke {
                instruction: token_transfer,
                accounts: vec![4usize, 1usize, 2usize, 8usize, 6usize],
                signer_bump: Some(bump),
            },
        );
        proof {
            assert(plan_view(plan@) =~= Self::spec_payment_plan(
                *cfg,
                program_id@,
                accounts@,
                *data,
            ));
        }
        Ok(plan)
    }
}

} // verus!
