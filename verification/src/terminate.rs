use crate::account::{spec_mint, spec_token_account, AccountInfo};
use crate::address::Address;
use crate::config::Config;
use crate::error::{ICOError, ProgramError};
use crate::ledger::{
    close_account, plan_view, spec_close_account, spec_token_program_id,
    spec_transfer_checked, transfer_checked,
    Effect, EffectView, InstructionView,
};
use crate::processor::{plan_matches, step_if, Processor};
use crate::state::ICOProgramData;
use crate::util::{
    spec_validate_account, spec_validate_token_account, validate_account, validate_token_account,
};
use vstd::prelude::*;

verus! {

impl Processor {
    /// The structural demands on the accounts that close a sale: the
    /// initializer signs and is funded, its token account and the mint are
    /// funded, the record account and the custody account are writable.
    pub open spec fn spec_terminate_structure(accounts: Seq<AccountInfo>) -> Result<
        (),
        ProgramError,
    > {
        let initializer = spec_validate_account(accounts[0], true, false, true);
        let initializer_token = spec_validate_account(accounts[1], false, false, true);
        let mint = spec_validate_account(accounts[2], false, false, true);
        let record = spec_validate_account(accounts[3], false, true, false);
        let custody = spec_validate_account(accounts[4], false, true, false);
        if accounts.len() < 6 {
            Err(ProgramError::NotEnoughAccountKeys)
        } else if initializer.is_err() {
            initializer
        } else if initializer_token.is_err() {
            initializer_token
        } else if mint.is_err() {
            mint
        } else if record.is_err() {
            record
        } else {
            custody
        }
    }

    /// The checks that come before the record is read: the structure, the
    /// token, and the record account's address.
    pub open spec fn spec_terminate_accounts(
        cfg: Config,
        program_id: Seq<u8>,
        accounts: Seq<AccountInfo>,
    ) -> Result<(), ProgramError> {
        let structure = Self::spec_terminate_structure(accounts);
        let authority = cfg.spec_authority(program_id);
        if structure.is_err() {
            structure
        } else if accounts[2].key@ != cfg.clash_token_id@ {
            Err(ICOError::InvalidClashTokenId.spec_program_error())
        } else if authority.is_none() {
            Err(ProgramError::InvalidSeeds)
        } else if accounts[3].key@ != authority.unwrap().0 {
            Err(ICOError::InvalidAddressProgramPDA.spec_program_error())
        } else {
            Ok(())
        }
    }

    /// The checks on the record, once the accounts have passed: a sale is
    /// open, its record decodes, and it names the caller and the caller's
    /// token account.
    pub open spec fn spec_terminate_record(accounts: Seq<AccountInfo>) -> Result<
        (),
        ProgramError,
    > {
        let record = accounts[3].data@;
        if accounts[3].lamports == 0 {
            Err(ICOError::InvalidTerminateUninitializedICO.spec_program_error())
        } else if !ICOProgramData::spec_decodes(record) {
            Err(ProgramError::BorshIoError)
        } else if record.subrange(0, 32) != accounts[0].key@ {
            Err(ICOError::InitializerAccountMismatch.spec_program_error())
        } else if record.subrange(32, 64) != accounts[1].key@ {
            Err(ICOError::InitializerAssociatedAccountMismatch.spec_program_error())
        } else {
            Ok(())
        }
    }

    /// The transfer that sweeps what custody still holds to the
    /// initializer's token account.
    pub open spec fn spec_terminate_token_transfer(accounts: Seq<AccountInfo>) -> Option<
        InstructionView,
    > {
        spec_transfer_checked(
            accounts[5].key@,
            accounts[4].key@,
            accounts[2].key@,
            accounts[1].key@,
            accounts[3].key@,
            spec_token_account(accounts[4].data@).unwrap().amount,
            spec_mint(accounts[2].data@).unwrap().decimals,
        )
    }

    /// The call that closes the custody account and returns its lamports to
    /// the initializer.
    pub open spec fn spec_terminate_close(accounts: Seq<AccountInfo>) -> Option<InstructionView> {
        spec_close_account(
            accounts[5].key@,
            accounts[4].key@,
            accounts[0].key@,
            accounts[3].key@,
        )
    }

    /// The checks on the custody account, once the record has passed. They
    /// apply only where the custody account holds lamports: it decodes, the
    /// derived address owns it, it holds the sale's token, and the token
    /// program is the one named.
    pub open spec fn spec_terminate_custody(cfg: Config, accounts: Seq<AccountInfo>) -> Result<
        (),
        ProgramError,
    > {
        let custody = spec_token_account(accounts[4].data@);
        let held = spec_validate_token_account(
            custody.unwrap(),
            accounts[3].key@,
            cfg.clash_token_id@,
        );
        if spec_mint(accounts[2].data@).is_none() {
            Err(ProgramError::InvalidAccountData)
        } else if accounts[4].lamports == 0 {
            Ok(())
        } else if custody.is_none() {
            Err(ProgramError::InvalidAccountData)
        } else if held.is_err() {
            held
        } else if accounts[5].key@ != spec_token_program_id() {
            Err(ProgramError::IncorrectProgramId)
        } else {
            Ok(())
        }
    }

    /// What closing custody takes, where the custody account holds lamports:
    /// the sweep of its tokens, if it has any, and its closing.
    pub open spec fn spec_terminate_custody_plan(
        cfg: Config,
        program_id: Seq<u8>,
        accounts: Seq<AccountInfo>,
    ) -> Seq<EffectView> {
        let bump = cfg.spec_authority(program_id).unwrap().1;
        step_if(
            spec_token_account(accounts[4].data@).unwrap().amount > 0,
            EffectView::Invoke {
                instruction: Self::spec_terminate_token_transfer(accounts).unwrap(),
                accounts: seq![4usize, 2usize, 1usize, 5usize, 3usize],
                signer_bump: Some(bump),
            },
        ) + seq![
            EffectView::Invoke {
                instruction: Self::spec_terminate_close(accounts).unwrap(),
                accounts: seq![4usize, 0usize, 3usize, 5usize],
                signer_bump: Some(bump),
            },
        ]
    }

    /// What an accepted closing does: it closes custody where that holds
    /// lamports, and then moves every lamport of the record account to the
    /// initializer, which ends the sale.
    pub open spec fn spec_terminate_plan(
        cfg: Config,
        program_id: Seq<u8>,
        accounts: Seq<AccountInfo>,
    ) -> Seq<EffectView> {
        (if accounts[4].lamports != 0 {
            Self::spec_terminate_custody_plan(cfg, program_id, accounts)
        } else {
            Seq::empty()
        }) + seq![EffectView::SweepLamports { from: 3usize, to: 0usize }]
    }

    /// The answer to a request to close the sale.
    pub open spec fn spec_terminate_ico(
        cfg: Config,
        program_id: Seq<u8>,
        accounts: Seq<AccountInfo>,
    ) -> Result<Seq<EffectView>, ProgramError> {
        let checked = Self::spec_terminate_accounts(cfg, program_id, accounts);
        let record = Self::spec_terminate_record(accounts);
        let custody = Self::spec_terminate_custody(cfg, accounts);
        if checked.is_err() {
            Err(checked.unwrap_err())
        } else if record.is_err() {
            Err(record.unwrap_err())
        } else if custody.is_err() {
            Err(custody.unwrap_err())
        } else {
            Ok(Self::spec_terminate_plan(cfg, program_id, accounts))
        }
    }

    /// Checks the structure of the accounts that close a sale.
    fn terminate_structure(accounts: &[AccountInfo]) -> (r: Result<(), ProgramError>)
        ensures
            r == Self::spec_terminate_structure(accounts@),
    {
        if accounts.len() < 6 {
            return Err(ProgramError::NotEnoughAccountKeys);
        }
        validate_account(&accounts[0], true, false, true)?;
        validate_account(&accounts[1], false, false, true)?;
        validate_account(&accounts[2], false, false, true)?;
        validate_account(&accounts[3], false, true, false)?;
        validate_account(&accounts[4], false, true, false)
    }

    /// Runs the checks that come before the record is read, and gives the
    /// derived address's bump.
    fn terminate_accounts(cfg: &Config, program_id: &Address, accounts: &[AccountInfo]) -> (r:
        Result<u8, ProgramError>)
        ensures
            match r {
                Ok(bump) => Self::spec_terminate_accounts(*cfg, program_id@, accounts@).is_ok()
                    && bump == cfg.spec_authority(program_id@).unwrap().1,
                Err(e) => Self::spec_terminate_accounts(*cfg, program_id@, accounts@) == Err::<
                    (),
                    ProgramError,
                >(e),
            },
    {
        Self::terminate_structure(accounts)?;
        if !accounts[2].key.same(&cfg.clash_token_id) {
            return Err(ICOError::InvalidClashTokenId.to_program_error());
        }
        let authority = match cfg.derive_authority(program_id) {
            Some(authority) => authority,
            None => { return Err(ProgramError::InvalidSeeds); },
        };
        if !accounts[3].key.same(&authority.address) {
            return Err(ICOError::InvalidAddressProgramPDA.to_program_error());
        }
        Ok(authority.bump)
    }

    /// Runs the checks on the record.
    fn terminate_record(accounts: &[AccountInfo]) -> (r: Result<(), ProgramError>)
        requires
            accounts@.len() >= 6,
        ensures
            r == Self::spec_terminate_record(accounts@),
    {
        if accounts[3].lamports == 0 {
            return Err(ICOError::InvalidTerminateUninitializedICO.to_program_error());
        }
        let record = ICOProgramData::try_from_slice(accounts[3].data.as_slice())?;
        if !record.initializer.same(&accounts[0].key) {
            return Err(ICOError::InitializerAccountMismatch.to_program_error());
        }
        if !record.initializer_ata.same(&accounts[1].key) {
            return Err(ICOError::InitializerAssociatedAccountMismatch.to_program_error());
        }
        Ok(())
    }

    /// Decides a request to close the sale. The answer is the first failure
    /// in the order of the checks, or the plan of the closing.
    pub fn terminate_ico(cfg: &Config, program_id: &Address, accounts: &[AccountInfo]) -> (r:
        Result<Vec<Effect>, ProgramError>)
        ensures
            plan_matches(r, Self::spec_terminate_ico(*cfg, program_id@, accounts@)),
    {
        let bump = Self::terminate_accounts(cfg, program_id, accounts)?;
        Self::terminate_record(accounts)?;
        let mint = match accounts[2].mint() {
            Some(mint) => mint,
            None => { return Err(ProgramError::InvalidAccountData); },
        };
        let mut plan: Vec<Effect> = Vec::new();
        if accounts[4].lamports != 0 {
            let custody = match accounts[4].token_account() {
                Some(account) => account,
                None => { return Err(ProgramError::InvalidAccountData); },
            };
            validate_token_account(&custody, &accounts[3].key, &cfg.clash_token_id)?;
            if custody.amount > 0 {
                let token_transfer = match transfer_checked(
                    &accounts[5].key,
                    &accounts[4].key,
                    &accounts[2].key,
                    &accounts[1].key,
                    &accounts[3].key,
                    custody.amount,
                    mint.decimals,
                ) {
                    Some(instruction) => instruction,
                    None => { return Err(ProgramError::IncorrectProgramId); },
                };
                plan.push(
                    Effect::Invoke {
                        instruction: token_transfer,
                        accounts: vec![4usize, 2usize, 1usize, 5usize, 3usize],
                        signer_bump: Some(bump),
                    },
                );
            }
            let close = match close_account(
                &accounts[5].key,
                &accounts[4].key,
                &accounts[0].key,
                &accounts[3].key,
            ) {
                Some(instruction) => instruction,
                None => { return Err(ProgramError::IncorrectProgramId); },
            };
            plan.push(
                Effect::Invoke {
                    instruction: close,
                    accounts: vec![4usize, 0usize, 3usize, 5usize],
                    signer_bump: Some(bump),
                },
            );
            proof {
                assert(plan_view(plan@) =~= Self::spec_terminate_custody_plan(
                    *cfg,
                    program_id@,
                    accounts@,
                ));
            }
        }
        plan.push(Effect::SweepLamports { from: 3usize, to: 0usize });
        proof {
            assert(plan_view(plan@) =~= Self::spec_terminate_plan(*cfg, program_id@, accounts@));
        }
        Ok(plan)
    }
}

} // verus!
