use crate::account::{spec_mint, spec_token_account, AccountInfo, TokenAccount};
use crate::address::Address;
use crate::config::{Config, ExchangeQuote, OfferValue};
use crate::error::{ICOError, ProgramError};
use crate::ledger::{
    associated_token_account_creation, plan_view, spec_associated_token_address,
    spec_create_associated_token_account,
    spec_token_program_id, spec_transfer, spec_transfer_checked, transfer, transfer_checked, Effect, EffectView,
    InstructionView,
};
use crate::processor::{plan_matches, step_if, Processor};
use crate::state::ClashTokenExchangeData;
use crate::util::{spec_validate_account, validate_account};
use vstd::prelude::*;

verus! {

impl Processor {
    /// The structural demands on the accounts of an exchange: the payer
    /// signs, is writable and funded; its token account is writable; the
    /// treasury and the custody account are writable and funded; the mint is
    /// funded.
    pub open spec fn spec_exchange_structure(accounts: Seq<AccountInfo>) -> Result<
        (),
        ProgramError,
    > {
        let payer = spec_validate_account(accounts[0], true, true, true);
        let payer_token = spec_validate_account(accounts[1], false, true, false);
        let treasury = spec_validate_account(accounts[2], false, true, true);
        let custody = spec_validate_account(accounts[3], false, true, true);
        let mint = spec_validate_account(accounts[4], false, false, true);
        if accounts.len() < 11 {
            Err(ProgramError::NotEnoughAccountKeys)
        } else if payer.is_err() {
            payer
        } else if payer_token.is_err() {
            payer_token
        } else if treasury.is_err() {
            treasury
        } else if custody.is_err() {
            custody
        } else {
            mint
        }
    }

    /// The checks of an exchange that look at the accounts alone, in their
    /// order: structure, the program's own identity, the token, the two pairs
    /// that must differ, the treasury, the owner of the payer's token
    /// account where that exists, the derived address, and the owner of the
    /// custody account.
    pub open spec fn spec_exchange_accounts(
        cfg: Config,
        program_id: Seq<u8>,
        accounts: Seq<AccountInfo>,
    ) -> Result<(), ProgramError> {
        let structure = Self::spec_exchange_structure(accounts);
        let payer_token = spec_token_account(accounts[1].data@);
        let authority = cfg.spec_authority(program_id);
        let custody = spec_token_account(accounts[3].data@);
        if structure.is_err() {
            structure
        } else if accounts[5].key@ != program_id {
            Err(ProgramError::IncorrectProgramId)
        } else if accounts[4].key@ != cfg.clash_token_id@ {
            Err(ICOError::InvalidClashTokenId.spec_program_error())
        } else if accounts[0].key@ == accounts[2].key@ {
            Err(ICOError::CannotTransferSameAccount.spec_program_error())
        } else if accounts[3].key@ == accounts[1].key@ {
            Err(ICOError::CannotTransferSameAssociatedAccount.spec_program_error())
        } else if accounts[2].key@ != cfg.clash_sol_wallet@ {
            Err(ICOError::InvalidClashTokenDestinationWallet.spec_program_error())
        } else if accounts[1].lamports != 0 && payer_token.is_none() {
            Err(ProgramError::InvalidAccountData)
        } else if accounts[1].lamports != 0 && payer_token.unwrap().owner@ != accounts[0].key@ {
            Err(ICOError::InvalidSourceAssociatedAccountOwner.spec_program_error())
        } else if authority.is_none() {
            Err(ProgramError::InvalidSeeds)
        } else if accounts[6].key@ != authority.unwrap().0 {
            Err(ICOError::InvalidAddressProgramPDA.spec_program_error())
        } else if custody.is_none() {
            Err(ProgramError::InvalidAccountData)
        } else if custody.unwrap().owner@ != authority.unwrap().0 {
            Err(ICOError::InvalidProgramAssociatedPDAOwner.spec_program_error())
        } else {
            Ok(())
        }
    }

    /// The token transfer of an exchange: from custody to the payer's token
    /// account, in the name of the derived address.
    pub open spec fn spec_exchange_token_transfer(
        accounts: Seq<AccountInfo>,
        quote: ExchangeQuote,
    ) -> Option<InstructionView> {
        spec_transfer_checked(
            accounts[8].key@,
            accounts[3].key@,
            accounts[4].key@,
            accounts[1].key@,
            accounts[6].key@,
            quote.clash_amount,
            spec_mint(accounts[4].data@).unwrap().decimals,
        )
    }

    /// What an accepted exchange does: it creates the payer's token account
    /// where that holds no lamports, moves the offered lamports from the
    /// payer to the treasury, and moves the quoted tokens from custody to
    /// the payer.
    pub open spec fn spec_exchange_plan(
        cfg: Config,
        program_id: Seq<u8>,
        accounts: Seq<AccountInfo>,
        data: ClashTokenExchangeData,
        quote: ExchangeQuote,
    ) -> Seq<EffectView> {
        step_if(
            accounts[1].lamports == 0,
            EffectView::Invoke {
                instruction: spec_create_associated_token_account(
                    accounts[0].key@,
                    accounts[0].key@,
                    accounts[4].key@,
                ),
                accounts: seq![0usize, 1usize, 4usize, 7usize, 9usize, 10usize],
                signer_bump: None,
            },
        ) + seq![
            EffectView::Invoke {
                instruction: spec_transfer(
                    accounts[0].key@,
                    accounts[2].key@,
                    data.sol_as_lamports_amount,
                ),
                accounts: seq![0usize, 2usize, 7usize],
                signer_bump: None,
            },
            EffectView::Invoke {
                instruction: Self::spec_exchange_token_transfer(accounts, quote).unwrap(),
                accounts: seq![0usize, 3usize, 2usize, 1usize, 4usize, 8usize, 6usize],
                signer_bump: Some(cfg.spec_authority(program_id).unwrap().1),
            },
        ]
    }

    /// The checks of an exchange that look at the offer, once the accounts
    /// have passed: the bounds on its value, the mint, the quantity, the
    /// payer's balance, which must exceed the offer, the custody balance,
    /// the address of the payer's token account where that is to be created,
    /// and the token program.
    pub open spec fn spec_exchange_offer(
        accounts: Seq<AccountInfo>,
        data: ClashTokenExchangeData,
        quote: ExchangeQuote,
    ) -> Result<(), ProgramError> {
        if quote.value == OfferValue::BelowMinimum {
            Err(ICOError::InvalidOfferTooFew.spec_program_error())
        } else if quote.value == OfferValue::AboveMaximum {
            Err(ICOError::InvalidOfferTooMuch.spec_program_error())
        } else if spec_mint(accounts[4].data@).is_none() {
            Err(ProgramError::InvalidAccountData)
        } else if quote.clash_amount == 0 {
            Err(ICOError::InvalidClashTokenAmount.spec_program_error())
        } else if accounts[0].lamports <= data.sol_as_lamports_amount {
            Err(ProgramError::InsufficientFunds)
        } else if spec_token_account(accounts[3].data@).unwrap().amount < quote.clash_amount {
            Err(ICOError::InsuficientClashToken.spec_program_error())
        } else if accounts[1].lamports == 0 && spec_associated_token_address(
            accounts[0].key@,
            accounts[4].key@,
        ).is_none() {
            Err(ProgramError::InvalidSeeds)
        } else if accounts[8].key@ != spec_token_program_id() {
            Err(ProgramError::IncorrectProgramId)
        } else {
            Ok(())
        }
    }

    /// The answer to an offer of lamports for tokens, priced by `quote`.
    pub open spec fn spec_exchange_clash_token(
        cfg: Config,
        program_id: Seq<u8>,
        accounts: Seq<AccountInfo>,
        data: ClashTokenExchangeData,
        quote: ExchangeQuote,
    ) -> Result<Seq<EffectView>, ProgramError> {
        let checked = Self::spec_exchange_accounts(cfg, program_id, accounts);
        let offer = Self::spec_exchange_offer(accounts, data, quote);
        if checked.is_err() {
            Err(checked.unwrap_err())
        } else if offer.is_err() {
            Err(offer.unwrap_err())
        } else {
            Ok(Self::spec_exchange_plan(cfg, program_id, accounts, data, quote))
        }
    }

    /// Checks the structure of the accounts of an exchange.
    fn exchange_structure(accounts: &[AccountInfo]) -> (r: Result<(), ProgramError>)
        ensures
            r == Self::spec_exchange_structure(accounts@),
    {
        if accounts.len() < 11 {
            return Err(ProgramError::NotEnoughAccountKeys);
        }
        validate_account(&accounts[0], true, true, true)?;
        validate_account(&accounts[1], false, true, false)?;
        validate_account(&accounts[2], false, true, true)?;
        validate_account(&accounts[3], false, true, true)?;
        validate_account(&accounts[4], false, false, true)
    }

    /// Runs the checks of an exchange that look at the accounts alone, and
    /// gives the derived address's bump and the custody account.
    fn exchange_accounts(cfg: &Config, program_id: &Address, accounts: &[AccountInfo]) -> (r:
        Result<(u8, TokenAccount), ProgramError>)
        ensures
            match r {
                Ok(found) => Self::spec_exchange_accounts(*cfg, program_id@, accounts@).is_ok()
                    && found.0 == cfg.spec_authority(program_id@).unwrap().1 && Some(found.1)
                    == spec_token_account(accounts@[3].data@),
                Err(e) => Self::spec_exchange_accounts(*cfg, program_id@, accounts@) == Err::<
                    (),
                    ProgramError,
                >(e),
            },
    {
        Self::exchange_structure(accounts)?;
        if !accounts[5].key.same(program_id) {
            return Err(ProgramError::IncorrectProgramId);
        }
        if !accounts[4].key.same(&cfg.clash_token_id) {
            return Err(ICOError::InvalidClashTokenId.to_program_error());
        }
        if accounts[0].key.same(&accounts[2].key) {
            return Err(ICOError::CannotTransferSameAccount.to_program_error());
        }
        if accounts[3].key.same(&accounts[1].key) {
            return Err(ICOError::CannotTransferSameAssociatedAccount.to_program_error());
        }
        if !accounts[2].key.same(&cfg.clash_sol_wallet) {
            return Err(ICOError::InvalidClashTokenDestinationWallet.to_program_error());
        }
        if accounts[1].lamports != 0 {
            let payer_token = match accounts[1].token_account() {
                Some(account) => account,
                None => { return Err(ProgramError::InvalidAccountData); },
            };
            if !payer_token.owner.same(&accounts[0].key) {
                return Err(ICOError::InvalidSourceAssociatedAccountOwner.to_program_error());
            }
        }
        let authority = match cfg.derive_authority(program_id) {
            Some(authority) => authority,
            None => { return Err(ProgramError::InvalidSeeds); },
        };
        if !accounts[6].key.same(&authority.address) {
            return Err(ICOError::InvalidAddressProgramPDA.to_program_error());
        }
        let custody = match accounts[3].token_account() {
            Some(account) => account,
            None => { return Err(ProgramError::InvalidAccountData); },
        };
        if !custody.owner.same(&authority.address) {
            return Err(ICOError::InvalidProgramAssociatedPDAOwner.to_program_error());
        }
        Ok((authority.bump, custody))
    }

    /// Decides an offer of lamports for tokens. `quote` is the pricing of
    /// the offered amount at the mint's decimals. The answer is the first
    /// failure in the order of the checks, or the plan of the exchange.
    pub fn exchange_clash_token(
        cfg: &Config,
        program_id: &Address,
        accounts: &[AccountInfo],
        data: &ClashTokenExchangeData,
        quote: &ExchangeQuote,
    ) -> (r: Result<Vec<Effect>, ProgramError>)
        ensures
            plan_matches(
                r,
                Self::spec_exchange_clash_token(*cfg, program_id@, accounts@, *data, *quote),
            ),
    {
        let (bump, custody) = Self::exchange_accounts(cfg, program_id, accounts)?;
        let lamports_amount: u64 = data.sol_as_lamports_amount;
        match quote.value {
            OfferValue::BelowMinimum => {
                return Err(ICOError::InvalidOfferTooFew.to_program_error());
            },
            OfferValue::AboveMaximum => {
                return Err(ICOError::InvalidOfferTooMuch.to_program_error());
            },
            OfferValue::WithinBounds => {},
        }
        let mint = match accounts[4].mint() {
            Some(mint) => mint,
            None => { return Err(ProgramError::InvalidAccountData); },
        };
        let clash_amount: u64 = quote.clash_amount;
        if clash_amount == 0 {
            return Err(ICOError::InvalidClashTokenAmount.to_program_error());
        }
        if accounts[0].lamports <= lamports_amount {
            return Err(ProgramError::InsufficientFunds);
        }
        if custody.amount < clash_amount {
            return Err(ICOError::InsuficientClashToken.to_program_error());
        }
        let creation = if accounts[1].lamports == 0 {
            match associated_token_account_creation(
                &accounts[0].key,
                &accounts[0].key,
                &accounts[4].key,
            ) {
                Some(instruction) => Some(instruction),
                None => { return Err(ProgramError::InvalidSeeds); },
            }
        } else {
            None
        };
        let token_transfer = match transfer_checked(
            &accounts[8].key,
            &accounts[3].key,
            &accounts[4].key,
            &accounts[1].key,
            &accounts[6].key,
            clash_amount,
            mint.decimals,
        ) {
            Some(instruction) => instruction,
            None => { return Err(ProgramError::IncorrectProgramId); },
        };
        let mut plan: Vec<Effect> = Vec::new();
        if let Some(instruction) = creation {
            plan.push(
                Effect::Invoke {
                    instruction,
                    accounts: vec![0usize, 1usize, 4usize, 7usize, 9usize, 10usize],
                    signer_bump: None,
                },
            );
        }
        plan.push(
            Effect::Invoke {
                instruction: transfer(&accounts[0].key, &accounts[2].key, lamports_amount),
                accounts: vec![0usize, 2usize, 7usize],
                signer_bump: None,
            },
        );
        plan.push(
            Effect::Invoke {
                instruction: token_transfer,
                accounts: vec![0usize, 3usize, 2usize, 1usize, 4usize, 8usize, 6usize],
                signer_bump: Some(bump),
            },
        );
        proof {
            assert(plan_view(plan@) =~= Self::spec_exchange_plan(
                *cfg,
                program_id@,
                accounts@,
                *data,
                *quote,
            ));
        }
        Ok(plan)
    }
}

} // verus!
