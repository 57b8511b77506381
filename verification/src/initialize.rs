use crate::account::{spec_mint, spec_token_account, AccountInfo};
use crate::address::Address;
use crate::config::Config;
use crate::error::{ICOError, ProgramError};
use crate::ledger::{
    associated_token_account_creation, create_account, plan_view, rent_minimum_balance,
    rent_sysvar, spec_associated_token_address, spec_create_account,
    spec_create_associated_token_account, spec_minimum_balance, Effect, EffectView,
};
use crate::processor::{plan_matches, step_if, Processor};
use crate::state::{ICOProgramData, SALE_RECORD_LEN};
use crate::util::{
    spec_validate_account, spec_validate_token_account, validate_account, validate_token_account,
};
use solana_program::rent::Rent;
use vstd::float::FloatBitsProperties;
use vstd::prelude::*;

verus! {

/// The highest rent rate, in lamports per byte and year, at which the
/// rent-exempt balance of a record account is still computed: the record's
/// 64 bytes and the 128 that the ledger adds, at this rate, fit in 64 bits.
pub const RECORD_RENT_RATE_LIMIT: u64 = 96_076_792_050_570_581;

impl Processor {
    /// The structural demands on the accounts that open a sale: the
    /// initializer signs and is funded, its token account is funded, the mint
    /// is writable and funded, the record account and the custody account are
    /// writable.
    pub open spec fn spec_initialize_structure(accounts: Seq<AccountInfo>) -> Result<
        (),
        ProgramError,
    > {
        let initializer = spec_validate_account(accounts[0], true, false, true);
        let initializer_token = spec_validate_account(accounts[1], false, false, true);
        let mint = spec_validate_account(accounts[2], false, true, true);
        let record = spec_validate_account(accounts[3], false, true, false);
        let custody = spec_validate_account(accounts[4], false, true, false);
        if accounts.len() < 9 {
            Err(ProgramError::NotEnoughAccountKeys)
        } else if initializer.is_err() {
            initializer
        } else if initializer_token.is_err() {
            initializer_token
        } else if mint.is_err() {
            mint
        } else if record.is_err() {
            record
        } else {
            custody
        }
    }

    /// The checks that come before the record account is looked into: the
    /// structure, the initializer's token account, and the record account's
    /// address.
    pub open spec fn spec_initialize_accounts(
        cfg: Config,
        program_id: Seq<u8>,
        accounts: Seq<AccountInfo>,
    ) -> Result<(), ProgramError> {
        let structure = Self::spec_initialize_structure(accounts);
        let token_account = spec_token_account(accounts[1].data@);
        let authority = cfg.spec_authority(program_id);
        if structure.is_err() {
            structure
        } else if token_account.is_none() {
            Err(ProgramError::InvalidAccountData)
        } else if spec_validate_token_account(
            token_account.unwrap(),
            accounts[0].key@,
            cfg.clash_token_id@,
        ).is_err() {
            Err(ICOError::InvalidInitializerATAAddress.spec_program_error())
        } else if authority.is_none() {
            Err(ProgramError::InvalidSeeds)
        } else if accounts[3].key@ != authority.unwrap().0 {
            Err(ICOError::InvalidAddressProgramPDA.spec_program_error())
        } else {
            Ok(())
        }
    }

    /// What opening a sale does once it is accepted: it creates the record
    /// account, rent-exempt and owned by the program, in the name of the
    /// derived address; it creates the custody account where that holds no
    /// lamports; and it writes the record.
    pub open spec fn spec_initialize_plan(
        cfg: Config,
        program_id: Seq<u8>,
        accounts: Seq<AccountInfo>,
        rent: u64,
    ) -> Seq<EffectView> {
        seq![
            EffectView::Invoke {
                instruction: spec_create_account(
                    accounts[0].key@,
                    accounts[3].key@,
                    rent,
                    SALE_RECORD_LEN as u64,
                    program_id,
                ),
                accounts: seq![0usize, 3usize, 5usize],
                signer_bump: Some(cfg.spec_authority(program_id).unwrap().1),
            },
        ] + step_if(
            accounts[4].lamports == 0,
            EffectView::Invoke {
                instruction: spec_create_associated_token_account(
                    accounts[0].key@,
                    accounts[3].key@,
                    accounts[2].key@,
                ),
                accounts: seq![0usize, 3usize, 4usize, 2usize, 5usize, 6usize, 7usize, 8usize],
                signer_bump: None,
            },
        ) + seq![
            EffectView::WriteRecord {
                account: 3usize,
                initializer: accounts[0].key@,
                initializer_ata: accounts[1].key@,
            },
        ]
    }

    /// The answer to a request to open a sale, given the rent-exempt balance
    /// of a record account as the ledger states it (`None`: the ledger gave
    /// none). On accounts that pass, an open sale is rejected first, then a
    /// mint that does not decode or that the initializer has no authority
    /// over, then missing rent, then a custody account that is to be created
    /// and has no address.
    pub open spec fn spec_initialize_ico(
        cfg: Config,
        program_id: Seq<u8>,
        accounts: Seq<AccountInfo>,
        rent: Option<u64>,
    ) -> Result<Seq<EffectView>, ProgramError> {
        let checked = Self::spec_initialize_accounts(cfg, program_id, accounts);
        let mint = spec_mint(accounts[2].data@);
        if checked.is_err() {
            Err(checked.unwrap_err())
        } else if accounts[3].lamports != 0 && !ICOProgramData::spec_decodes(accounts[3].data@) {
            Err(ProgramError::BorshIoError)
        } else if accounts[3].lamports != 0 {
            Err(ICOError::AlreadyCreatedPDAAccount.spec_program_error())
        } else if mint.is_none() {
            Err(ProgramError::InvalidAccountData)
        } else if !mint.unwrap().spec_has_authority(accounts[0].key@) {
            Err(ICOError::InitializerNotMintAuthority.spec_program_error())
        } else if rent.is_none() {
            Err(ProgramError::UnsupportedSysvar)
        } else if accounts[4].lamports == 0 && spec_associated_token_address(
            accounts[3].key@,
            accounts[2].key@,
        ).is_none() {
            Err(ProgramError::InvalidSeeds)
        } else {
            Ok(Self::spec_initialize_plan(cfg, program_id, accounts, rent.unwrap()))
        }
    }

    /// Checks the structure of the accounts that open a sale.
    fn initialize_structure(accounts: &[AccountInfo]) -> (r: Result<(), ProgramError>)
        ensures
            r == Self::spec_initialize_structure(accounts@),
    {
        if accounts.len() < 9 {
            return Err(ProgramError::NotEnoughAccountKeys);
        }
        validate_account(&accounts[0], true, false, true)?;
        validate_account(&accounts[1], false, false, true)?;
        validate_account(&accounts[2], false, true, true)?;
        validate_account(&accounts[3], false, true, false)?;
        validate_account(&accounts[4], false, true, false)
    }

    /// Runs the checks that come before the record account is looked into,
    /// and gives the derived address's bump.
    fn initialize_accounts(cfg: &Config, program_id: &Address, accounts: &[AccountInfo]) -> (r:
        Result<u8, ProgramError>)
        ensures
            match r {
                Ok(bump) => Self::spec_initialize_accounts(*cfg, program_id@, accounts@).is_ok()
                    && bump == cfg.spec_authority(program_id@).unwrap().1,
                Err(e) => Self::spec_initialize_accounts(*cfg, program_id@, accounts@) == Err::<
                    (),
                    ProgramError,
                >(e),
            },
    {
        Self::initialize_structure(accounts)?;
        let token_account = match accounts[1].token_account() {
            Some(account) => account,
            None => { return Err(ProgramError::InvalidAccountData); },
        };
        if validate_token_account(&token_account, &accounts[0].key, &cfg.clash_token_id).is_err() {
            return Err(ICOError::InvalidInitializerATAAddress.to_program_error());
        }
        let authority = match cfg.derive_authority(program_id) {
            Some(authority) => authority,
            None => { return Err(ProgramError::InvalidSeeds); },
        };
        if !accounts[3].key.same(&authority.address) {
            return Err(ICOError::InvalidAddressProgramPDA.to_program_error());
        }
        Ok(authority.bump)
    }

    /// Decides a request to open a sale, given the rent-exempt balance of a
    /// record account as the ledger states it. The answer is the first
    /// failure in the order of the checks, or the plan.
    pub fn initialize_ico_with_rent(
        cfg: &Config,
        program_id: &Address,
        accounts: &[AccountInfo],
        rent: Option<u64>,
    ) -> (r: Result<Vec<Effect>, ProgramError>)
        ensures
            plan_matches(r, Self::spec_initialize_ico(*cfg, program_id@, accounts@, rent)),
    {
        let bump = Self::initialize_accounts(cfg, program_id, accounts)?;
        if accounts[3].lamports != 0 {
            ICOProgramData::try_from_slice(accounts[3].data.as_slice())?;
            return Err(ICOError::AlreadyCreatedPDAAccount.to_program_error());
        }
        let mint = match accounts[2].mint() {
            Some(mint) => mint,
            None => { return Err(ProgramError::InvalidAccountData); },
        };
        if !mint.has_authority(&accounts[0].key) {
            return Err(ICOError::InitializerNotMintAuthority.to_program_error());
        }
        let lamports = match rent {
            Some(lamports) => lamports,
            None => { return Err(ProgramError::UnsupportedSysvar); },
        };
        let mut plan: Vec<Effect> = Vec::new();
        plan.push(
            Effect::Invoke {
                instruction: create_account(
                    &accounts[0].key,
                    &accounts[3].key,
                    lamports,
                    SALE_RECORD_LEN as u64,
                    program_id,
                ),
                accounts: vec![0usize, 3usize, 5usize],
                signer_bump: Some(bump),
            },
        );
        if accounts[4].lamports == 0 {
            let creation = match associated_token_account_creation(
                &accounts[0].key,
                &accounts[3].key,
                &accounts[2].key,
            ) {
                Some(instruction) => instruction,
                None => { return Err(ProgramError::InvalidSeeds); },
            };
            plan.push(
                Effect::Invoke {
                    instruction: creation,
                    accounts: vec![0usize, 3usize, 4usize, 2usize, 5usize, 6usize, 7usize, 8usize],
                    signer_bump: None,
                },
            );
        }
        plan.push(
            Effect::WriteRecord {
                account: 3usize,
                record: ICOProgramData {
                    initializer: accounts[0].key,
                    initializer_ata: accounts[1].key,
                },
            },
        );
        proof {
            assert(plan_view(plan@) =~= Self::spec_initialize_plan(
                *cfg,
                program_id@,
                accounts@,
                lamports,
            ));
        }
        Ok(plan)
    }

    /// Asks the ledger for the rent-exempt balance of a record account. There
    /// is none where the ledger does not answer, nor where its rate is so
    /// high that the balance cannot be computed in 64 bits.
    fn record_rent() -> (r: Option<u64>)
        ensures
            exists|parameters: Option<Rent>|
                r == #[trigger] Self::spec_record_rent(parameters),
    {
        match rent_sysvar() {
            Some(parameters) => {
                let rent = Self::record_rent_under(Some(parameters));
                proof {
                    assert(rent == Self::spec_record_rent(Some(parameters)));
                }
                rent
            },
            None => {
                proof {
                    assert(Self::spec_record_rent(None) == None::<u64>);
                }
                None
            },
        }
    }

    /// Decides a request to open a sale. The rent-exempt balance of the
    /// record account is asked of the ledger; the answer is the one that
    /// `initialize_ico_with_rent` gives for what the ledger said.
    pub fn initialize_ico(cfg: &Config, program_id: &Address, accounts: &[AccountInfo]) -> (r:
        Result<Vec<Effect>, ProgramError>)
        ensures
            exists|rent: Option<u64>|
                plan_matches(
                    r,
                    #[trigger] Self::spec_initialize_ico(*cfg, program_id@, accounts@, rent),
                ),
            Self::spec_initialize_ico(*cfg, program_id@, accounts@, None).is_err()
                && Self::spec_initialize_ico(*cfg, program_id@, accounts@, None)
                != Err::<Seq<EffectView>, ProgramError>(ProgramError::UnsupportedSysvar)
                ==> plan_matches(
                r,
                Self::spec_initialize_ico(*cfg, program_id@, accounts@, None),
            ),
    {
        let rent = Self::record_rent();
        Self::initialize_ico_with_rent(cfg, program_id, accounts, rent)
    }

    /// The rent-exempt balance of a record account under the ledger's answer
    /// to the question for its rent parameters: none where the ledger gave
    /// no parameters, none where their rate is above the limit, and else the
    /// balance that the parameters ask for the record's 64 bytes.
    pub open spec fn spec_record_rent(parameters: Option<Rent>) -> Option<u64> {
        match parameters {
            Some(rent) => if rent.lamports_per_byte_year <= RECORD_RENT_RATE_LIMIT {
                Some(
                    spec_minimum_balance(
                        rent.lamports_per_byte_year,
                        rent.exemption_threshold.to_bits_spec(),
                        SALE_RECORD_LEN,
                    ),
                )
            } else {
                None
            },
            None => None,
        }
    }

    /// Computes the rent-exempt balance of a record account from the
    /// ledger's answer to the question for its rent parameters.
    pub fn record_rent_under(parameters: Option<Rent>) -> (r: Option<u64>)
        ensures
            r == Self::spec_record_rent(parameters),
    {
        match parameters {
            Some(rent) => {
                if rent.lamports_per_byte_year <= RECORD_RENT_RATE_LIMIT {
                    assert((128 + SALE_RECORD_LEN) * rent.lamports_per_byte_year <= u64::MAX)
                        by (nonlinear_arith)
                        requires
                            SALE_RECORD_LEN == 64,
                            rent.lamports_per_byte_year <= 96_076_792_050_570_581u64,
                    ;
                    Some(rent_minimum_balance(&rent, SALE_RECORD_LEN))
                } else {
                    None
                }
            },
            None => None,
        }
    }
}

} // verus!
