use clash_ico::account::AccountInfo;
use clash_ico::address::Address;
use clash_ico::config::Config;
use clash_ico::error::{ICOError, ProgramError};
use clash_ico::ledger::{AccountMeta, Effect, Instruction};
use clash_ico::processor::Processor;
use clash_ico::state::ICOProgramData;
use solana_program::program_option::COption;
use solana_program::program_pack::Pack;
use solana_program::pubkey::Pubkey;
use spl_token::state::{Account as SplAccount, AccountState, Mint as SplMint};

const RENT: u64 = 1_336_320;

fn key(fill: u8) -> Address {
    Address::new([fill; 32])
}

fn of(pubkey: Pubkey) -> Address {
    Address::new(pubkey.to_bytes())
}

fn pk(address: &Address) -> Pubkey {
    Pubkey::from(address.bytes)
}

fn cfg() -> Config {
    Config {
        clash_token_id: key(10),
        clash_sol_wallet: key(11),
        clash_payment_authority: key(12),
        program_pda_seed1: b"clash".to_vec(),
        program_pda_seed2: b"ico".to_vec(),
    }
}

fn program() -> Address {
    key(20)
}

fn derived() -> (Address, u8) {
    let (address, bump) = Pubkey::find_program_address(&[b"clash", b"ico"], &pk(&program()));
    (of(address), bump)
}

fn token_data(mint: &Address, owner: &Address, amount: u64) -> Vec<u8> {
    let account = SplAccount {
        mint: pk(mint),
        owner: pk(owner),
        amount,
        delegate: COption::None,
        state: AccountState::Initialized,
        is_native: COption::None,
        delegated_amount: 0,
        close_authority: COption::None,
    };
    let mut data = vec![0u8; SplAccount::LEN];
    SplAccount::pack(account, &mut data).unwrap();
    data
}

fn mint_data(authority: Option<&Address>, decimals: u8) -> Vec<u8> {
    let mint = SplMint {
        mint_authority: match authority {
            Some(a) => COption::Some(pk(a)),
            None => COption::None,
        },
        supply: 1_000,
        decimals,
        is_initialized: true,
        freeze_authority: COption::None,
    };
    let mut data = vec![0u8; SplMint::LEN];
    SplMint::pack(mint, &mut data).unwrap();
    data
}

fn account(key: Address, is_signer: bool, is_writable: bool, lamports: u64, data: Vec<u8>) -> AccountInfo {
    AccountInfo { key, is_signer, is_writable, lamports, data }
}

fn converted(ix: solana_program::instruction::Instruction) -> Instruction {
    Instruction {
        program_id: of(ix.program_id),
        accounts: ix
            .accounts
            .iter()
            .map(|m| AccountMeta {
                pubkey: of(m.pubkey),
                is_signer: m.is_signer,
                is_writable: m.is_writable,
            })
            .collect(),
        data: ix.data,
    }
}

/// Initializer, its token account, the mint, the record account, the custody
/// account, and the four service accounts.
fn accounts() -> Vec<AccountInfo> {
    let initializer = key(1);
    let token = cfg().clash_token_id;
    let (record, _) = derived();
    let custody =
        of(spl_associated_token_account::get_associated_token_address(&pk(&record), &pk(&token)));
    vec![
        account(initializer, true, true, 10_000_000_000, vec![]),
        account(key(2), false, true, 2_039_280, token_data(&token, &initializer, 0)),
        account(token, false, true, 1_461_600, mint_data(Some(&initializer), 9)),
        account(record, false, true, 0, vec![]),
        account(custody, false, true, 0, vec![]),
        account(of(solana_program::system_program::id()), false, false, 1, vec![]),
        account(of(spl_token::id()), false, false, 1, vec![]),
        account(of(spl_associated_token_account::id()), false, false, 1, vec![]),
        account(of(solana_program::sysvar::rent::id()), false, false, 1, vec![]),
    ]
}

fn decide(accounts: &[AccountInfo]) -> Result<Vec<Effect>, ProgramError> {
    Processor::initialize_ico_with_rent(&cfg(), &program(), accounts, Some(RENT))
}

fn custom(reason: ICOError) -> ProgramError {
    ProgramError::Custom(reason.code())
}

#[test]
fn initialize_plans_record_custody_and_write() {
    let a = accounts();
    let plan = decide(&a).unwrap();
    assert_eq!(plan.len(), 3);
    let create = solana_program::system_instruction::create_account(
        &pk(&a[0].key),
        &pk(&a[3].key),
        RENT,
        64,
        &pk(&program()),
    );
    assert_eq!(
        plan[0],
        Effect::Invoke {
            instruction: converted(create),
            accounts: vec![0, 3, 5],
            signer_bump: Some(derived().1),
        }
    );
    #[allow(deprecated)]
    let custody = spl_associated_token_account::create_associated_token_account(
        &pk(&a[0].key),
        &pk(&a[3].key),
        &pk(&a[2].key),
    );
    assert_eq!(
        plan[1],
        Effect::Invoke {
            instruction: converted(custody),
            accounts: vec![0, 3, 4, 2, 5, 6, 7, 8],
            signer_bump: None,
        }
    );
    assert_eq!(
        plan[2],
        Effect::WriteRecord {
            account: 3,
            record: ICOProgramData { initializer: a[0].key, initializer_ata: a[1].key },
        }
    );
}

#[test]
fn initialize_creates_the_record_account_for_the_program() {
    let a = accounts();
    let plan = decide(&a).unwrap();
    match &plan[0] {
        Effect::Invoke { instruction, .. } => {
            assert_eq!(instruction.program_id, of(solana_program::system_program::id()));
            assert_eq!(instruction.accounts.len(), 2);
            assert_eq!(instruction.accounts[0].pubkey, a[0].key);
            assert_eq!(instruction.accounts[1].pubkey, a[3].key);
            assert_eq!(&instruction.data[4..12], &RENT.to_le_bytes());
            assert_eq!(&instruction.data[12..20], &64u64.to_le_bytes());
            assert_eq!(&instruction.data[20..52], &program().bytes);
        }
        other => panic!("unexpected step {:?}", other),
    }
}

#[test]
fn initialize_keeps_an_existing_custody_account() {
    let mut a = accounts();
    a[4].lamports = 2_039_280;
    a[4].data = token_data(&cfg().clash_token_id, &a[3].key.clone(), 0);
    let plan = decide(&a).unwrap();
    assert_eq!(plan.len(), 2);
    assert!(matches!(plan[0], Effect::Invoke { signer_bump: Some(_), .. }));
    assert!(matches!(plan[1], Effect::WriteRecord { account: 3, .. }));
}

#[test]
fn initialize_passes_the_rent_on() {
    let a = accounts();
    for rent in [0u64, 1, RENT, u64::MAX] {
        let plan =
            Processor::initialize_ico_with_rent(&cfg(), &program(), &a, Some(rent)).unwrap();
        match &plan[0] {
            Effect::Invoke { instruction, .. } => {
                assert_eq!(&instruction.data[4..12], &rent.to_le_bytes());
            }
            other => panic!("unexpected step {:?}", other),
        }
    }
}

#[test]
fn initialize_needs_nine_accounts() {
    let a = accounts();
    for len in 0..9 {
        assert_eq!(decide(&a[..len]), Err(ProgramError::NotEnoughAccountKeys));
    }
}

#[test]
fn initialize_needs_the_initializers_signature() {
    let mut a = accounts();
    a[0].is_signer = false;
    assert_eq!(decide(&a), Err(ProgramError::MissingRequiredSignature));
}

#[test]
fn initialize_needs_a_funded_initializer() {
    let mut a = accounts();
    a[0].lamports = 0;
    assert_eq!(decide(&a), Err(ProgramError::UninitializedAccount));
}

#[test]
fn initialize_needs_a_funded_token_account() {
    let mut a = accounts();
    a[1].lamports = 0;
    assert_eq!(decide(&a), Err(ProgramError::UninitializedAccount));
}

#[test]
fn initialize_needs_a_writable_mint() {
    let mut a = accounts();
    a[2].is_writable = false;
    assert_eq!(decide(&a), Err(ProgramError::InvalidArgument));
}

#[test]
fn initialize_needs_a_writable_record_account() {
    let mut a = accounts();
    a[3].is_writable = false;
    assert_eq!(decide(&a), Err(ProgramError::InvalidArgument));
}

#[test]
fn initialize_needs_a_writable_custody_account() {
    let mut a = accounts();
    a[4].is_writable = false;
    assert_eq!(decide(&a), Err(ProgramError::InvalidArgument));
}

#[test]
fn initialize_rejects_data_that_is_no_token_account() {
    let mut a = accounts();
    a[1].data = vec![0u8; 10];
    assert_eq!(decide(&a), Err(ProgramError::InvalidAccountData));
}

#[test]
fn initialize_rejects_a_token_account_of_another_owner() {
    let mut a = accounts();
    a[1].data = token_data(&cfg().clash_token_id, &key(99), 0);
    assert_eq!(decide(&a), Err(custom(ICOError::InvalidInitializerATAAddress)));
    assert_eq!(decide(&a), Err(ProgramError::Custom(6)));
}

#[test]
fn initialize_rejects_a_token_account_of_another_mint() {
    let mut a = accounts();
    a[1].data = token_data(&key(98), &a[0].key.clone(), 0);
    assert_eq!(decide(&a), Err(custom(ICOError::InvalidInitializerATAAddress)));
}

#[test]
fn initialize_rejects_another_record_address() {
    let mut a = accounts();
    a[3].key = key(77);
    assert_eq!(decide(&a), Err(custom(ICOError::InvalidAddressProgramPDA)));
    assert_eq!(decide(&a), Err(ProgramError::Custom(3)));
}

#[test]
fn initialize_rejects_the_address_derived_for_another_program() {
    let a = accounts();
    assert_eq!(
        Processor::initialize_ico_with_rent(&cfg(), &key(21), &a, Some(RENT)),
        Err(custom(ICOError::InvalidAddressProgramPDA))
    );
}

#[test]
fn initialize_rejects_an_open_sale() {
    let mut a = accounts();
    a[3].lamports = RENT;
    a[3].data = ICOProgramData { initializer: key(1), initializer_ata: key(2) }.to_bytes();
    assert_eq!(decide(&a), Err(custom(ICOError::AlreadyCreatedPDAAccount)));
    assert_eq!(decide(&a), Err(ProgramError::Custom(4)));
}

#[test]
fn initialize_rejects_an_open_sale_whatever_the_rent() {
    let mut a = accounts();
    a[3].lamports = 1;
    a[3].data = vec![0u8; 64];
    for rent in [None, Some(0), Some(RENT)] {
        assert_eq!(
            Processor::initialize_ico_with_rent(&cfg(), &program(), &a, rent),
            Err(custom(ICOError::AlreadyCreatedPDAAccount))
        );
    }
}

#[test]
fn initialize_rejects_a_funded_record_account_that_holds_no_record() {
    let mut a = accounts();
    a[3].lamports = RENT;
    a[3].data = vec![0u8; 63];
    assert_eq!(decide(&a), Err(ProgramError::BorshIoError));
}

#[test]
fn initialize_rejects_data_that_is_no_mint() {
    let mut a = accounts();
    a[2].data = vec![0u8; 5];
    assert_eq!(decide(&a), Err(ProgramError::InvalidAccountData));
}

#[test]
fn initialize_needs_the_mint_authority() {
    let mut a = accounts();
    a[2].data = mint_data(Some(&key(50)), 9);
    assert_eq!(decide(&a), Err(custom(ICOError::InitializerNotMintAuthority)));
    assert_eq!(decide(&a), Err(ProgramError::Custom(5)));
    a[2].data = mint_data(None, 9);
    assert_eq!(decide(&a), Err(custom(ICOError::InitializerNotMintAuthority)));
}

#[test]
fn initialize_needs_the_rent() {
    let a = accounts();
    assert_eq!(
        Processor::initialize_ico_with_rent(&cfg(), &program(), &a, None),
        Err(ProgramError::UnsupportedSysvar)
    );
}

#[test]
fn initialize_reports_the_first_failure() {
    let mut a = accounts();
    a[3].key = key(77);
    a[2].data = mint_data(None, 9);
    a[1].data = token_data(&cfg().clash_token_id, &key(99), 0);
    assert_eq!(decide(&a), Err(custom(ICOError::InvalidInitializerATAAddress)));
    a[4].is_writable = false;
    assert_eq!(decide(&a), Err(ProgramError::InvalidArgument));
    a[0].is_signer = false;
    assert_eq!(decide(&a), Err(ProgramError::MissingRequiredSignature));
}

#[test]
fn initialize_without_a_ledger_stops_at_the_rent() {
    let a = accounts();
    assert_eq!(
        Processor::initialize_ico(&cfg(), &program(), &a),
        Err(ProgramError::UnsupportedSysvar)
    );
}

#[test]
fn initialize_without_a_ledger_still_reports_earlier_failures() {
    let mut a = accounts();
    a[3].lamports = RENT;
    a[3].data = vec![0u8; 64];
    assert_eq!(
        Processor::initialize_ico(&cfg(), &program(), &a),
        Err(custom(ICOError::AlreadyCreatedPDAAccount))
    );
    let mut a = accounts();
    a[0].is_signer = false;
    assert_eq!(
        Processor::initialize_ico(&cfg(), &program(), &a),
        Err(ProgramError::MissingRequiredSignature)
    );
}

#[test]
fn initialize_twice_fails_the_second_time() {
    let mut a = accounts();
    let plan = decide(&a).unwrap();
    let record = match &plan[2] {
        Effect::WriteRecord { record, .. } => *record,
        other => panic!("unexpected step {:?}", other),
    };
    a[0].lamports -= RENT;
    a[3].lamports = RENT;
    a[3].data = vec![0u8; 64];
    record.store(&mut a[3].data).unwrap();
    let before = a.clone();
    assert_eq!(decide(&a), Err(custom(ICOError::AlreadyCreatedPDAAccount)));
    assert_eq!(a, before);
}
