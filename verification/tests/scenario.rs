use clash_ico::account::AccountInfo;
use clash_ico::address::Address;
use clash_ico::config::{Config, ExchangeQuote, OfferValue};
use clash_ico::error::{ICOError, ProgramError};
use clash_ico::instruction::ProgramInstruction;
use clash_ico::ledger::{Effect, Instruction};
use clash_ico::processor::Processor;
use clash_ico::state::{ClashTokenExchangeData, ClashTokenPaymentData, ICOProgramData};
use solana_program::program_option::COption;
use solana_program::program_pack::Pack;
use solana_program::pubkey::Pubkey;
use spl_token::instruction::TokenInstruction;
use spl_token::state::{Account as SplAccount, AccountState, Mint as SplMint};

const SOL: u64 = 1_000_000_000;
const RENT: u64 = 1_336_320;
const TOKEN_RENT: u64 = 2_039_280;
const SOL_USD: f64 = 100.0;
const CLASH_USD: f64 = 0.05;
const MIN_USD_PRICE: f64 = 10.0;
const MAX_USD_PRICE: f64 = 10_000.0;

fn key(fill: u8) -> Address {
    Address::new([fill; 32])
}

fn of(pubkey: Pubkey) -> Address {
    Address::new(pubkey.to_bytes())
}

fn pk(address: &Address) -> Pubkey {
    Pubkey::from(address.bytes)
}

fn cfg() -> Config {
    Config {
        clash_token_id: key(10),
        clash_sol_wallet: key(11),
        clash_payment_authority: key(12),
        program_pda_seed1: b"clash".to_vec(),
        program_pda_seed2: b"ico".to_vec(),
    }
}

fn program() -> Address {
    key(20)
}

fn derived() -> Address {
    of(Pubkey::find_program_address(&[b"clash", b"ico"], &pk(&program())).0)
}

fn associated(wallet: &Address) -> Address {
    of(spl_associated_token_account::get_associated_token_address(
        &pk(wallet),
        &pk(&cfg().clash_token_id),
    ))
}

fn priced(lamports: u64, decimals: u8) -> ExchangeQuote {
    let sol_amount = lamports as f64 / SOL as f64;
    let usd_amount = sol_amount * SOL_USD;
    let clash_amount = usd_amount / CLASH_USD;
    let value = if usd_amount < MIN_USD_PRICE {
        OfferValue::BelowMinimum
    } else if usd_amount > MAX_USD_PRICE {
        OfferValue::AboveMaximum
    } else {
        OfferValue::WithinBounds
    };
    let clash_amount = if decimals > 0 {
        (clash_amount * 10u32.pow(decimals as u32) as f64) as u64
    } else {
        clash_amount as u64
    };
    ExchangeQuote { value, clash_amount }
}

fn token_data(owner: &Address, amount: u64) -> Vec<u8> {
    let account = SplAccount {
        mint: pk(&cfg().clash_token_id),
        owner: pk(owner),
        amount,
        delegate: COption::None,
        state: AccountState::Initialized,
        is_native: COption::None,
        delegated_amount: 0,
        close_authority: COption::None,
    };
    let mut data = vec![0u8; SplAccount::LEN];
    SplAccount::pack(account, &mut data).unwrap();
    data
}

fn mint_data(authority: &Address, decimals: u8) -> Vec<u8> {
    let mint = SplMint {
        mint_authority: COption::Some(pk(authority)),
        supply: 0,
        decimals,
        is_initialized: true,
        freeze_authority: COption::None,
    };
    let mut data = vec![0u8; SplMint::LEN];
    SplMint::pack(mint, &mut data).unwrap();
    data
}

/// A ledger small enough to read: accounts by address, and the few calls
/// that the sale makes.
#[derive(Clone, Debug, PartialEq)]
struct Ledger {
    entries: Vec<(Address, u64, Vec<u8>)>,
}

impl Ledger {
    fn position(&mut self, key: &Address) -> usize {
        match self.entries.iter().position(|e| e.0 == *key) {
            Some(i) => i,
            None => {
                self.entries.push((*key, 0, vec![]));
                self.entries.len() - 1
            }
        }
    }

    fn lamports(&self, key: &Address) -> u64 {
        self.entries.iter().find(|e| e.0 == *key).map(|e| e.1).unwrap_or(0)
    }

    fn data(&self, key: &Address) -> Vec<u8> {
        self.entries.iter().find(|e| e.0 == *key).map(|e| e.2.clone()).unwrap_or_default()
    }

    fn tokens(&self, key: &Address) -> u64 {
        SplAccount::unpack_unchecked(&self.data(key)).unwrap().amount
    }

    fn put(&mut self, key: &Address, lamports: u64, data: Vec<u8>) {
        let i = self.position(key);
        self.entries[i].1 = lamports;
        self.entries[i].2 = data;
    }

    fn seen(&self, key: Address, is_signer: bool, is_writable: bool) -> AccountInfo {
        AccountInfo {
            key,
            is_signer,
            is_writable,
            lamports: self.lamports(&key),
            data: self.data(&key),
        }
    }

    fn move_lamports(&mut self, from: &Address, to: &Address, lamports: u64) {
        let f = self.position(from);
        assert!(self.entries[f].1 >= lamports);
        self.entries[f].1 -= lamports;
        let t = self.position(to);
        self.entries[t].1 += lamports;
    }

    fn set_tokens(&mut self, key: &Address, amount: u64) {
        let i = self.position(key);
        let mut account = SplAccount::unpack_unchecked(&self.entries[i].2).unwrap();
        account.amount = amount;
        SplAccount::pack(account, &mut self.entries[i].2).unwrap();
    }

    fn call(&mut self, ix: &Instruction, signer_bump: Option<u8>) {
        let authority = signer_bump.map(|bump| {
            of(Pubkey::create_program_address(&[b"clash", b"ico", &[bump]], &pk(&program()))
                .unwrap())
        });
        let at = |i: usize| ix.accounts[i].pubkey;
        if ix.program_id == of(solana_program::system_program::id()) {
            let tag = u32::from_le_bytes(ix.data[0..4].try_into().unwrap());
            let lamports = u64::from_le_bytes(ix.data[4..12].try_into().unwrap());
            if tag == 0 {
                let space = u64::from_le_bytes(ix.data[12..20].try_into().unwrap());
                assert_eq!(Some(at(1)), authority);
                assert_eq!(self.lamports(&at(1)), 0);
                assert_eq!(&ix.data[20..52], &program().bytes);
                self.move_lamports(&at(0), &at(1), lamports);
                let i = self.position(&at(1));
                self.entries[i].2 = vec![0u8; space as usize];
            } else {
                assert_eq!(tag, 2);
                self.move_lamports(&at(0), &at(1), lamports);
            }
        } else if ix.program_id == of(spl_token::id()) {
            match TokenInstruction::unpack(&ix.data).unwrap() {
                TokenInstruction::TransferChecked { amount, decimals } => {
                    let source = SplAccount::unpack_unchecked(&self.data(&at(0))).unwrap();
                    let mint = SplMint::unpack_unchecked(&self.data(&at(1))).unwrap();
                    assert_eq!(Some(of(source.owner)), authority);
                    assert_eq!(at(3), of(source.owner));
                    assert_eq!(mint.decimals, decimals);
                    assert!(source.amount >= amount);
                    let held = self.tokens(&at(2));
                    self.set_tokens(&at(0), source.amount - amount);
                    self.set_tokens(&at(2), held + amount);
                }
                TokenInstruction::CloseAccount => {
                    let closed = SplAccount::unpack_unchecked(&self.data(&at(0))).unwrap();
                    assert_eq!(Some(of(closed.owner)), authority);
                    assert_eq!(closed.amount, 0);
                    let lamports = self.lamports(&at(0));
                    self.move_lamports(&at(0), &at(1), lamports);
                }
                other => panic!("unexpected token instruction {:?}", other),
            }
        } else {
            assert_eq!(ix.program_id, of(spl_associated_token_account::id()));
            assert_eq!(at(1), associated(&at(2)));
            assert_eq!(at(3), cfg().clash_token_id);
            assert_eq!(self.lamports(&at(1)), 0);
            self.move_lamports(&at(0), &at(1), TOKEN_RENT);
            let i = self.position(&at(1));
            self.entries[i].2 = token_data(&at(2), 0);
        }
    }

    /// Takes the steps of a plan in order, then drops the accounts that hold
    /// no lamports.
    fn apply(&mut self, accounts: &[AccountInfo], plan: &[Effect]) {
        for step in plan {
            match step {
                Effect::Invoke { instruction, accounts: passed, signer_bump } => {
                    assert!(passed.iter().all(|i| *i < accounts.len()));
                    self.call(instruction, *signer_bump);
                }
                Effect::WriteRecord { account, record } => {
                    let i = self.position(&accounts[*account].key);
                    record.store(&mut self.entries[i].2).unwrap();
                }
                Effect::SweepLamports { from, to } => {
                    let lamports = self.lamports(&accounts[*from].key);
                    self.move_lamports(&accounts[*from].key, &accounts[*to].key, lamports);
                }
            }
        }
        self.entries.retain(|e| e.1 != 0);
    }

    fn total(&self) -> u64 {
        self.entries.iter().map(|e| e.1).sum()
    }
}

fn service(id: Pubkey) -> AccountInfo {
    AccountInfo { key: of(id), is_signer: false, is_writable: false, lamports: 1, data: vec![] }
}

fn start(initializer: &Address, initializer_token: &Address, decimals: u8) -> Ledger {
    let mut ledger = Ledger { entries: vec![] };
    ledger.put(initializer, 10 * SOL, vec![]);
    ledger.put(initializer_token, TOKEN_RENT, token_data(initializer, 0));
    ledger.put(&cfg().clash_token_id, 1_461_600, mint_data(initializer, decimals));
    ledger.put(&cfg().clash_sol_wallet, SOL, vec![]);
    ledger.put(&cfg().clash_payment_authority, SOL, vec![]);
    ledger
}

fn initialize_accounts(ledger: &Ledger, initializer: &Address, token: &Address) -> Vec<AccountInfo> {
    vec![
        ledger.seen(*initializer, true, true),
        ledger.seen(*token, false, true),
        ledger.seen(cfg().clash_token_id, false, true),
        ledger.seen(derived(), false, true),
        ledger.seen(associated(&derived()), false, true),
        service(solana_program::system_program::id()),
        service(spl_token::id()),
        service(spl_associated_token_account::id()),
        service(solana_program::sysvar::rent::id()),
    ]
}

fn exchange_accounts(ledger: &Ledger, payer: &Address) -> Vec<AccountInfo> {
    vec![
        ledger.seen(*payer, true, true),
        ledger.seen(associated(payer), false, true),
        ledger.seen(cfg().clash_sol_wallet, false, true),
        ledger.seen(associated(&derived()), false, true),
        ledger.seen(cfg().clash_token_id, false, false),
        ledger.seen(program(), false, false),
        ledger.seen(derived(), false, false),
        service(solana_program::system_program::id()),
        service(spl_token::id()),
        service(spl_associated_token_account::id()),
        service(solana_program::sysvar::rent::id()),
    ]
}

fn payment_accounts(ledger: &Ledger, payer: &Address) -> Vec<AccountInfo> {
    vec![
        ledger.seen(*payer, false, false),
        ledger.seen(associated(payer), false, true),
        ledger.seen(cfg().clash_token_id, false, false),
        ledger.seen(cfg().clash_payment_authority, true, false),
        ledger.seen(associated(&derived()), false, true),
        ledger.seen(program(), false, false),
        ledger.seen(derived(), false, false),
        service(solana_program::system_program::id()),
        service(spl_token::id()),
        service(spl_associated_token_account::id()),
        service(solana_program::sysvar::rent::id()),
    ]
}

fn terminate_accounts(ledger: &Ledger, initializer: &Address, token: &Address) -> Vec<AccountInfo> {
    vec![
        ledger.seen(*initializer, true, true),
        ledger.seen(*token, false, true),
        ledger.seen(cfg().clash_token_id, false, false),
        ledger.seen(derived(), false, true),
        ledger.seen(associated(&derived()), false, true),
        service(spl_token::id()),
    ]
}

fn run(
    ledger: &mut Ledger,
    accounts: &[AccountInfo],
    instruction: ProgramInstruction,
    quote: ExchangeQuote,
) -> Result<(), ProgramError> {
    let data = instruction.pack().unwrap();
    let plan =
        Processor::process_with_rent(&cfg(), &program(), accounts, &data, &quote, Some(RENT))?;
    ledger.apply(accounts, &plan);
    Ok(())
}

fn no_quote() -> ExchangeQuote {
    ExchangeQuote { value: OfferValue::BelowMinimum, clash_amount: 0 }
}

fn custom(reason: ICOError) -> ProgramError {
    ProgramError::Custom(reason.code())
}

#[test]
fn a_sale_from_opening_to_closing() {
    let (a, ta, payer) = (key(1), key(2), key(3));
    let custody = associated(&derived());
    let mut ledger = start(&a, &ta, 9);
    ledger.put(&program(), 1, vec![]);
    ledger.put(&payer, 5 * SOL, vec![]);
    ledger.put(&associated(&payer), TOKEN_RENT, token_data(&payer, 0));
    let total = ledger.total();

    // A opens the sale.
    let accounts = initialize_accounts(&ledger, &a, &ta);
    assert_eq!(run(&mut ledger, &accounts, ProgramInstruction::InitializeICO, no_quote()), Ok(()));
    let record = ICOProgramData::try_from_slice(&ledger.data(&derived())).unwrap();
    assert_eq!(record, ICOProgramData { initializer: a, initializer_ata: ta });
    assert_eq!(ledger.lamports(&derived()), RENT);
    assert_eq!(ledger.lamports(&custody), TOKEN_RENT);
    assert_eq!(ledger.lamports(&a), 10 * SOL - RENT - TOKEN_RENT);
    assert_eq!(ledger.tokens(&custody), 0);
    assert_eq!(ledger.total(), total);

    // A second opening is rejected and changes nothing.
    let before = ledger.clone();
    let accounts = initialize_accounts(&ledger, &a, &ta);
    assert_eq!(
        run(&mut ledger, &accounts, ProgramInstruction::InitializeICO, no_quote()),
        Err(custom(ICOError::AlreadyCreatedPDAAccount))
    );
    assert_eq!(ledger, before);

    // The mint authority stocks the custody account.
    ledger.set_tokens(&custody, 5_000_000_000_000);

    // A payer offers one SOL.
    let offered = SOL;
    let quote = priced(offered, 9);
    assert_eq!(quote, ExchangeQuote { value: OfferValue::WithinBounds, clash_amount: 2_000_000_000_000 });
    let accounts = exchange_accounts(&ledger, &payer);
    let exchange = ProgramInstruction::ExchangeClashToken {
        data: ClashTokenExchangeData { sol_as_lamports_amount: offered },
    };
    assert_eq!(run(&mut ledger, &accounts, exchange, quote), Ok(()));
    assert_eq!(ledger.lamports(&payer), 5 * SOL - offered);
    assert_eq!(ledger.lamports(&cfg().clash_sol_wallet), SOL + offered);
    assert_eq!(ledger.tokens(&associated(&payer)), 2_000_000_000_000);
    assert_eq!(ledger.tokens(&custody), 3_000_000_000_000);
    assert_eq!(ledger.total(), total);

    // A stranger cannot close the sale.
    let stranger = key(4);
    ledger.put(&stranger, SOL, vec![]);
    let before = ledger.clone();
    let accounts = terminate_accounts(&ledger, &stranger, &ta);
    assert_eq!(
        run(&mut ledger, &accounts, ProgramInstruction::TerminateICO, no_quote()),
        Err(custom(ICOError::InitializerAccountMismatch))
    );
    assert_eq!(ledger, before);
    let total = ledger.total();

    // A closes the sale.
    let held = ledger.lamports(&a);
    let accounts = terminate_accounts(&ledger, &a, &ta);
    assert_eq!(run(&mut ledger, &accounts, ProgramInstruction::TerminateICO, no_quote()), Ok(()));
    assert_eq!(ledger.tokens(&ta), 3_000_000_000_000);
    assert_eq!(ledger.lamports(&custody), 0);
    assert_eq!(ledger.lamports(&derived()), 0);
    assert_eq!(ledger.data(&derived()), Vec::<u8>::new());
    assert_eq!(ledger.lamports(&a), held + RENT + TOKEN_RENT);
    assert_eq!(ledger.total(), total);

    // Nothing is left to close.
    let accounts = terminate_accounts(&ledger, &a, &ta);
    assert_eq!(
        run(&mut ledger, &accounts, ProgramInstruction::TerminateICO, no_quote()),
        Err(custom(ICOError::InvalidTerminateUninitializedICO))
    );

    // A new sale can be opened.
    let accounts = initialize_accounts(&ledger, &a, &ta);
    assert_eq!(run(&mut ledger, &accounts, ProgramInstruction::InitializeICO, no_quote()), Ok(()));
    assert_eq!(ledger.lamports(&derived()), RENT);
    assert_eq!(ledger.tokens(&custody), 0);
}

#[test]
fn an_exchange_opens_the_payers_token_account() {
    let (a, ta, payer) = (key(1), key(2), key(3));
    let custody = associated(&derived());
    let mut ledger = start(&a, &ta, 6);
    ledger.put(&program(), 1, vec![]);
    ledger.put(&payer, 5 * SOL, vec![]);
    let accounts = initialize_accounts(&ledger, &a, &ta);
    run(&mut ledger, &accounts, ProgramInstruction::InitializeICO, no_quote()).unwrap();
    ledger.set_tokens(&custody, 1_000_000_000);

    let offered = SOL / 4;
    let quote = priced(offered, 6);
    assert_eq!(quote.clash_amount, 500_000_000);
    let accounts = exchange_accounts(&ledger, &payer);
    assert_eq!(accounts[1].lamports, 0);
    let exchange = ProgramInstruction::ExchangeClashToken {
        data: ClashTokenExchangeData { sol_as_lamports_amount: offered },
    };
    assert_eq!(run(&mut ledger, &accounts, exchange, quote), Ok(()));
    assert_eq!(ledger.lamports(&associated(&payer)), TOKEN_RENT);
    assert_eq!(ledger.tokens(&associated(&payer)), 500_000_000);
    assert_eq!(ledger.tokens(&custody), 500_000_000);
    assert_eq!(ledger.lamports(&payer), 5 * SOL - offered - TOKEN_RENT);
    assert_eq!(ledger.lamports(&cfg().clash_sol_wallet), SOL + offered);
}

#[test]
fn a_confirmed_payment_credits_tokens_without_lamports() {
    let (a, ta, payer) = (key(1), key(2), key(3));
    let custody = associated(&derived());
    let mut ledger = start(&a, &ta, 9);
    ledger.put(&program(), 1, vec![]);
    ledger.put(&payer, SOL, vec![]);
    ledger.put(&associated(&payer), TOKEN_RENT, token_data(&payer, 40));
    let accounts = initialize_accounts(&ledger, &a, &ta);
    run(&mut ledger, &accounts, ProgramInstruction::InitializeICO, no_quote()).unwrap();
    ledger.set_tokens(&custody, 1_000);

    let lamports: Vec<u64> = ledger.entries.iter().map(|e| e.1).collect();
    let accounts = payment_accounts(&ledger, &payer);
    let payment = ProgramInstruction::ExecuteClashPayment {
        data: ClashTokenPaymentData { clash_token_amount: 600 },
    };
    assert_eq!(run(&mut ledger, &accounts, payment, no_quote()), Ok(()));
    assert_eq!(ledger.tokens(&associated(&payer)), 640);
    assert_eq!(ledger.tokens(&custody), 400);
    assert_eq!(ledger.entries.iter().map(|e| e.1).collect::<Vec<u64>>(), lamports);

    let before = ledger.clone();
    let accounts = payment_accounts(&ledger, &payer);
    let payment = ProgramInstruction::ExecuteClashPayment {
        data: ClashTokenPaymentData { clash_token_amount: 401 },
    };
    assert_eq!(
        run(&mut ledger, &accounts, payment, no_quote()),
        Err(custom(ICOError::InsuficientClashToken))
    );
    assert_eq!(ledger, before);
}

#[test]
fn closing_an_emptied_custody_moves_no_tokens() {
    let (a, ta) = (key(1), key(2));
    let mut ledger = start(&a, &ta, 9);
    let total = ledger.total();
    let accounts = initialize_accounts(&ledger, &a, &ta);
    run(&mut ledger, &accounts, ProgramInstruction::InitializeICO, no_quote()).unwrap();
    let accounts = terminate_accounts(&ledger, &a, &ta);
    assert_eq!(run(&mut ledger, &accounts, ProgramInstruction::TerminateICO, no_quote()), Ok(()));
    assert_eq!(ledger.tokens(&ta), 0);
    assert_eq!(ledger.lamports(&a), 10 * SOL);
    assert_eq!(ledger.total(), total);
    assert_eq!(ledger, start(&a, &ta, 9));
}
