use clash_ico::account::AccountInfo;
use clash_ico::address::Address;
use clash_ico::config::{Config, ExchangeQuote, OfferValue};
use clash_ico::error::ProgramError;
use clash_ico::processor::Processor;

fn key(fill: u8) -> Address {
    Address::new([fill; 32])
}

fn cfg() -> Config {
    Config {
        clash_token_id: key(10),
        clash_sol_wallet: key(11),
        clash_payment_authority: key(12),
        program_pda_seed1: b"clash".to_vec(),
        program_pda_seed2: b"ico".to_vec(),
    }
}

fn quote() -> ExchangeQuote {
    ExchangeQuote { value: OfferValue::WithinBounds, clash_amount: 1 }
}

fn signers(count: usize) -> Vec<AccountInfo> {
    (0..count)
        .map(|i| AccountInfo {
            key: key(100 + i as u8),
            is_signer: false,
            is_writable: true,
            lamports: 1,
            data: vec![],
        })
        .collect()
}

fn process(accounts: &[AccountInfo], data: &[u8]) -> Result<(), ProgramError> {
    Processor::process(&cfg(), &key(20), accounts, data, &quote()).map(|_| ())
}

#[test]
fn process_rejects_empty_data_before_the_accounts() {
    assert_eq!(process(&[], &[]), Err(ProgramError::Custom(0)));
    assert_eq!(process(&signers(11), &[]), Err(ProgramError::Custom(0)));
}

#[test]
fn process_rejects_an_unknown_tag_before_the_accounts() {
    assert_eq!(process(&[], &[4]), Err(ProgramError::Custom(1)));
    assert_eq!(process(&signers(11), &[200, 1, 2]), Err(ProgramError::Custom(1)));
}

#[test]
fn process_rejects_a_bad_payload_before_the_accounts() {
    assert_eq!(process(&[], &[1, 0, 0]), Err(ProgramError::BorshIoError));
    assert_eq!(process(&[], &[2]), Err(ProgramError::BorshIoError));
}

#[test]
fn process_hands_each_tag_to_its_operation() {
    let payload = [0u8; 8];
    let mut exchange = vec![1u8];
    exchange.extend_from_slice(&payload);
    let mut payment = vec![2u8];
    payment.extend_from_slice(&payload);
    // Each operation asks for its own number of accounts.
    assert_eq!(process(&signers(8), &[0]), Err(ProgramError::NotEnoughAccountKeys));
    assert_eq!(process(&signers(10), &exchange), Err(ProgramError::NotEnoughAccountKeys));
    assert_eq!(process(&signers(10), &payment), Err(ProgramError::NotEnoughAccountKeys));
    assert_eq!(process(&signers(5), &[3]), Err(ProgramError::NotEnoughAccountKeys));
    // And makes its own demands on the first of them.
    assert_eq!(process(&signers(9), &[0]), Err(ProgramError::MissingRequiredSignature));
    assert_eq!(process(&signers(11), &exchange), Err(ProgramError::MissingRequiredSignature));
    assert_eq!(process(&signers(6), &[3]), Err(ProgramError::MissingRequiredSignature));
    let mut accounts = signers(11);
    accounts[0].lamports = 0;
    assert_eq!(process(&accounts, &payment), Err(ProgramError::UninitializedAccount));
}

#[test]
fn process_with_rent_agrees_with_process_where_no_rent_is_asked() {
    let mut exchange = vec![1u8];
    exchange.extend_from_slice(&[9u8; 8]);
    for data in [vec![], vec![7u8], exchange, vec![3u8]] {
        for count in [0usize, 6, 11] {
            let accounts = signers(count);
            let with = Processor::process_with_rent(
                &cfg(),
                &key(20),
                &accounts,
                &data,
                &quote(),
                Some(5),
            );
            let without = Processor::process(&cfg(), &key(20), &accounts, &data, &quote());
            assert_eq!(with, without);
        }
    }
}
