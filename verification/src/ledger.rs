use crate::address::Address;
use crate::state::ICOProgramData;
use solana_program::pubkey::Pubkey;
use solana_program::rent::Rent;
use solana_program::sysvar::Sysvar;
use vstd::float::FloatBitsProperties;
use vstd::prelude::*;

verus! {

/// One account named by a call into another program, with what the call
/// asks of it.
#[derive(Clone, Copy, Debug, PartialEq, Eq)]
pub struct AccountMeta {
    pub pubkey: Address,
    pub is_signer: bool,
    pub is_writable: bool,
}

/// A call into another program of the ledger: the program, the accounts it
/// works on and its data.
#[derive(Clone, Debug, PartialEq, Eq)]
pub struct Instruction {
    pub program_id: Address,
    pub accounts: Vec<AccountMeta>,
    pub data: Vec<u8>,
}

/// One step of what an accepted operation does to the ledger. Accounts are
/// named by their position in the operation's account list.
#[derive(Clone, Debug, PartialEq, Eq)]
pub enum Effect {
    /// Calls another program with the listed accounts. With a bump, the call
    /// is authorized by the sale's derived address: its two seeds and the
    /// bump stand in for a signature.
    Invoke { instruction: Instruction, accounts: Vec<usize>, signer_bump: Option<u8> },
    /// Stores the sale record in the data of an account.
    WriteRecord { account: usize, record: ICOProgramData },
    /// Moves every lamport of one account to another.
    SweepLamports { from: usize, to: usize },
}

/// An account named by a call, with its address as bytes.
pub struct AccountMetaView {
    pub pubkey: Seq<u8>,
    pub is_signer: bool,
    pub is_writable: bool,
}

/// A call into another program, with its addresses and data as sequences.
pub struct InstructionView {
    pub program_id: Seq<u8>,
    pub accounts: Seq<AccountMetaView>,
    pub data: Seq<u8>,
}

/// A step of a plan, with what it holds as sequences.
pub enum EffectView {
    Invoke { instruction: InstructionView, accounts: Seq<usize>, signer_bump: Option<u8> },
    WriteRecord { account: usize, initializer: Seq<u8>, initializer_ata: Seq<u8> },
    SweepLamports { from: usize, to: usize },
}

impl View for AccountMeta {
    type V = AccountMetaView;

    open spec fn view(&self) -> AccountMetaView {
        AccountMetaView {
            pubkey: self.pubkey@,
            is_signer: self.is_signer,
            is_writable: self.is_writable,
        }
    }
}

impl View for Instruction {
    type V = InstructionView;

    open spec fn view(&self) -> InstructionView {
        InstructionView {
            program_id: self.program_id@,
            accounts: Seq::new(self.accounts@.len(), |i: int| self.accounts@[i]@),
            data: self.data@,
        }
    }
}

impl View for Effect {
    type V = EffectView;

    open spec fn view(&self) -> EffectView {
        match self {
            Effect::Invoke { instruction, accounts, signer_bump } => EffectView::Invoke {
                instruction: instruction@,
                accounts: accounts@,
                signer_bump: *signer_bump,
            },
            Effect::WriteRecord { account, record } => EffectView::WriteRecord {
                account: *account,
                initializer: record.initializer@,
                initializer_ata: record.initializer_ata@,
            },
            Effect::SweepLamports { from, to } => EffectView::SweepLamports {
                from: *from,
                to: *to,
            },
        }
    }
}

/// The ledger's rent parameters, as the rent sysvar holds them, with their
/// fields in view: the rate in lamports per byte and year is read below.
#[verifier::external_type_specification]
pub struct ExRent(solana_program::rent::Rent);

/// The steps of a plan, each by its view.
pub open spec fn plan_view(effects: Seq<Effect>) -> Seq<EffectView> {
    Seq::new(effects.len(), |i: int| effects[i]@)
}

/// The seeds of a derivation, each by its bytes.
pub open spec fn seeds_view(seeds: Seq<&[u8]>) -> Seq<Seq<u8>> {
    Seq::new(seeds.len(), |i: int| seeds[i]@)
}

/// The address that the ledger derives for a program from seeds, with the
/// bump that makes it one no key can sign for; none where no bump does.
pub uninterp spec fn spec_program_address(seeds: Seq<Seq<u8>>, program_id: Seq<u8>) -> Option<
    (Seq<u8>, u8),
>;

/// The system program's call that creates an account.
pub uninterp spec fn spec_create_account(
    from: Seq<u8>,
    to: Seq<u8>,
    lamports: u64,
    space: u64,
    owner: Seq<u8>,
) -> InstructionView;

/// The system program's call that moves lamports.
pub uninterp spec fn spec_transfer(from: Seq<u8>, to: Seq<u8>, lamports: u64) -> InstructionView;

/// The call that creates a wallet's associated token account for a mint.
pub uninterp spec fn spec_create_associated_token_account(
    funder: Seq<u8>,
    wallet: Seq<u8>,
    mint: Seq<u8>,
) -> InstructionView;

/// The address of the token program.
pub open spec fn spec_token_program_id() -> Seq<u8> {
    seq![
        0x06u8, 0xddu8, 0xf6u8, 0xe1u8, 0xd7u8, 0x65u8, 0xa1u8, 0x93u8,
        0xd9u8, 0xcbu8, 0xe1u8, 0x46u8, 0xceu8, 0xebu8, 0x79u8, 0xacu8,
        0x1cu8, 0xb4u8, 0x85u8, 0xedu8, 0x5fu8, 0x5bu8, 0x37u8, 0x91u8,
        0x3au8, 0x8cu8, 0xf5u8, 0x85u8, 0x7eu8, 0xffu8, 0x00u8, 0xa9u8,
    ]
}

/// The address of the associated token account program.
pub open spec fn spec_associated_token_program_id() -> Seq<u8> {
    seq![
        0x8cu8, 0x97u8, 0x25u8, 0x8fu8, 0x4eu8, 0x24u8, 0x89u8, 0xf1u8,
        0xbbu8, 0x3du8, 0x10u8, 0x29u8, 0x14u8, 0x8eu8, 0x0du8, 0x83u8,
        0x0bu8, 0x5au8, 0x13u8, 0x99u8, 0xdau8, 0xffu8, 0x10u8, 0x84u8,
        0x04u8, 0x8eu8, 0x7bu8, 0xd8u8, 0xdbu8, 0xe9u8, 0xf8u8, 0x59u8,
    ]
}

/// The address of a wallet's associated token account for a mint, with its
/// bump: derived for the associated token account program from the wallet,
/// the token program and the mint.
pub open spec fn spec_associated_token_address(wallet: Seq<u8>, mint: Seq<u8>) -> Option<
    (Seq<u8>, u8),
> {
    spec_program_address(
        seq![wallet, spec_token_program_id(), mint],
        spec_associated_token_program_id(),
    )
}

/// The token program's call that moves tokens and checks mint and decimals;
/// none where `token_program` is not the token program.
pub uninterp spec fn spec_transfer_checked(
    token_program: Seq<u8>,
    source: Seq<u8>,
    mint: Seq<u8>,
    destination: Seq<u8>,
    authority: Seq<u8>,
    amount: u64,
    decimals: u8,
) -> Option<InstructionView>;

/// The token program's call that closes a token account; none where
/// `token_program` is not the token program.
pub uninterp spec fn spec_close_account(
    token_program: Seq<u8>,
    account: Seq<u8>,
    destination: Seq<u8>,
    owner: Seq<u8>,
) -> Option<InstructionView>;

/// The address of the token program.
pub fn token_program_id() -> (id: Address)
    ensures
        id@ == spec_token_program_id(),
{
    let id = Address {
        bytes: [
            0x06u8, 0xddu8, 0xf6u8, 0xe1u8, 0xd7u8, 0x65u8, 0xa1u8, 0x93u8,
            0xd9u8, 0xcbu8, 0xe1u8, 0x46u8, 0xceu8, 0xebu8, 0x79u8, 0xacu8,
            0x1cu8, 0xb4u8, 0x85u8, 0xedu8, 0x5fu8, 0x5bu8, 0x37u8, 0x91u8,
            0x3au8, 0x8cu8, 0xf5u8, 0x85u8, 0x7eu8, 0xffu8, 0x00u8, 0xa9u8,
        ],
    };
    proof {
        assert(id@ =~= spec_token_program_id());
    }
    id
}

/// The address of the associated token account program.
pub fn associated_token_program_id() -> (id: Address)
    ensures
        id@ == spec_associated_token_program_id(),
{
    let id = Address {
        bytes: [
            0x8cu8, 0x97u8, 0x25u8, 0x8fu8, 0x4eu8, 0x24u8, 0x89u8, 0xf1u8,
            0xbbu8, 0x3du8, 0x10u8, 0x29u8, 0x14u8, 0x8eu8, 0x0du8, 0x83u8,
            0x0bu8, 0x5au8, 0x13u8, 0x99u8, 0xdau8, 0xffu8, 0x10u8, 0x84u8,
            0x04u8, 0x8eu8, 0x7bu8, 0xd8u8, 0xdbu8, 0xe9u8, 0xf8u8, 0x59u8,
        ],
    };
    proof {
        assert(id@ =~= spec_associated_token_program_id());
    }
    id
}

/// Calls `Pubkey::try_find_program_address`. The result is a function of
/// the seeds and the program alone: the address and bump of the first bump
/// from 255 down that gives an address off the curve, and nothing where none
/// does or a seed is too long.
#[verifier::external_body]
pub(crate) fn find_program_address(seeds: &[&[u8]], program_id: &Address) -> (r: Option<
    (Address, u8),
>)
    ensures
        match r {
            Some(found) => spec_program_address(seeds_view(seeds@), program_id@) == Some(
                (found.0@, found.1),
            ),
            None => spec_program_address(seeds_view(seeds@), program_id@).is_none(),
        },
{
    Pubkey::try_find_program_address(seeds, &Pubkey::from(program_id.bytes)).map(
        |(key, bump)| (Address { bytes: key.to_bytes() }, bump),
    )
}

/// Calls `solana_program::system_instruction::create_account` and hands the
/// instruction over field by field.
#[verifier::external_body]
pub(crate) fn create_account(
    from: &Address,
    to: &Address,
    lamports: u64,
    space: u64,
    owner: &Address,
) -> (r: Instruction)
    ensures
        r@ == spec_create_account(from@, to@, lamports, space, owner@),
{
    let ix = solana_program::system_instruction::create_account(
        &Pubkey::from(from.bytes), &Pubkey::from(to.bytes), lamports, space,
        &Pubkey::from(owner.bytes));
    Instruction {
        program_id: Address { bytes: ix.program_id.to_bytes() },
        accounts: ix.accounts.iter().map(|m| AccountMeta {
            pubkey: Address { bytes: m.pubkey.to_bytes() },
            is_signer: m.is_signer,
            is_writable: m.is_writable }).collect(),
        data: ix.data,
    }
}

/// Calls `solana_program::system_instruction::transfer` and hands the
/// instruction over field by field.
#[verifier::external_body]
pub(crate) fn transfer(from: &Address, to: &Address, lamports: u64) -> (r: Instruction)
    ensures
        r@ == spec_transfer(from@, to@, lamports),
{
    let ix = solana_program::system_instruction::transfer(
        &Pubkey::from(from.bytes), &Pubkey::from(to.bytes), lamports);
    Instruction {
        program_id: Address { bytes: ix.program_id.to_bytes() },
        accounts: ix.accounts.iter().map(|m| AccountMeta {
            pubkey: Address { bytes: m.pubkey.to_bytes() },
            is_signer: m.is_signer,
            is_writable: m.is_writable }).collect(),
        data: ix.data,
    }
}

/// Calls `spl_associated_token_account::create_associated_token_account`
/// and hands the instruction over field by field. On its way the outside
/// function derives the associated address with
/// `Pubkey::find_program_address`, which does not return where there is no
/// such address: the caller has found one before.
#[verifier::external_body]
#[allow(deprecated)]
pub(crate) fn create_associated_token_account(
    funder: &Address,
    wallet: &Address,
    mint: &Address,
) -> (r: Instruction)
    requires
        spec_associated_token_address(wallet@, mint@).is_some(),
    ensures
        r@ == spec_create_associated_token_account(funder@, wallet@, mint@),
{
    let ix = spl_associated_token_account::create_associated_token_account(
        &Pubkey::from(funder.bytes), &Pubkey::from(wallet.bytes), &Pubkey::from(mint.bytes));
    Instruction {
        program_id: Address { bytes: ix.program_id.to_bytes() },
        accounts: ix.accounts.iter().map(|m| AccountMeta {
            pubkey: Address { bytes: m.pubkey.to_bytes() },
            is_signer: m.is_signer,
            is_writable: m.is_writable }).collect(),
        data: ix.data,
    }
}

/// The call that creates a wallet's associated token account for a mint,
/// paid by `funder`; none where no address can be derived for the account.
pub fn associated_token_account_creation(funder: &Address, wallet: &Address, mint: &Address) -> (r:
    Option<Instruction>)
    ensures
        r.is_some() == spec_associated_token_address(wallet@, mint@).is_some(),
        r.is_some() ==> r.unwrap()@ == spec_create_associated_token_account(
            funder@,
            wallet@,
            mint@,
        ),
{
    let token_program = token_program_id();
    let program = associated_token_program_id();
    let seeds: [&[u8]; 3] = [
        wallet.bytes.as_slice(),
        token_program.bytes.as_slice(),
        mint.bytes.as_slice(),
    ];
    proof {
        assert(seeds_view(seeds@) =~= seq![wallet@, spec_token_program_id(), mint@]);
    }
    match find_program_address(seeds.as_slice(), &program) {
        Some(_) => Some(create_associated_token_account(funder, wallet, mint)),
        None => None,
    }
}

/// Calls `spl_token::instruction::transfer_checked` with no further signers
/// and hands the instruction over field by field. The call fails only where
/// `token_program` is not the token program.
#[verifier::external_body]
pub(crate) fn transfer_checked(
    token_program: &Address,
    source: &Address,
    mint: &Address,
    destination: &Address,
    authority: &Address,
    amount: u64,
    decimals: u8,
) -> (r: Option<Instruction>)
    ensures
        match r {
            Some(ix) => spec_transfer_checked(
                token_program@,
                source@,
                mint@,
                destination@,
                authority@,
                amount,
                decimals,
            ) == Some(ix@),
            None => spec_transfer_checked(
                token_program@,
                source@,
                mint@,
                destination@,
                authority@,
                amount,
                decimals,
            ).is_none(),
        },
        r.is_some() == (token_program@ == spec_token_program_id()),
{
    spl_token::instruction::transfer_checked(
        &Pubkey::from(token_program.bytes), &Pubkey::from(source.bytes),
        &Pubkey::from(mint.bytes), &Pubkey::from(destination.bytes),
        &Pubkey::from(authority.bytes), &[], amount, decimals,
    ).ok().map(|ix| Instruction {
        program_id: Address { bytes: ix.program_id.to_bytes() },
        accounts: ix.accounts.iter().map(|m| AccountMeta {
            pubkey: Address { bytes: m.pubkey.to_bytes() },
            is_signer: m.is_signer,
            is_writable: m.is_writable }).collect(),
        data: ix.data,
    })
}

/// Calls `spl_token::instruction::close_account` with no further signers and
/// hands the instruction over field by field. The call fails only where
/// `token_program` is not the token program.
#[verifier::external_body]
pub(crate) fn close_account(
    token_program: &Address,
    account: &Address,
    destination: &Address,
    owner: &Address,
) -> (r: Option<Instruction>)
    ensures
        match r {
            Some(ix) => spec_close_account(token_program@, account@, destination@, owner@)
                == Some(ix@),
            None => spec_close_account(token_program@, account@, destination@, owner@).is_none(),
        },
        r.is_some() == (token_program@ == spec_token_program_id()),
{
    spl_token::instruction::close_account(
        &Pubkey::from(token_program.bytes), &Pubkey::from(account.bytes),
        &Pubkey::from(destination.bytes), &Pubkey::from(owner.bytes), &[],
    ).ok().map(|ix| Instruction {
        program_id: Address { bytes: ix.program_id.to_bytes() },
        accounts: ix.accounts.iter().map(|m| AccountMeta {
            pubkey: Address { bytes: m.pubkey.to_bytes() },
            is_signer: m.is_signer,
            is_writable: m.is_writable }).collect(),
        data: ix.data,
    })
}

/// Calls `Rent::get`, which asks the ledger for its rent parameters. What
/// comes back is the ledger's to say, and nothing where it does not answer.
#[verifier::external_body]
pub(crate) fn rent_sysvar() -> (r: Option<Rent>) {
    Rent::get().ok()
}

/// The balance that exempts an account with `data_len` bytes of data from
/// rent, at a rate in lamports per byte and year and an exemption threshold
/// in years; the threshold is given by the bits of its 64-bit number.
pub uninterp spec fn spec_minimum_balance(
    lamports_per_byte_year: u64,
    exemption_threshold_bits: u64,
    data_len: usize,
) -> u64;

/// Calls `Rent::minimum_balance`: the balance that exempts an account with
/// `data_len` bytes of data from rent, under the given parameters. The
/// result is a function of the rate, the threshold and the length alone. It
/// multiplies the data's length, 128 bytes added, by the rate before it
/// scales by the threshold: the product has to fit in 64 bits.
#[verifier::external_body]
pub(crate) fn rent_minimum_balance(rent: &Rent, data_len: usize) -> (r: u64)
    requires
        128 + data_len <= u64::MAX,
        (128 + data_len) * rent.lamports_per_byte_year <= u64::MAX,
    ensures
        r == spec_minimum_balance(
            rent.lamports_per_byte_year,
            rent.exemption_threshold.to_bits_spec(),
            data_len,
        ),
{
    rent.minimum_balance(data_len)
}

} // verus!
