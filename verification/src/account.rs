use crate::address::Address;
use solana_program::program_pack::Pack;
use vstd::bytes::*;
use vstd::prelude::*;

verus! {

/// Length in bytes of a token account's data.
pub const TOKEN_ACCOUNT_LEN: usize = 165;

/// Length in bytes of a token mint's data.
pub const MINT_LEN: usize = 82;

/// What an instruction sees of one account of the ledger: its address, what
/// the transaction granted on it, its balance in lamports and its data.
#[derive(Clone, Debug, PartialEq, Eq)]
pub struct AccountInfo {
    pub key: Address,
    pub is_signer: bool,
    pub is_writable: bool,
    pub lamports: u64,
    pub data: Vec<u8>,
}

/// The fields of a token account that the sale reads.
#[derive(Clone, Copy, Debug, PartialEq, Eq)]
pub struct TokenAccount {
    pub mint: Address,
    pub owner: Address,
    pub amount: u64,
}

/// The fields of a token mint that the sale reads.
#[derive(Clone, Copy, Debug, PartialEq, Eq)]
pub struct Mint {
    pub mint_authority: Option<Address>,
    pub decimals: u8,
}

/// What the token program's decoder makes of a token account's data.
pub uninterp spec fn spec_token_account(data: Seq<u8>) -> Option<TokenAccount>;

/// What the token program's decoder makes of a mint's data.
pub uninterp spec fn spec_mint(data: Seq<u8>) -> Option<Mint>;

/// Where a decoded token account's fields lie in its data.
pub open spec fn token_account_layout(data: Seq<u8>, account: TokenAccount) -> bool {
    &&& data.len() == TOKEN_ACCOUNT_LEN
    &&& account.mint@ == data.subrange(0, 32)
    &&& account.owner@ == data.subrange(32, 64)
    &&& account.amount == spec_u64_from_le_bytes(data.subrange(64, 72))
}

/// Where a decoded mint's fields lie in its data.
pub open spec fn mint_layout(data: Seq<u8>, mint: Mint) -> bool {
    &&& data.len() == MINT_LEN
    &&& mint.decimals == data[44]
    &&& match mint.mint_authority {
        Some(authority) => data.subrange(0, 4) == seq![1u8, 0u8, 0u8, 0u8] && authority@
            == data.subrange(4, 36),
        None => data.subrange(0, 4) == seq![0u8, 0u8, 0u8, 0u8],
    }
}

/// Calls `unpack_unchecked` of spl_token's `Account`. It accepts data of
/// exactly 165 bytes whose option tags and state byte are valid, and reads
/// mint, owner and amount from the first 72 bytes; every failure is the same
/// one, invalid account data.
#[verifier::external_body]
pub(crate) fn unpack_token_account(data: &[u8]) -> (r: Option<TokenAccount>)
    ensures
        r == spec_token_account(data@),
        r.is_some() ==> token_account_layout(data@, r.unwrap()),
{
    spl_token::state::Account::unpack_unchecked(data).ok().map(
        |a| TokenAccount {
            mint: Address { bytes: a.mint.to_bytes() },
            owner: Address { bytes: a.owner.to_bytes() },
            amount: a.amount,
        },
    )
}

/// Calls `unpack_unchecked` of spl_token's `Mint`. It accepts data of exactly
/// 82 bytes whose option tags and initialized byte are valid, and reads the
/// optional mint authority from the first 36 bytes and the decimals from byte
/// 44; every failure is the same one, invalid account data.
#[verifier::external_body]
pub(crate) fn unpack_mint(data: &[u8]) -> (r: Option<Mint>)
    ensures
        r == spec_mint(data@),
        r.is_some() ==> mint_layout(data@, r.unwrap()),
{
    spl_token::state::Mint::unpack_unchecked(data).ok().map(
        |m| Mint {
            mint_authority: Option::from(m.mint_authority).map(
                |k: solana_program::pubkey::Pubkey| Address { bytes: k.to_bytes() },
            ),
            decimals: m.decimals,
        },
    )
}

impl AccountInfo {
    /// Whether the account holds any lamports: one that holds none does not
    /// exist on the ledger.
    pub open spec fn spec_is_funded(&self) -> bool {
        self.lamports != 0
    }

    pub fn is_funded(&self) -> (r: bool)
        ensures
            r == self.spec_is_funded(),
    {
        self.lamports != 0
    }

    /// The token account that this account's data holds, if it holds one.
    pub fn token_account(&self) -> (r: Option<TokenAccount>)
        ensures
            r == spec_token_account(self.data@),
            r.is_some() ==> token_account_layout(self.data@, r.unwrap()),
    {
        unpack_token_account(self.data.as_slice())
    }

    /// The mint that this account's data holds, if it holds one.
    pub fn mint(&self) -> (r: Option<Mint>)
        ensures
            r == spec_mint(self.data@),
            r.is_some() ==> mint_layout(self.data@, r.unwrap()),
    {
        unpack_mint(self.data.as_slice())
    }
}

impl Mint {
    /// Whether `who` is the registered minting authority of this mint.
    pub open spec fn spec_has_authority(&self, who: Seq<u8>) -> bool {
        match self.mint_authority {
            Some(authority) => authority@ == who,
            None => false,
        }
    }

    pub fn has_authority(&self, who: &Address) -> (r: bool)
        ensures
            r == self.spec_has_authority(who@),
    {
        match &self.mint_authority {
            Some(authority) => authority.same(who),
            None => false,
        }
    }
}

} // verus!
