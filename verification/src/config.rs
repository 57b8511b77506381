use crate::address::Address;
use crate::ledger::{find_program_address, seeds_view, spec_program_address};
use vstd::prelude::*;

verus! {

/// What a deployment of the sale fixes once and for all: the token it sells,
/// the treasury that takes the native currency, the authority trusted to
/// confirm outside payments, and the two seeds of the sale's derived address.
#[derive(Clone, Debug, PartialEq, Eq)]
pub struct Config {
    pub clash_token_id: Address,
    pub clash_sol_wallet: Address,
    pub clash_payment_authority: Address,
    pub program_pda_seed1: Vec<u8>,
    pub program_pda_seed2: Vec<u8>,
}

/// The sale's derived address with its bump. No key signs for the address:
/// whoever holds the seeds and the bump can authorize calls in its name, and
/// only the program they were derived for is believed.
#[derive(Clone, Copy, Debug, PartialEq, Eq)]
pub struct DerivedAuthority {
    pub address: Address,
    pub bump: u8,
}

/// How an offer's value in USD lies to the bounds of the sale.
#[derive(Clone, Copy, Debug, PartialEq, Eq, Structural)]
pub enum OfferValue {
    BelowMinimum,
    WithinBounds,
    AboveMaximum,
}

/// The pricing of one offer: where its value lies to the bounds, and the
/// token quantity it buys, in the token's smallest unit.
#[derive(Clone, Copy, Debug, PartialEq, Eq, Structural)]
pub struct ExchangeQuote {
    pub value: OfferValue,
    pub clash_amount: u64,
}

impl Config {
    /// The derived address of the sale under `program_id`, with its bump.
    pub open spec fn spec_authority(&self, program_id: Seq<u8>) -> Option<(Seq<u8>, u8)> {
        spec_program_address(seq![self.program_pda_seed1@, self.program_pda_seed2@], program_id)
    }

    /// Derives the sale's address anew from the seeds and the program.
    pub fn derive_authority(&self, program_id: &Address) -> (r: Option<DerivedAuthority>)
        ensures
            match r {
                Some(authority) => self.spec_authority(program_id@) == Some(
                    (authority.address@, authority.bump),
                ),
                None => self.spec_authority(program_id@).is_none(),
            },
    {
        let seeds: [&[u8]; 2] = [
            self.program_pda_seed1.as_slice(),
            self.program_pda_seed2.as_slice(),
        ];
        proof {
            assert(seeds_view(seeds@) =~= seq![
                self.program_pda_seed1@,
                self.program_pda_seed2@,
            ]);
        }
        match find_program_address(seeds.as_slice(), program_id) {
            Some(found) => Some(DerivedAuthority { address: found.0, bump: found.1 }),
            None => None,
        }
    }
}

} // verus!
