use crate::address::Address;
use crate::error::ProgramError;
use vstd::prelude::*;

verus! {

/// Length in bytes of a stored sale record: two addresses, nothing between them.
pub const SALE_RECORD_LEN: usize = 64;

/// The sale record: who opened the sale, and the token account that takes
/// what is left when the sale is closed.
#[derive(Clone, Copy, Debug, PartialEq, Eq)]
pub struct ICOProgramData {
    pub initializer: Address,
    pub initializer_ata: Address,
}

/// Payload of an exchange request: the native amount offered, in lamports.
#[derive(Clone, Copy, Debug, PartialEq, Eq, Structural)]
pub struct ClashTokenExchangeData {
    pub sol_as_lamports_amount: u64,
}

/// Payload of a payment confirmation: the token quantity to credit.
#[derive(Clone, Copy, Debug, PartialEq, Eq, Structural)]
pub struct ClashTokenPaymentData {
    pub clash_token_amount: u64,
}

impl ICOProgramData {
    /// The stored form of a record: the initializer's 32 bytes, then the
    /// token account's 32 bytes.
    pub open spec fn spec_bytes(self) -> Seq<u8> {
        self.initializer@ + self.initializer_ata@
    }

    /// Whether `data` is the stored form of some record.
    pub open spec fn spec_decodes(data: Seq<u8>) -> bool {
        data.len() == SALE_RECORD_LEN
    }

    /// Reads a stored record. The bytes must be exactly one record long.
    pub fn try_from_slice(data: &[u8]) -> (r: Result<ICOProgramData, ProgramError>)
        ensures
            r.is_ok() == Self::spec_decodes(data@),
            r.is_err() ==> r == Err::<ICOProgramData, ProgramError>(ProgramError::BorshIoError),
            r.is_ok() ==> r.unwrap().initializer@ == data@.subrange(0, 32),
            r.is_ok() ==> r.unwrap().initializer_ata@ == data@.subrange(32, 64),
            r.is_ok() ==> r.unwrap().spec_bytes() == data@,
    {
        if data.len() != SALE_RECORD_LEN {
            return Err(ProgramError::BorshIoError);
        }
        let initializer = Address::from_slice(data, 0);
        let initializer_ata = Address::from_slice(data, 32);
        proof {
            assert(data@.subrange(0, 32) + data@.subrange(32, 64) =~= data@);
        }
        Ok(ICOProgramData { initializer, initializer_ata })
    }

    /// Writes the stored form of the record.
    pub fn to_bytes(&self) -> (out: Vec<u8>)
        ensures
            out@ == self.spec_bytes(),
            out@.len() == SALE_RECORD_LEN,
    {
        let mut out: Vec<u8> = Vec::new();
        self.initializer.append_to(&mut out);
        self.initializer_ata.append_to(&mut out);
        proof {
            assert(out@ =~= self.spec_bytes());
        }
        out
    }

    /// Replaces the record held in an account's data by this one. The data
    /// must hold a record already, as a freshly created record account does.
    pub fn store(&self, data: &mut Vec<u8>) -> (r: Result<(), ProgramError>)
        ensures
            r.is_ok() == Self::spec_decodes(old(data)@),
            r.is_ok() ==> final(data)@ == self.spec_bytes(),
            r.is_err() ==> r == Err::<(), ProgramError>(ProgramError::BorshIoError)
                && final(data)@ == old(data)@,
    {
        if data.len() != SALE_RECORD_LEN {
            return Err(ProgramError::BorshIoError);
        }
        *data = self.to_bytes();
        Ok(())
    }
}

/// A stored record reads back as the record that was written.
pub proof fn lemma_record_round_trip(record: ICOProgramData)
    ensures
        ICOProgramData::spec_decodes(record.spec_bytes()),
        record.spec_bytes().subrange(0, 32) == record.initializer@,
        record.spec_bytes().subrange(32, 64) == record.initializer_ata@,
{
    assert(record.spec_bytes().subrange(0, 32) =~= record.initializer@);
    assert(record.spec_bytes().subrange(32, 64) =~= record.initializer_ata@);
}

} // verus!
