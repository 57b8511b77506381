use crate::account::{spec_mint, spec_token_account, AccountInfo};
use crate::config::{Config, ExchangeQuote, OfferValue};
use crate::error::{ICOError, ProgramError};
use crate::instruction::ProgramInstruction;
use crate::ledger::{spec_token_program_id, EffectView};
use crate::processor::Processor;
use crate::state::{ClashTokenExchangeData, ClashTokenPaymentData, ICOProgramData};
use vstd::prelude::*;

verus! {

/// An offer is judged by its value before anything else of it is looked at:
/// once the accounts have passed, an offer below the minimum is rejected as
/// too few and one above the maximum as too much, whatever quantity it was
/// quoted; and an offer within the bounds that buys no token at all is
/// rejected for its amount.
pub proof fn lemma_exchange_offer_bounds(
    cfg: Config,
    program_id: Seq<u8>,
    accounts: Seq<AccountInfo>,
    data: ClashTokenExchangeData,
    quote: ExchangeQuote,
)
    requires
        Processor::spec_exchange_accounts(cfg, program_id, accounts).is_ok(),
    ensures
        quote.value == OfferValue::BelowMinimum ==> Processor::spec_exchange_clash_token(
            cfg,
            program_id,
            accounts,
            data,
            quote,
        ) == Err::<Seq<EffectView>, ProgramError>(
            ICOError::InvalidOfferTooFew.spec_program_error(),
        ),
        quote.value == OfferValue::AboveMaximum ==> Processor::spec_exchange_clash_token(
            cfg,
            program_id,
            accounts,
            data,
            quote,
        ) == Err::<Seq<EffectView>, ProgramError>(
            ICOError::InvalidOfferTooMuch.spec_program_error(),
        ),
        quote.value == OfferValue::WithinBounds && quote.clash_amount == 0 && spec_mint(
            accounts[4].data@,
        ).is_some() ==> Processor::spec_exchange_clash_token(
            cfg,
            program_id,
            accounts,
            data,
            quote,
        ) == Err::<Seq<EffectView>, ProgramError>(
            ICOError::InvalidClashTokenAmount.spec_program_error(),
        ),
{
}

/// An accepted exchange moves exactly what was offered and quoted: the plan
/// exists only where the payer holds more than the offer and custody holds
/// at least the quoted quantity, which is not zero.
pub proof fn lemma_exchange_accepted_is_covered(
    cfg: Config,
    program_id: Seq<u8>,
    accounts: Seq<AccountInfo>,
    data: ClashTokenExchangeData,
    quote: ExchangeQuote,
)
    requires
        Processor::spec_exchange_clash_token(cfg, program_id, accounts, data, quote).is_ok(),
    ensures
        quote.value == OfferValue::WithinBounds,
        quote.clash_amount > 0,
        accounts[0].lamports > data.sol_as_lamports_amount,
        spec_token_account(accounts[3].data@).unwrap().amount
            >= quote.clash_amount,
        accounts[0].is_signer,
        accounts[2].key@ == cfg.clash_sol_wallet@,
        accounts[8].key@ == spec_token_program_id(),
{
}

/// Opening a sale is not repeatable. Take accounts on which a sale was
/// opened, and let the record account then hold lamports and a record, as it
/// does once the opening has taken effect, while the other accounts keep
/// their addresses, grants and data and the initializer and its token
/// account still hold lamports. A second request on them is rejected because
/// the record account exists, whatever the ledger says of rent; being
/// rejected, it has no plan and moves nothing.
pub proof fn lemma_initialize_not_repeatable(
    cfg: Config,
    program_id: Seq<u8>,
    before: Seq<AccountInfo>,
    after: Seq<AccountInfo>,
    first_rent: Option<u64>,
    second_rent: Option<u64>,
)
    requires
        Processor::spec_initialize_ico(cfg, program_id, before, first_rent).is_ok(),
        after.len() == before.len(),
        forall|i: int|
            0 <= i < 5 ==> (#[trigger] after[i]).key == before[i].key && after[i].is_signer
                == before[i].is_signer && after[i].is_writable == before[i].is_writable,
        after[0].lamports != 0,
        after[1].lamports != 0,
        after[1].data == before[1].data,
        after[2] == before[2],
        after[3].lamports != 0,
        ICOProgramData::spec_decodes(after[3].data@),
    ensures
        Processor::spec_initialize_ico(cfg, program_id, after, second_rent) == Err::<
            Seq<EffectView>,
            ProgramError,
        >(ICOError::AlreadyCreatedPDAAccount.spec_program_error()),
{
    assert(Processor::spec_initialize_accounts(cfg, program_id, before).is_ok());
    assert(Processor::spec_initialize_structure(before).is_ok());
    assert(after[0].key == before[0].key);
    assert(after[1].key == before[1].key);
    assert(after[3].key == before[3].key);
    assert(after[4].key == before[4].key);
    assert(Processor::spec_initialize_structure(after).is_ok());
    assert(Processor::spec_initialize_accounts(cfg, program_id, after).is_ok());
}

/// Whatever else holds of a request to open a sale: where the accounts pass
/// and the record account holds lamports and a record, the request is
/// rejected because the record account exists.
pub proof fn lemma_initialize_rejects_open_sale(
    cfg: Config,
    program_id: Seq<u8>,
    accounts: Seq<AccountInfo>,
    rent: Option<u64>,
)
    requires
        Processor::spec_initialize_accounts(cfg, program_id, accounts).is_ok(),
        accounts[3].lamports != 0,
        ICOProgramData::spec_decodes(accounts[3].data@),
    ensures
        Processor::spec_initialize_ico(cfg, program_id, accounts, rent) == Err::<
            Seq<EffectView>,
            ProgramError,
        >(ICOError::AlreadyCreatedPDAAccount.spec_program_error()),
{
}

/// A sale that was never opened cannot be closed: where the accounts pass
/// and the record account holds no lamports, the request is rejected for
/// want of a sale.
pub proof fn lemma_terminate_needs_open_sale(
    cfg: Config,
    program_id: Seq<u8>,
    accounts: Seq<AccountInfo>,
)
    requires
        Processor::spec_terminate_accounts(cfg, program_id, accounts).is_ok(),
        accounts[3].lamports == 0,
    ensures
        Processor::spec_terminate_ico(cfg, program_id, accounts) == Err::<
            Seq<EffectView>,
            ProgramError,
        >(ICOError::InvalidTerminateUninitializedICO.spec_program_error()),
{
}

/// Only the one who opened a sale can close it: where the accounts pass and
/// the record names another initializer than the caller, the request is
/// rejected for the mismatch, and where it names the caller but another
/// token account than the one handed in, for that mismatch. Being rejected,
/// the request has no plan and moves nothing.
pub proof fn lemma_terminate_by_initializer_only(
    cfg: Config,
    program_id: Seq<u8>,
    accounts: Seq<AccountInfo>,
)
    requires
        Processor::spec_terminate_accounts(cfg, program_id, accounts).is_ok(),
        accounts[3].lamports != 0,
        ICOProgramData::spec_decodes(accounts[3].data@),
    ensures
        accounts[3].data@.subrange(0, 32) != accounts[0].key@
            ==> Processor::spec_terminate_ico(cfg, program_id, accounts) == Err::<
            Seq<EffectView>,
            ProgramError,
        >(ICOError::InitializerAccountMismatch.spec_program_error()),
        accounts[3].data@.subrange(0, 32) == accounts[0].key@ && accounts[3].data@.subrange(
            32,
            64,
        ) != accounts[1].key@ ==> Processor::spec_terminate_ico(cfg, program_id, accounts)
            == Err::<Seq<EffectView>, ProgramError>(
            ICOError::InitializerAssociatedAccountMismatch.spec_program_error(),
        ),
{
}

/// A sale is closed by the one who opened it: an accepted closing was asked
/// by a signer whose address and token account are the ones in the record,
/// and its last step returns the record account's lamports to that signer.
pub proof fn lemma_terminate_accepted(
    cfg: Config,
    program_id: Seq<u8>,
    accounts: Seq<AccountInfo>,
)
    requires
        Processor::spec_terminate_ico(cfg, program_id, accounts).is_ok(),
    ensures
        accounts[0].is_signer,
        accounts[3].data@.subrange(0, 32) == accounts[0].key@,
        accounts[3].data@.subrange(32, 64) == accounts[1].key@,
        Processor::spec_terminate_ico(cfg, program_id, accounts).unwrap().last()
            == (EffectView::SweepLamports { from: 3usize, to: 0usize }),
{
}

/// A payment is credited on the trusted authority's word alone: an accepted
/// payment was signed by the configured payment authority, for a quantity
/// that is not zero and that custody holds.
pub proof fn lemma_payment_accepted(
    cfg: Config,
    program_id: Seq<u8>,
    accounts: Seq<AccountInfo>,
    data: ClashTokenPaymentData,
)
    requires
        Processor::spec_execute_clash_payment(cfg, program_id, accounts, data).is_ok(),
    ensures
        accounts[3].is_signer,
        accounts[3].key@ == cfg.clash_payment_authority@,
        data.clash_token_amount > 0,
        spec_token_account(accounts[4].data@).unwrap().amount
            >= data.clash_token_amount,
{
}

/// Whether a step names only accounts of a list of `n`, and is authorized,
/// where it is, with the bump `bump`.
pub open spec fn step_in_order(step: EffectView, n: nat, bump: u8) -> bool {
    match step {
        EffectView::Invoke { instruction, accounts, signer_bump } => (forall|i: int|
            0 <= i < accounts.len() ==> #[trigger] accounts[i] < n) && (signer_bump.is_some()
            ==> signer_bump == Some(bump)),
        EffectView::WriteRecord { account, initializer, initializer_ata } => account < n,
        EffectView::SweepLamports { from, to } => from < n && to < n,
    }
}

/// Whether every step of a plan is in order.
pub open spec fn plan_in_order(plan: Seq<EffectView>, n: nat, bump: u8) -> bool {
    forall|i: int| 0 <= i < plan.len() ==> step_in_order(#[trigger] plan[i], n, bump)
}

/// A plan can be carried out on the accounts it was decided on: whatever the
/// operation, an accepted one was decided under a derived address, every
/// step of its plan names accounts by positions that the account list has,
/// and a step that is authorized in the derived address's name carries that
/// address's bump and no other.
pub proof fn lemma_plan_in_order(
    cfg: Config,
    program_id: Seq<u8>,
    accounts: Seq<AccountInfo>,
    instruction_data: Seq<u8>,
    quote: ExchangeQuote,
    rent: Option<u64>,
)
    requires
        Processor::spec_process(cfg, program_id, accounts, instruction_data, quote, rent).is_ok(),
    ensures
        cfg.spec_authority(program_id).is_some(),
        plan_in_order(
            Processor::spec_process(
                cfg,
                program_id,
                accounts,
                instruction_data,
                quote,
                rent,
            ).unwrap(),
            accounts.len(),
            cfg.spec_authority(program_id).unwrap().1,
        ),
{
    let plan = Processor::spec_process(
        cfg,
        program_id,
        accounts,
        instruction_data,
        quote,
        rent,
    ).unwrap();
    let bump = cfg.spec_authority(program_id).unwrap().1;
    let n = accounts.len();
    match ProgramInstruction::spec_unpack(instruction_data) {
        Ok(ProgramInstruction::InitializeICO) => {
            assert(Processor::spec_initialize_accounts(cfg, program_id, accounts).is_ok());
            assert(Processor::spec_initialize_structure(accounts).is_ok());
            assert(n >= 9);
            assert(plan == Processor::spec_initialize_plan(
                cfg,
                program_id,
                accounts,
                rent.unwrap(),
            ));
            assert forall|i: int| 0 <= i < plan.len() implies step_in_order(
                #[trigger] plan[i],
                n,
                bump,
            ) by {}
        },
        Ok(ProgramInstruction::ExchangeClashToken { data }) => {
            assert(Processor::spec_exchange_accounts(cfg, program_id, accounts).is_ok());
            assert(Processor::spec_exchange_structure(accounts).is_ok());
            assert(n >= 11);
            assert(plan == Processor::spec_exchange_plan(
                cfg,
                program_id,
                accounts,
                data,
                quote,
            ));
            assert forall|i: int| 0 <= i < plan.len() implies step_in_order(
                #[trigger] plan[i],
                n,
                bump,
            ) by {}
        },
        Ok(ProgramInstruction::ExecuteClashPayment { data }) => {
            assert(Processor::spec_payment_accounts(cfg, program_id, accounts).is_ok());
            assert(Processor::spec_payment_structure(accounts).is_ok());
            assert(n >= 11);
            assert(plan == Processor::spec_payment_plan(cfg, program_id, accounts, data));
            assert forall|i: int| 0 <= i < plan.len() implies step_in_order(
                #[trigger] plan[i],
                n,
                bump,
            ) by {}
        },
        Ok(ProgramInstruction::TerminateICO) => {
            assert(Processor::spec_terminate_accounts(cfg, program_id, accounts).is_ok());
            assert(Processor::spec_terminate_structure(accounts).is_ok());
            assert(n >= 6);
            assert(plan == Processor::spec_terminate_plan(cfg, program_id, accounts));
            assert forall|i: int| 0 <= i < plan.len() implies step_in_order(
                #[trigger] plan[i],
                n,
                bump,
            ) by {}
        },
        _ => {},
    }
}

/// Whether a step writes the sale record.
pub open spec fn writes_record(step: EffectView) -> bool {
    match step {
        EffectView::WriteRecord { account, initializer, initializer_ata } => true,
        _ => false,
    }
}

/// The record is written when a sale is opened, and never again: a plan
/// with a step that writes the record is the plan of an opening, decided
/// while the record account held no lamports, and what it writes names the
/// caller and the caller's token account. No exchange, payment or closing
/// touches what the record says.
pub proof fn lemma_record_written_by_opening_only(
    cfg: Config,
    program_id: Seq<u8>,
    accounts: Seq<AccountInfo>,
    instruction_data: Seq<u8>,
    quote: ExchangeQuote,
    rent: Option<u64>,
    i: int,
)
    requires
        Processor::spec_process(cfg, program_id, accounts, instruction_data, quote, rent).is_ok(),
        0 <= i < Processor::spec_process(
            cfg,
            program_id,
            accounts,
            instruction_data,
            quote,
            rent,
        ).unwrap().len(),
        writes_record(
            Processor::spec_process(
                cfg,
                program_id,
                accounts,
                instruction_data,
                quote,
                rent,
            ).unwrap()[i],
        ),
    ensures
        Processor::spec_asks_rent(instruction_data),
        accounts[3].lamports == 0,
        Processor::spec_process(
            cfg,
            program_id,
            accounts,
            instruction_data,
            quote,
            rent,
        ).unwrap()[i] == (EffectView::WriteRecord {
            account: 3usize,
            initializer: accounts[0].key@,
            initializer_ata: accounts[1].key@,
        }),
{
}

} // verus!
