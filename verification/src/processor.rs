use crate::account::AccountInfo;
use crate::address::Address;
use crate::config::{Config, ExchangeQuote};
use crate::error::ProgramError;
use crate::instruction::ProgramInstruction;
use crate::ledger::{plan_view, Effect, EffectView};
use vstd::prelude::*;

verus! {

/// The instruction processor of the sale. Each operation checks the accounts
/// and the payload it was handed, in a fixed order, and answers with the first
/// failure or with the plan of what is to be done to the ledger. It changes
/// nothing itself: a rejected operation has no plan, so nothing of it can
/// take effect.
pub struct Processor;

/// Whether an operation's answer is the expected one: the same failure, or a
/// plan with the same steps.
pub open spec fn plan_matches(
    r: Result<Vec<Effect>, ProgramError>,
    expected: Result<Seq<EffectView>, ProgramError>,
) -> bool {
    match r {
        Ok(plan) => expected == Ok::<Seq<EffectView>, ProgramError>(plan_view(plan@)),
        Err(e) => expected == Err::<Seq<EffectView>, ProgramError>(e),
    }
}

/// A step that is taken only under a condition.
pub open spec fn step_if(condition: bool, step: EffectView) -> Seq<EffectView> {
    if condition {
        seq![step]
    } else {
        Seq::empty()
    }
}

impl Processor {
    /// The answer to instruction data: the data is decoded, and the
    /// operation it names is decided on the accounts. `quote` prices an
    /// exchange; `rent` is the rent-exempt balance of a record account as the
    /// ledger states it, which only the opening of a sale asks for.
    pub open spec fn spec_process(
        cfg: Config,
        program_id: Seq<u8>,
        accounts: Seq<AccountInfo>,
        instruction_data: Seq<u8>,
        quote: ExchangeQuote,
        rent: Option<u64>,
    ) -> Result<Seq<EffectView>, ProgramError> {
        match ProgramInstruction::spec_unpack(instruction_data) {
            Err(e) => Err(e),
            Ok(ProgramInstruction::InitializeICO) => Self::spec_initialize_ico(
                cfg,
                program_id,
                accounts,
                rent,
            ),
            Ok(ProgramInstruction::ExchangeClashToken { data }) => Self::spec_exchange_clash_token(
                cfg,
                program_id,
                accounts,
                data,
                quote,
            ),
            Ok(ProgramInstruction::ExecuteClashPayment { data }) =>
                Self::spec_execute_clash_payment(cfg, program_id, accounts, data),
            Ok(ProgramInstruction::TerminateICO) => Self::spec_terminate_ico(
                cfg,
                program_id,
                accounts,
            ),
            Ok(ProgramInstruction::InvalidInstruction) => Err(
                ProgramError::InvalidInstructionData,
            ),
        }
    }

    /// Whether instruction data asks to open a sale: the one operation whose
    /// answer depends on what the ledger says of rent.
    pub open spec fn spec_asks_rent(instruction_data: Seq<u8>) -> bool {
        ProgramInstruction::spec_unpack(instruction_data) == Ok::<
            ProgramInstruction,
            ProgramError,
        >(ProgramInstruction::InitializeICO)
    }

    /// Decodes instruction data and decides the operation it names, given
    /// the rent-exempt balance of a record account.
    pub fn process_with_rent(
        cfg: &Config,
        program_id: &Address,
        accounts: &[AccountInfo],
        instruction_data: &[u8],
        quote: &ExchangeQuote,
        rent: Option<u64>,
    ) -> (r: Result<Vec<Effect>, ProgramError>)
        ensures
            plan_matches(
                r,
                Self::spec_process(
                    *cfg,
                    program_id@,
                    accounts@,
                    instruction_data@,
                    *quote,
                    rent,
                ),
            ),
    {
        match ProgramInstruction::unpack(instruction_data)? {
            ProgramInstruction::InitializeICO => Self::initialize_ico_with_rent(
                cfg,
                program_id,
                accounts,
                rent,
            ),
            ProgramInstruction::ExchangeClashToken { data } => Self::exchange_clash_token(
                cfg,
                program_id,
                accounts,
                &data,
                quote,
            ),
            ProgramInstruction::ExecuteClashPayment { data } => Self::execute_clash_payment(
                cfg,
                program_id,
                accounts,
                &data,
            ),
            ProgramInstruction::TerminateICO => Self::terminate_ico(cfg, program_id, accounts),
            ProgramInstruction::InvalidInstruction => Err(ProgramError::InvalidInstructionData),
        }
    }

    /// Decodes instruction data and decides the operation it names. Where
    /// that opens a sale, the ledger is asked for its rent, and the answer is
    /// the one that `process_with_rent` gives for what the ledger said; every
    /// other operation is decided by the data and the accounts alone.
    pub fn process(
        cfg: &Config,
        program_id: &Address,
        accounts: &[AccountInfo],
        instruction_data: &[u8],
        quote: &ExchangeQuote,
    ) -> (r: Result<Vec<Effect>, ProgramError>)
        ensures
            exists|rent: Option<u64>|
                plan_matches(
                    r,
                    #[trigger] Self::spec_process(
                        *cfg,
                        program_id@,
                        accounts@,
                        instruction_data@,
                        *quote,
                        rent,
                    ),
                ),
            !Self::spec_asks_rent(instruction_data@) ==> plan_matches(
                r,
                Self::spec_process(
                    *cfg,
                    program_id@,
                    accounts@,
                    instruction_data@,
                    *quote,
                    None,
                ),
            ),
    {
        match ProgramInstruction::unpack(instruction_data) {
            Ok(ProgramInstruction::InitializeICO) => {
                let r = Self::initialize_ico(cfg, program_id, accounts);
                proof {
                    let rent = choose|rent: Option<u64>|
                        plan_matches(
                            r,
                            #[trigger] Self::spec_initialize_ico(
                                *cfg,
                                program_id@,
                                accounts@,
                                rent,
                            ),
                        );
                    assert(plan_matches(
                        r,
                        Self::spec_process(
                            *cfg,
                            program_id@,
                            accounts@,
                            instruction_data@,
                            *quote,
                            rent,
                        ),
                    ));
                }
                r
            },
            _ => {
                let r = Self::process_with_rent(
                    cfg,
                    program_id,
                    accounts,
                    instruction_data,
                    quote,
                    None,
                );
                proof {
                    assert(plan_matches(
                        r,
                        Self::spec_process(
                            *cfg,
                            program_id@,
                            accounts@,
                            instruction_data@,
                            *quote,
                            None,
                        ),
                    ));
                }
                r
            },
        }
    }
}

} // verus!
