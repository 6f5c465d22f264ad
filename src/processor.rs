use vstd::prelude::*;
use crate::accounts::Account;
use crate::close_account::{close_account_post, process_close_account};
use crate::close_market::{close_market_post, process_close_market};
use crate::consume_events::{consume_events_post, process_consume_events, Outcome};
use crate::create_market::{create_market_post, process_create_market};
use crate::crank::Event;
use crate::effect::Effect;
use crate::error::DexError;
use crate::initialize_account::{initialize_account_post, process_initialize_account};
use crate::instruction::{
    decodable, decode_instruction, instruction_bytes, lemma_instruction_bytes_decodable, lemma_instruction_bytes_injective, DexCall,
};
use crate::key::Key;
use crate::settle::{process_settle, settle_post};
use crate::sweep_fees::{process_sweep_fees, sweep_fees_post};

verus! {

/// The effects of an outcome.
pub open spec fn outcome_effects(r: Result<Outcome, DexError>) -> Result<Seq<Effect>, DexError> {
    match r {
        Ok(o) => Ok(o.effects@),
        Err(e) => Err(e),
    }
}

/// What `process` guarantees for one decoded instruction.
pub open spec fn process_post(
    program: Key,
    old: Seq<Account>,
    new: Seq<Account>,
    events: Seq<Event>,
    c: DexCall,
    r: Result<Outcome, DexError>,
) -> bool {
    match c {
        DexCall::CreateMarket(p) => create_market_post(program, old, new, p, outcome_effects(r)),
        DexCall::ConsumeEvents(p) => consume_events_post(program, old, new, events, p, r),
        DexCall::Settle(_) => settle_post(program, old, new, outcome_effects(r)),
        DexCall::InitializeAccount(p) => initialize_account_post(program, old, new, p, outcome_effects(r)),
        DexCall::SweepFees => sweep_fees_post(program, old, new, outcome_effects(r)),
        DexCall::CloseAccount => close_account_post(program, old, new, outcome_effects(r)),
        DexCall::CloseMarket => close_market_post(program, old, new, outcome_effects(r)),
        _ => r == Err::<Outcome, DexError>(DexError::InvalidInstruction) && new == old,
    }
}

/// The outcome of a handler that consumes no event.
fn effects_only(effects: Vec<Effect>) -> (r: Outcome)
    ensures
        r.effects@ == effects@,
        r.consumed == 0,
{
    Outcome { consumed: 0, applied: 0, skipped: 0, effects }
}

/// Decodes an instruction and runs its handler on the account list. Order
/// placement and cancellation run in the matching program, not here: their
/// payloads decode, and this entry point refuses them.
pub fn process(program_id: &Key, accounts: &mut Vec<Account>, data: &Vec<u8>, events: &Vec<Event>) -> (r: Result<
    Outcome,
    DexError,
>)
    ensures
        !decodable(data@) ==> r == Err::<Outcome, DexError>(DexError::InvalidInstruction)
            && final(accounts)@ == old(accounts)@,
        forall|c: DexCall|
            instruction_bytes(c) == data@ ==> process_post(
                *program_id,
                old(accounts)@,
                final(accounts)@,
                events@,
                c,
                r,
            ),
{
    let c = match decode_instruction(data) {
        Some(c) => c,
        None => {
            proof {
                assert forall|c2: DexCall| instruction_bytes(c2) != data@ by {
                    lemma_instruction_bytes_decodable(c2);
                }
            }
            return Err(DexError::InvalidInstruction);
        },
    };
    proof {
        assert forall|c2: DexCall| instruction_bytes(c2) == data@ implies c2 == c by {
            lemma_instruction_bytes_injective(c2, c);
        }
    }
    match c {
        DexCall::CreateMarket(p) => {
            process_create_market(program_id, accounts, p)?;
            Ok(effects_only(Vec::new()))
        },
        DexCall::ConsumeEvents(p) => process_consume_events(program_id, accounts, events, p),
        DexCall::Settle(p) => {
            let effects = process_settle(program_id, accounts, p)?;
            Ok(effects_only(effects))
        },
        DexCall::InitializeAccount(p) => {
            let effects = process_initialize_account(program_id, accounts, p)?;
            Ok(effects_only(effects))
        },
        DexCall::SweepFees => {
            let effects = process_sweep_fees(program_id, accounts)?;
            Ok(effects_only(effects))
        },
        DexCall::CloseAccount => {
            process_close_account(program_id, accounts)?;
            Ok(effects_only(Vec::new()))
        },
        DexCall::CloseMarket => {
            process_close_market(program_id, accounts)?;
            Ok(effects_only(Vec::new()))
        },
        _ => Err(DexError::InvalidInstruction),
    }
}

} // verus!
