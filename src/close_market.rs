use vstd::prelude::*;
use crate::accounts::{flags_slot, schema_result, validate_accounts, Account, SlotRule};
use crate::authority::{authority_matches, verify_authority};
use crate::effect::{unit_result, Effect, close_into, closed_into};
use crate::error::DexError;
use crate::key::{keys_equal, Key};
use crate::state::{is_market_shape, lemma_market_bytes_injective, market_bytes, MarketState};
use crate::token::{token_account_ok, token_amount, unpack_token_account};

verus! {

/// The account list of a market closure: market, base vault, quote vault,
/// market signer, orderbook, event queue, bids, asks, matching program, admin
/// (signer), the account that receives the lamports.
pub open spec fn close_market_rules(program: Key) -> Seq<SlotRule> {
    seq![
        SlotRule { signer: false, writable: true, owner: Some(program), key: None },
        SlotRule { signer: false, writable: true, owner: None, key: None },
        SlotRule { signer: false, writable: true, owner: None, key: None },
        SlotRule { signer: false, writable: false, owner: None, key: None },
        SlotRule { signer: false, writable: true, owner: None, key: None },
        SlotRule { signer: false, writable: true, owner: None, key: None },
        SlotRule { signer: false, writable: true, owner: None, key: None },
        SlotRule { signer: false, writable: true, owner: None, key: None },
        SlotRule { signer: false, writable: false, owner: None, key: None },
        SlotRule { signer: true, writable: false, owner: None, key: None },
        SlotRule { signer: false, writable: true, owner: None, key: None },
    ]
}

pub fn close_market_schema(program: Key) -> (r: Vec<SlotRule>)
    ensures
        r@ == close_market_rules(program),
{
    let r = vec![
        SlotRule { signer: false, writable: true, owner: Some(program), key: None },
        flags_slot(false, true),
        flags_slot(false, true),
        flags_slot(false, false),
        flags_slot(false, true),
        flags_slot(false, true),
        flags_slot(false, true),
        flags_slot(false, true),
        flags_slot(false, false),
        flags_slot(true, false),
        flags_slot(false, true),
    ];
    assert(r@ =~= close_market_rules(program));
    r
}

/// The checks of a market closure that read the record and the vaults, in order.
pub open spec fn close_market_check(program: Seq<u8>, a: Seq<Account>, m: MarketState) -> Result<(), DexError> {
    if !authority_matches(a[0].key@, m.signer_nonce, program, a[3].key@) {
        Err(DexError::ArgumentError)
    } else if a[1].key@ != m.base_vault@ || a[2].key@ != m.quote_vault@ || a[4].key@ != m.orderbook@
        || a[8].key@ != m.aaob_program@ || a[9].key@ != m.admin@ {
        Err(DexError::ArgumentError)
    } else if !token_account_ok(a[1].data@) || !token_account_ok(a[2].data@) {
        Err(DexError::StructuralError)
    } else if token_amount(a[1].data@) != 0 || token_amount(a[2].data@) != 0 {
        Err(DexError::AccountNotEmpty)
    } else if a[0].lamports + a[10].lamports > u64::MAX {
        Err(DexError::BalanceOverflow)
    } else {
        Ok(())
    }
}

/// What `process_close_market` guarantees of the accounts before and after the call and of its result.
pub open spec fn close_market_post(program: Key, old: Seq<Account>, new: Seq<Account>, r: Result<Seq<Effect>, DexError>) -> bool {
    &&& (r is Err ==> new == old)
    &&& (schema_result(old, close_market_rules(program), true) matches Err(e) ==> r
            == Err::<Seq<Effect>, DexError>(e))
    &&& (schema_result(old, close_market_rules(program), true) is Ok
            && !is_market_shape(old[0].data@) ==> r == Err::<Seq<Effect>, DexError>(
            DexError::StructuralError))
    &&& (forall|m: MarketState|
            schema_result(old, close_market_rules(program), true) is Ok
                && market_bytes(m) == old[0].data@ ==> match close_market_check(
                program@,
                old,
                m,
            ) {
                Err(e) => r == Err::<Seq<Effect>, DexError>(e),
                Ok(_) => r is Ok && closed_into(old, new, 0, 10),
            })
}

/// Closes a market whose vaults are empty and returns its lamports to the target.
pub fn process_close_market(program_id: &Key, accounts: &mut Vec<Account>) -> (r: Result<(), DexError>)
    ensures
        close_market_post(*program_id, old(accounts)@, final(accounts)@, unit_result(r)),
{
    let rules = close_market_schema(*program_id);
    validate_accounts(accounts, &rules, true)?;
    let m = match MarketState::from_bytes(&accounts[0].data) {
        Some(m) => m,
        None => return Err(DexError::StructuralError),
    };
    proof {
        assert forall|m2: MarketState| market_bytes(m2) == old(accounts)@[0].data@ implies m2 == m by {
            lemma_market_bytes_injective(m2, m);
        }
    }
    verify_authority(&accounts[0].key, m.signer_nonce, program_id, &accounts[3].key)?;
    if !keys_equal(&accounts[1].key, &m.base_vault) || !keys_equal(&accounts[2].key, &m.quote_vault)
        || !keys_equal(&accounts[4].key, &m.orderbook) || !keys_equal(
        &accounts[8].key,
        &m.aaob_program,
    ) || !keys_equal(&accounts[9].key, &m.admin) {
        return Err(DexError::ArgumentError);
    }
    let base = unpack_token_account(&accounts[1].data);
    let quote = unpack_token_account(&accounts[2].data);
    let (base_amount, quote_amount) = match (base, quote) {
        (Some((_, b)), Some((_, q))) => (b, q),
        _ => return Err(DexError::StructuralError),
    };
    if base_amount != 0 || quote_amount != 0 {
        return Err(DexError::AccountNotEmpty);
    }
    if accounts[0].lamports > u64::MAX - accounts[10].lamports {
        return Err(DexError::BalanceOverflow);
    }
    close_into(accounts, 0, 10);
    Ok(())
}

} // verus!
