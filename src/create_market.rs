use vstd::prelude::*;
use crate::accounts::{flags_slot, schema_result, validate_accounts, Account, SlotRule};
use crate::authority::{derive_authority, found_by_search, program_address};
use crate::effect::{unit_result, Effect, only_data_changed, set_data};
use crate::error::DexError;
use crate::key::{keys_equal, Key};
use crate::state::{market_bytes, MarketState, MARKET_LEN};
use crate::token::{token_account_ok, token_owner, unpack_token_account};

verus! {

/// The payload of a market creation.
#[derive(Clone, Copy, Debug, PartialEq, Eq, Structural)]
pub struct CreateMarketParams {
    /// Quote units paid to a crank per applied event.
    pub crank_reward: u64,
}

/// The account list of a market creation: market, orderbook, base vault,
/// quote vault, matching program, admin (signer).
pub open spec fn create_market_rules(program: Key) -> Seq<SlotRule> {
    seq![
        SlotRule { signer: false, writable: true, owner: Some(program), key: None },
        SlotRule { signer: false, writable: false, owner: None, key: None },
        SlotRule { signer: false, writable: false, owner: Some(Key::spl_token_program_spec()), key: None },
        SlotRule { signer: false, writable: false, owner: Some(Key::spl_token_program_spec()), key: None },
        SlotRule { signer: false, writable: false, owner: None, key: None },
        SlotRule { signer: true, writable: false, owner: None, key: None },
    ]
}

pub fn create_market_schema(program: Key) -> (r: Vec<SlotRule>)
    ensures
        r@ == create_market_rules(program),
{
    let spl = Key::spl_token_program();
    let r = vec![
        SlotRule { signer: false, writable: true, owner: Some(program), key: None },
        flags_slot(false, false),
        SlotRule { signer: false, writable: false, owner: Some(spl), key: None },
        SlotRule { signer: false, writable: false, owner: Some(spl), key: None },
        flags_slot(false, false),
        flags_slot(true, false),
    ];
    assert(r@ =~= create_market_rules(program));
    r
}

/// The checks of a market creation made before the authority is derived, in order.
pub open spec fn create_market_precheck(a: Seq<Account>) -> Result<(), DexError> {
    if a[0].data@.len() != MARKET_LEN {
        Err(DexError::StructuralError)
    } else if a[0].data@[0] != 0 {
        Err(DexError::AlreadyInitialized)
    } else if a[1].owner@ != a[4].key@ {
        Err(DexError::OwnershipError)
    } else {
        Ok(())
    }
}

/// The checks of the two vaults against the derived authority, in order.
pub open spec fn create_market_vault_check(a: Seq<Account>, authority: Seq<u8>) -> Result<(), DexError> {
    if !token_account_ok(a[2].data@) || !token_account_ok(a[3].data@) {
        Err(DexError::StructuralError)
    } else if token_owner(a[2].data@) != authority || token_owner(a[3].data@) != authority {
        Err(DexError::ArgumentError)
    } else {
        Ok(())
    }
}

/// The record that a market creation writes.
pub open spec fn created_market(a: Seq<Account>, bump: u8, params: CreateMarketParams) -> MarketState {
    MarketState {
        signer_nonce: bump,
        admin: a[5].key,
        base_vault: a[2].key,
        quote_vault: a[3].key,
        aaob_program: a[4].key,
        orderbook: a[1].key,
        accumulated_fees: 0,
        crank_reward: params.crank_reward,
    }
}

/// What `process_create_market` guarantees of the accounts before and after the call and of its result.
pub open spec fn create_market_post(program: Key, old: Seq<Account>, new: Seq<Account>, params: CreateMarketParams, r: Result<Seq<Effect>, DexError>) -> bool {
    &&& (r is Err ==> new == old)
    &&& (schema_result(old, create_market_rules(program), true) matches Err(e) ==> r
            == Err::<Seq<Effect>, DexError>(e))
    &&& (schema_result(old, create_market_rules(program), true) is Ok
            ==> match create_market_precheck(old) {
            Err(e) => r == Err::<Seq<Effect>, DexError>(e),
            Ok(_) => {
                &&& (forall|c: u8| 1 <= c ==> program_address(old[0].key@, c, program@) is None)
                    ==> r == Err::<Seq<Effect>, DexError>(DexError::DerivationError)
                &&& forall|k: Seq<u8>, b: u8|
                    found_by_search(old[0].key@, program@, k, b)
                        ==> match create_market_vault_check(old, k) {
                        Err(e) => r == Err::<Seq<Effect>, DexError>(e),
                        Ok(_) => r is Ok && only_data_changed(
                            old,
                            new,
                            0,
                            market_bytes(created_market(old, b, params)),
                        ),
                    }
            },
        })
}

/// Creates a market record whose vaults are held by the market's derived authority.
pub fn process_create_market(
    program_id: &Key,
    accounts: &mut Vec<Account>,
    params: CreateMarketParams,
) -> (r: Result<(), DexError>)
    ensures
        create_market_post(*program_id, old(accounts)@, final(accounts)@, params, unit_result(r)),
{
    let rules = create_market_schema(*program_id);
    validate_accounts(accounts, &rules, true)?;
    if accounts[0].data.len() != MARKET_LEN {
        return Err(DexError::StructuralError);
    }
    if accounts[0].data[0] != 0 {
        return Err(DexError::AlreadyInitialized);
    }
    if !keys_equal(&accounts[1].owner, &accounts[4].key) {
        return Err(DexError::OwnershipError);
    }
    let (authority, bump) = derive_authority(&accounts[0].key, program_id)?;
    proof {
        assert forall|k: Seq<u8>, b: u8|
            found_by_search(old(accounts)@[0].key@, program_id@, k, b) implies k == authority@ && b
            == bump by {
            if b < bump {
                assert(program_address(old(accounts)@[0].key@, bump, program_id@) is None);
            } else if bump < b {
                assert(program_address(old(accounts)@[0].key@, b, program_id@) is None);
            }
        }
    }
    let base_owner = match unpack_token_account(&accounts[2].data) {
        Some((o, _)) => o,
        None => return Err(DexError::StructuralError),
    };
    let quote_owner = match unpack_token_account(&accounts[3].data) {
        Some((o, _)) => o,
        None => return Err(DexError::StructuralError),
    };
    if !keys_equal(&base_owner, &authority) || !keys_equal(&quote_owner, &authority) {
        return Err(DexError::ArgumentError);
    }
    let m = MarketState {
        signer_nonce: bump,
        admin: accounts[5].key,
        base_vault: accounts[2].key,
        quote_vault: accounts[3].key,
        aaob_program: accounts[4].key,
        orderbook: accounts[1].key,
        accumulated_fees: 0,
        crank_reward: params.crank_reward,
    };
    set_data(accounts, 0, m.to_bytes());
    Ok(())
}

} // verus!

verus! {

/// The record a market creation writes holds a bump from which the authority
/// that holds both vaults is derived again.
pub proof fn lemma_created_market_rederives(
    program: Key,
    a: Seq<Account>,
    authority: Seq<u8>,
    bump: u8,
    params: CreateMarketParams,
)
    requires
        found_by_search(a[0].key@, program@, authority, bump),
        create_market_vault_check(a, authority) is Ok,
    ensures
        crate::authority::authority_matches(
            a[0].key@,
            created_market(a, bump, params).signer_nonce,
            program@,
            authority,
        ),
        token_owner(a[2].data@) == authority,
        token_owner(a[3].data@) == authority,
{
    crate::authority::lemma_found_authority_verifies(a[0].key@, program@, authority, bump);
}

} // verus!
