use vstd::prelude::*;
use crate::accounts::{flags_slot, program_slot, schema_result, validate_accounts, Account, SlotRule};
use crate::effect::{effects_result, allocate, allocated, Effect};
use crate::error::DexError;
use crate::key::Key;
use crate::state::{user_bytes, UserAccount, USER_LEN};

verus! {

/// The payload of an account initialisation.
#[derive(Clone, Copy, Debug, PartialEq, Eq)]
pub struct InitializeAccountParams {
    /// The market the new account trades on.
    pub market: Key,
}

/// The account list of an account initialisation: system program, the account
/// to initialise, its owner (signer), the fee payer (signer).
pub open spec fn initialize_account_rules() -> Seq<SlotRule> {
    seq![
        SlotRule { signer: false, writable: false, owner: None, key: Some(Key::system_program_spec()) },
        SlotRule { signer: false, writable: true, owner: None, key: None },
        SlotRule { signer: true, writable: false, owner: None, key: None },
        SlotRule { signer: true, writable: true, owner: None, key: None },
    ]
}

pub fn initialize_account_schema() -> (r: Vec<SlotRule>)
    ensures
        r@ == initialize_account_rules(),
{
    let r = vec![
        program_slot(Key::system_program()),
        flags_slot(false, true),
        flags_slot(true, false),
        flags_slot(true, true),
    ];
    assert(r@ =~= initialize_account_rules());
    r
}

/// The allocation that an account initialisation asks of the host.
pub open spec fn initialize_allocation(program: Key, a: Seq<Account>) -> Effect {
    Effect::CreateAccount { payer: a[3].key, account: a[1].key, space: USER_LEN as u64, owner: program }
}

/// The fresh record of `owner` on `market`.
pub open spec fn fresh_user(owner: Key, market: Key) -> UserAccount {
    UserAccount {
        owner,
        market,
        base_free: 0,
        base_locked: 0,
        quote_free: 0,
        quote_locked: 0,
        open_orders: 0,
    }
}

/// What `process_initialize_account` guarantees of the accounts before and after the call and of its result.
pub open spec fn initialize_account_post(program: Key, old: Seq<Account>, new: Seq<Account>, params: InitializeAccountParams, r: Result<Seq<Effect>, DexError>) -> bool {
    &&& (r is Err ==> new == old)
    &&& (schema_result(old, initialize_account_rules(), true) matches Err(e) ==> r == Err::<
            Seq<Effect>,
            DexError,
        >(e))
    &&& (schema_result(old, initialize_account_rules(), true) is Ok
            ==> if old[1].data@.len() != 0 {
                r == Err::<Seq<Effect>, DexError>(DexError::AlreadyInitialized)
            } else {
                r matches Ok(v) && v == seq![initialize_allocation(program, old)]
                    && allocated(
                    old,
                    new,
                    1,
                    program,
                    user_bytes(fresh_user(old[2].key, params.market)),
                )
            })
}

/// Allocates and zero-initialises the record of a trader on a market.
pub fn process_initialize_account(
    program_id: &Key,
    accounts: &mut Vec<Account>,
    params: InitializeAccountParams,
) -> (r: Result<Vec<Effect>, DexError>)
    ensures
        initialize_account_post(*program_id, old(accounts)@, final(accounts)@, params, effects_result(r)),
{
    let rules = initialize_account_schema();
    validate_accounts(accounts, &rules, true)?;
    if accounts[1].data.len() != 0 {
        return Err(DexError::AlreadyInitialized);
    }
    let alloc = Effect::CreateAccount {
        payer: accounts[3].key,
        account: accounts[1].key,
        space: USER_LEN as u64,
        owner: *program_id,
    };
    let u = UserAccount::new(accounts[2].key, params.market);
    allocate(accounts, 1, *program_id, u.to_bytes());
    let effects = vec![alloc];
    assert(effects@ =~= seq![initialize_allocation(*program_id, old(accounts)@)]);
    Ok(effects)
}

} // verus!
