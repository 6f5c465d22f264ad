use vstd::prelude::*;
use crate::accounts::{flags_slot, schema_result, validate_accounts, Account, SlotRule};
use crate::effect::{unit_result, Effect, close_into, closed_into};
use crate::error::DexError;
use crate::key::{keys_equal, Key};
use crate::state::{is_user_shape, lemma_user_bytes_injective, user_bytes, UserAccount};

verus! {

/// The account list of an account closure: user account, its owner (signer),
/// the account that receives the lamports.
pub open spec fn close_account_rules(program: Key) -> Seq<SlotRule> {
    seq![
        SlotRule { signer: false, writable: true, owner: Some(program), key: None },
        SlotRule { signer: true, writable: false, owner: None, key: None },
        SlotRule { signer: false, writable: true, owner: None, key: None },
    ]
}

pub fn close_account_schema(program: Key) -> (r: Vec<SlotRule>)
    ensures
        r@ == close_account_rules(program),
{
    let r = vec![
        SlotRule { signer: false, writable: true, owner: Some(program), key: None },
        flags_slot(true, false),
        flags_slot(false, true),
    ];
    assert(r@ =~= close_account_rules(program));
    r
}

/// No balance and no open order is left in the record.
pub open spec fn user_is_empty(u: UserAccount) -> bool {
    &&& u.base_free == 0
    &&& u.base_locked == 0
    &&& u.quote_free == 0
    &&& u.quote_locked == 0
    &&& u.open_orders == 0
}

/// The checks of an account closure that read the record, in order.
pub open spec fn close_account_check(a: Seq<Account>, u: UserAccount) -> Result<(), DexError> {
    if u.owner@ != a[1].key@ {
        Err(DexError::ArgumentError)
    } else if !user_is_empty(u) {
        Err(DexError::AccountNotEmpty)
    } else if a[0].lamports + a[2].lamports > u64::MAX {
        Err(DexError::BalanceOverflow)
    } else {
        Ok(())
    }
}

/// What `process_close_account` guarantees of the accounts before and after the call and of its result.
pub open spec fn close_account_post(program: Key, old: Seq<Account>, new: Seq<Account>, r: Result<Seq<Effect>, DexError>) -> bool {
    &&& (r is Err ==> new == old)
    &&& (schema_result(old, close_account_rules(program), true) matches Err(e) ==> r
            == Err::<Seq<Effect>, DexError>(e))
    &&& (schema_result(old, close_account_rules(program), true) is Ok
            && !is_user_shape(old[0].data@) ==> r == Err::<Seq<Effect>, DexError>(
            DexError::StructuralError))
    &&& (forall|u: UserAccount|
            schema_result(old, close_account_rules(program), true) is Ok && user_bytes(u)
                == old[0].data@ ==> match close_account_check(old, u) {
                Err(e) => r == Err::<Seq<Effect>, DexError>(e),
                Ok(_) => r is Ok && closed_into(old, new, 0, 2),
            })
    &&& (forall|u: UserAccount|
            user_bytes(u) == old[0].data@ && r is Ok ==> user_is_empty(u))
    &&& (forall|u: UserAccount|
            schema_result(old, close_account_rules(program), true) is Ok && user_bytes(u)
                == old[0].data@ && u.owner@ == old[1].key@ && !user_is_empty(u)
                ==> r == Err::<Seq<Effect>, DexError>(DexError::AccountNotEmpty))
}

/// Closes an empty user account and returns its lamports to the target.
pub fn process_close_account(program_id: &Key, accounts: &mut Vec<Account>) -> (r: Result<(), DexError>)
    ensures
        close_account_post(*program_id, old(accounts)@, final(accounts)@, unit_result(r)),
{
    let rules = close_account_schema(*program_id);
    validate_accounts(accounts, &rules, true)?;
    let u = match UserAccount::from_bytes(&accounts[0].data) {
        Some(u) => u,
        None => return Err(DexError::StructuralError),
    };
    proof {
        assert forall|u2: UserAccount| user_bytes(u2) == old(accounts)@[0].data@ implies u2 == u by {
            lemma_user_bytes_injective(u2, u);
        }
    }
    if !keys_equal(&u.owner, &accounts[1].key) {
        return Err(DexError::ArgumentError);
    }
    if u.base_free != 0 || u.base_locked != 0 || u.quote_free != 0 || u.quote_locked != 0
        || u.open_orders != 0 {
        return Err(DexError::AccountNotEmpty);
    }
    if accounts[0].lamports > u64::MAX - accounts[2].lamports {
        return Err(DexError::BalanceOverflow);
    }
    close_into(accounts, 0, 2);
    Ok(())
}

} // verus!
