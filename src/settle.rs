use vstd::prelude::*;
use crate::accounts::{
    flags_slot, program_slot, schema_result, validate_accounts, Account, SlotRule,
};
use crate::authority::{authority_matches, verify_authority};
use crate::effect::{effects_result, only_data_changed, set_data, Effect};
use crate::error::DexError;
use crate::key::{keys_equal, Key};
use crate::state::{
    is_market_shape, is_user_shape, lemma_market_bytes_injective, lemma_user_bytes_injective,
    market_bytes, user_bytes, MarketState, UserAccount,
};

verus! {

/// The payload of a settlement: it carries nothing.
#[derive(Clone, Copy, Debug, PartialEq, Eq, Structural)]
pub struct Params {}

/// The account list of a settlement: token program, market, base vault, quote
/// vault, market signer, user account, its owner (signer), destination base
/// and destination quote token accounts.
pub open spec fn settle_rules(program: Key) -> Seq<SlotRule> {
    seq![
        SlotRule { signer: false, writable: false, owner: None, key: Some(Key::spl_token_program_spec()) },
        SlotRule { signer: false, writable: false, owner: Some(program), key: None },
        SlotRule { signer: false, writable: true, owner: None, key: None },
        SlotRule { signer: false, writable: true, owner: None, key: None },
        SlotRule { signer: false, writable: false, owner: None, key: None },
        SlotRule { signer: false, writable: true, owner: Some(program), key: None },
        SlotRule { signer: true, writable: false, owner: None, key: None },
        SlotRule { signer: false, writable: true, owner: None, key: None },
        SlotRule { signer: false, writable: true, owner: None, key: None },
    ]
}

pub fn settle_schema(program: Key) -> (r: Vec<SlotRule>)
    ensures
        r@ == settle_rules(program),
{
    let r = vec![
        program_slot(Key::spl_token_program()),
        SlotRule { signer: false, writable: false, owner: Some(program), key: None },
        flags_slot(false, true),
        flags_slot(false, true),
        flags_slot(false, false),
        SlotRule { signer: false, writable: true, owner: Some(program), key: None },
        flags_slot(true, false),
        flags_slot(false, true),
        flags_slot(false, true),
    ];
    assert(r@ =~= settle_rules(program));
    r
}

/// The accounts of a settlement, each bound to its slot.
pub struct Accounts<'a> {
    pub spl_token_program: &'a Account,
    pub market: &'a Account,
    pub base_vault: &'a Account,
    pub quote_vault: &'a Account,
    pub market_signer: &'a Account,
    pub user: &'a Account,
    pub user_owner: &'a Account,
    pub destination_base_account: &'a Account,
    pub destination_quote_account: &'a Account,
}

impl<'a> Accounts<'a> {
    /// Checks the account list against the schema of a settlement and binds each slot.
    pub fn parse(program_id: &Key, accounts: &'a Vec<Account>) -> (r: Result<Accounts<'a>, DexError>)
        ensures
            match r {
                Ok(a) => schema_result(accounts@, settle_rules(*program_id), true) is Ok
                    && *a.spl_token_program == accounts@[0] && *a.market == accounts@[1]
                    && *a.base_vault == accounts@[2] && *a.quote_vault == accounts@[3]
                    && *a.market_signer == accounts@[4] && *a.user == accounts@[5]
                    && *a.user_owner == accounts@[6] && *a.destination_base_account == accounts@[7]
                    && *a.destination_quote_account == accounts@[8],
                Err(e) => schema_result(accounts@, settle_rules(*program_id), true) == Err::<
                    (),
                    DexError,
                >(e),
            },
    {
        let rules = settle_schema(*program_id);
        validate_accounts(accounts, &rules, true)?;
        Ok(
            Accounts {
                spl_token_program: &accounts[0],
                market: &accounts[1],
                base_vault: &accounts[2],
                quote_vault: &accounts[3],
                market_signer: &accounts[4],
                user: &accounts[5],
                user_owner: &accounts[6],
                destination_base_account: &accounts[7],
                destination_quote_account: &accounts[8],
            },
        )
    }

    /// Reads the user record and checks that it belongs to the signing owner
    /// and to this market.
    pub fn load_user_account(&self) -> (r: Result<UserAccount, DexError>)
        ensures
            !is_user_shape(self.user.data@) ==> r == Err::<UserAccount, DexError>(
                DexError::StructuralError,
            ),
            forall|u: UserAccount|
                user_bytes(u) == self.user.data@ ==> if u.owner@ == self.user_owner.key@ && u.market@
                    == self.market.key@ {
                    r == Ok::<UserAccount, DexError>(u)
                } else {
                    r == Err::<UserAccount, DexError>(DexError::ArgumentError)
                },
    {
        let u = match UserAccount::from_bytes(&self.user.data) {
            Some(u) => u,
            None => return Err(DexError::StructuralError),
        };
        proof {
            assert forall|u2: UserAccount| user_bytes(u2) == self.user.data@ implies u2 == u by {
                lemma_user_bytes_injective(u2, u);
            }
        }
        if !keys_equal(&u.owner, &self.user_owner.key) || !keys_equal(&u.market, &self.market.key) {
            return Err(DexError::ArgumentError);
        }
        Ok(u)
    }
}

/// The checks of a settlement that read the two records, in order.
pub open spec fn settle_check(program: Seq<u8>, a: Seq<Account>, m: MarketState, u: UserAccount) -> Result<(), DexError> {
    if u.owner@ != a[6].key@ || u.market@ != a[1].key@ {
        Err(DexError::ArgumentError)
    } else if !authority_matches(a[1].key@, m.signer_nonce, program, a[4].key@) {
        Err(DexError::ArgumentError)
    } else if a[2].key@ != m.base_vault@ || a[3].key@ != m.quote_vault@ {
        Err(DexError::ArgumentError)
    } else {
        Ok(())
    }
}

/// The two transfers of a settlement: the free quote balance, then the free
/// base balance, each to its destination.
pub open spec fn settle_transfers(a: Seq<Account>, m: MarketState, u: UserAccount) -> Seq<Effect> {
    seq![
        Effect::TokenTransfer {
            source: a[3].key,
            destination: a[8].key,
            authority: a[4].key,
            amount: u.quote_free,
            market: a[1].key,
            signer_nonce: m.signer_nonce,
        },
        Effect::TokenTransfer {
            source: a[2].key,
            destination: a[7].key,
            authority: a[4].key,
            amount: u.base_free,
            market: a[1].key,
            signer_nonce: m.signer_nonce,
        },
    ]
}

/// The user record once its free balances have been paid out.
pub open spec fn settled(u: UserAccount) -> UserAccount {
    UserAccount { base_free: 0, quote_free: 0, ..u }
}

/// What `process_settle` guarantees of the accounts before and after the call and of its result.
pub open spec fn settle_post(program: Key, old: Seq<Account>, new: Seq<Account>, r: Result<Seq<Effect>, DexError>) -> bool {
    &&& (r is Err ==> new == old)
    &&& (schema_result(old, settle_rules(program), true) matches Err(e) ==> r == Err::<
            Seq<Effect>,
            DexError,
        >(e))
    &&& (schema_result(old, settle_rules(program), true) is Ok && (!is_market_shape(old[1].data@)
            || !is_user_shape(old[5].data@)) ==> r == Err::<Seq<Effect>, DexError>(
            DexError::StructuralError,
        ))
    &&& (forall|m: MarketState, u: UserAccount|
            schema_result(old, settle_rules(program), true) is Ok && market_bytes(m)
                == old[1].data@ && user_bytes(u) == old[5].data@ ==> match settle_check(
                program@,
                old,
                m,
                u,
            ) {
                Err(e) => r == Err::<Seq<Effect>, DexError>(e),
                Ok(_) => r matches Ok(v) && v == settle_transfers(old, m, u)
                    && only_data_changed(old, new, 5, user_bytes(settled(u))),
            })
}

/// Pays a user's free balances out of the vaults and zeroes them.
pub fn process_settle(program_id: &Key, accounts: &mut Vec<Account>, params: Params) -> (r: Result<
    Vec<Effect>,
    DexError,
>)
    ensures
        settle_post(*program_id, old(accounts)@, final(accounts)@, effects_result(r)),
{
    let Params {} = params;
    let a = Accounts::parse(program_id, accounts)?;
    let m = match MarketState::from_bytes(&a.market.data) {
        Some(m) => m,
        None => return Err(DexError::StructuralError),
    };
    proof {
        assert forall|m2: MarketState| market_bytes(m2) == old(accounts)@[1].data@ implies m2 == m by {
            lemma_market_bytes_injective(m2, m);
        }
    }
    let u = a.load_user_account()?;
    proof {
        assert forall|u2: UserAccount| user_bytes(u2) == old(accounts)@[5].data@ implies u2 == u by {
            lemma_user_bytes_injective(u2, u);
        }
    }
    verify_authority(&a.market.key, m.signer_nonce, program_id, &a.market_signer.key)?;
    if !keys_equal(&a.base_vault.key, &m.base_vault) || !keys_equal(&a.quote_vault.key, &m.quote_vault) {
        return Err(DexError::ArgumentError);
    }
    let quote = Effect::TokenTransfer {
        source: a.quote_vault.key,
        destination: a.destination_quote_account.key,
        authority: a.market_signer.key,
        amount: u.quote_free,
        market: a.market.key,
        signer_nonce: m.signer_nonce,
    };
    let base = Effect::TokenTransfer {
        source: a.base_vault.key,
        destination: a.destination_base_account.key,
        authority: a.market_signer.key,
        amount: u.base_free,
        market: a.market.key,
        signer_nonce: m.signer_nonce,
    };
    let cleared = UserAccount { base_free: 0, quote_free: 0, ..u };
    set_data(accounts, 5, cleared.to_bytes());
    let effects = vec![quote, base];
    assert(effects@ =~= settle_transfers(old(accounts)@, m, u));
    Ok(effects)
}

} // verus!

verus! {

/// The amount a token transfer moves; zero for any other effect.
pub open spec fn effect_amount(e: Effect) -> u64 {
    match e {
        Effect::TokenTransfer { amount, .. } => amount,
        _ => 0,
    }
}

/// A settlement repeated on the accounts the first one left passes the same
/// checks, transfers zero of each token, and leaves the balances at zero.
pub proof fn lemma_settle_idempotent_at_zero(
    program: Key,
    a: Seq<Account>,
    a2: Seq<Account>,
    m: MarketState,
    u: UserAccount,
)
    requires
        schema_result(a, settle_rules(program), true) is Ok,
        settle_check(program@, a, m, u) is Ok,
        market_bytes(m) == a[1].data@,
        only_data_changed(a, a2, 5, user_bytes(settled(u))),
    ensures
        schema_result(a2, settle_rules(program), true) is Ok,
        market_bytes(m) == a2[1].data@,
        user_bytes(settled(u)) == a2[5].data@,
        settle_check(program@, a2, m, settled(u)) is Ok,
        effect_amount(settle_transfers(a2, m, settled(u))[0]) == 0,
        effect_amount(settle_transfers(a2, m, settled(u))[1]) == 0,
        settled(settled(u)) == settled(u),
{
    let rules = settle_rules(program);
    assert forall|i: int| 0 <= i < rules.len() implies crate::accounts::signer_ok(a2[i], rules[i])
        == crate::accounts::signer_ok(a[i], rules[i]) && crate::accounts::writable_ok(a2[i], rules[i])
        == crate::accounts::writable_ok(a[i], rules[i]) && crate::accounts::identity_ok(a2[i], rules[i])
        == crate::accounts::identity_ok(a[i], rules[i]) by {
        if i != 5 {
            assert(a2[i] == a[i]);
        }
    }
}

} // verus!
