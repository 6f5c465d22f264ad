use vstd::prelude::*;
use crate::accounts::{
    any_slot, flags_slot, owned_slot, program_slot, schema_result, validate_accounts, Account,
    SlotRule,
};
use crate::authority::{authority_matches, verify_authority};
use crate::effect::{effects_result, only_data_changed, set_data, Effect};
use crate::error::DexError;
use crate::key::{keys_equal, Key};
use crate::state::{is_market_shape, lemma_market_bytes_injective, market_bytes, MarketState};

verus! {

/// The account list of a fee sweep: market, market signer, admin (signer),
/// quote vault, destination token account, token program.
pub open spec fn sweep_fees_rules(program: Key) -> Seq<SlotRule> {
    seq![
        SlotRule { signer: false, writable: true, owner: Some(program), key: None },
        SlotRule { signer: false, writable: false, owner: None, key: None },
        SlotRule { signer: true, writable: false, owner: None, key: None },
        SlotRule { signer: false, writable: true, owner: None, key: None },
        SlotRule { signer: false, writable: true, owner: None, key: None },
        SlotRule { signer: false, writable: false, owner: None, key: Some(Key::spl_token_program_spec()) },
    ]
}

pub fn sweep_fees_schema(program: Key) -> (r: Vec<SlotRule>)
    ensures
        r@ == sweep_fees_rules(program),
{
    let r = vec![
        owned_slot(program),
        any_slot(),
        flags_slot(true, false),
        flags_slot(false, true),
        flags_slot(false, true),
        program_slot(Key::spl_token_program()),
    ];
    assert(r@ =~= sweep_fees_rules(program));
    r
}

/// The accounts of a fee sweep, each bound to its slot.
pub struct Accounts<'a> {
    pub market: &'a Account,
    pub market_signer: &'a Account,
    pub market_admin: &'a Account,
    pub quote_vault: &'a Account,
    pub destination_token_account: &'a Account,
    pub spl_token_program: &'a Account,
}

impl<'a> Accounts<'a> {
    /// Checks the account list against the schema of a fee sweep and binds each slot.
    pub fn parse(program_id: &Key, accounts: &'a Vec<Account>) -> (r: Result<Accounts<'a>, DexError>)
        ensures
            match r {
                Ok(a) => schema_result(accounts@, sweep_fees_rules(*program_id), true) is Ok
                    && *a.market == accounts@[0] && *a.market_signer == accounts@[1]
                    && *a.market_admin == accounts@[2] && *a.quote_vault == accounts@[3]
                    && *a.destination_token_account == accounts@[4]
                    && *a.spl_token_program == accounts@[5],
                Err(e) => schema_result(accounts@, sweep_fees_rules(*program_id), true) == Err::<
                    (),
                    DexError,
                >(e),
            },
    {
        let rules = sweep_fees_schema(*program_id);
        validate_accounts(accounts, &rules, true)?;
        Ok(
            Accounts {
                market: &accounts[0],
                market_signer: &accounts[1],
                market_admin: &accounts[2],
                quote_vault: &accounts[3],
                destination_token_account: &accounts[4],
                spl_token_program: &accounts[5],
            },
        )
    }
}

/// The checks of a fee sweep that read the market record, in order.
pub open spec fn sweep_fees_check(program: Seq<u8>, a: Seq<Account>, m: MarketState) -> Result<(), DexError> {
    if !authority_matches(a[0].key@, m.signer_nonce, program, a[1].key@) {
        Err(DexError::ArgumentError)
    } else if a[3].key@ != m.quote_vault@ || a[2].key@ != m.admin@ {
        Err(DexError::ArgumentError)
    } else if m.accumulated_fees == 0 {
        Err(DexError::NoOp)
    } else {
        Ok(())
    }
}

/// The one transfer of a fee sweep: all accumulated fees, from the quote
/// vault to the destination.
pub open spec fn sweep_fees_transfer(a: Seq<Account>, m: MarketState) -> Effect {
    Effect::TokenTransfer {
        source: a[3].key,
        destination: a[4].key,
        authority: a[1].key,
        amount: m.accumulated_fees,
        market: a[0].key,
        signer_nonce: m.signer_nonce,
    }
}

/// What `process_sweep_fees` guarantees of the accounts before and after the call and of its result.
pub open spec fn sweep_fees_post(program: Key, old: Seq<Account>, new: Seq<Account>, r: Result<Seq<Effect>, DexError>) -> bool {
    &&& (r is Err ==> new == old)
    &&& (schema_result(old, sweep_fees_rules(program), true) matches Err(e) ==> r
            == Err::<Seq<Effect>, DexError>(e))
    &&& (schema_result(old, sweep_fees_rules(program), true) is Ok
            && !is_market_shape(old[0].data@) ==> r == Err::<Seq<Effect>, DexError>(
            DexError::StructuralError))
    &&& (forall|m: MarketState|
            schema_result(old, sweep_fees_rules(program), true) is Ok && market_bytes(
                m,
            ) == old[0].data@ ==> match sweep_fees_check(program@, old, m) {
                Err(e) => r == Err::<Seq<Effect>, DexError>(e),
                Ok(_) => r matches Ok(v) && v == seq![sweep_fees_transfer(old, m)]
                    && only_data_changed(
                    old,
                    new,
                    0,
                    market_bytes(MarketState { accumulated_fees: 0, ..m }),
                ),
            })
}

/// Moves the market's accumulated fees to the admin's destination account and
/// zeroes the counter.
pub fn process_sweep_fees(program_id: &Key, accounts: &mut Vec<Account>) -> (r: Result<
    Vec<Effect>,
    DexError,
>)
    ensures
        sweep_fees_post(*program_id, old(accounts)@, final(accounts)@, effects_result(r)),
{
    let a = Accounts::parse(program_id, accounts)?;
    let m = match MarketState::from_bytes(&a.market.data) {
        Some(m) => m,
        None => return Err(DexError::StructuralError),
    };
    proof {
        assert forall|m2: MarketState| market_bytes(m2) == old(accounts)@[0].data@ implies m2 == m by {
            lemma_market_bytes_injective(m2, m);
        }
    }
    verify_authority(&a.market.key, m.signer_nonce, program_id, &a.market_signer.key)?;
    if !keys_equal(&a.quote_vault.key, &m.quote_vault) || !keys_equal(&a.market_admin.key, &m.admin) {
        return Err(DexError::ArgumentError);
    }
    if m.accumulated_fees == 0 {
        return Err(DexError::NoOp);
    }
    let transfer = Effect::TokenTransfer {
        source: a.quote_vault.key,
        destination: a.destination_token_account.key,
        authority: a.market_signer.key,
        amount: m.accumulated_fees,
        market: a.market.key,
        signer_nonce: m.signer_nonce,
    };
    let swept = MarketState { accumulated_fees: 0, ..m };
    set_data(accounts, 0, swept.to_bytes());
    let effects = vec![transfer];
    assert(effects@ =~= seq![sweep_fees_transfer(old(accounts)@, m)]);
    Ok(effects)
}

} // verus!

verus! {

/// A fee sweep on a market whose accounts pass every check but that has no
/// fees fails with `NoOp` and leaves every account, the market record
/// included, byte for byte as it was.
pub proof fn lemma_sweep_fees_noop_at_zero(
    program: Key,
    old: Seq<Account>,
    new: Seq<Account>,
    r: Result<Seq<Effect>, DexError>,
    m: MarketState,
)
    requires
        sweep_fees_post(program, old, new, r),
        schema_result(old, sweep_fees_rules(program), true) is Ok,
        market_bytes(m) == old[0].data@,
        authority_matches(old[0].key@, m.signer_nonce, program@, old[1].key@),
        old[3].key@ == m.quote_vault@,
        old[2].key@ == m.admin@,
        m.accumulated_fees == 0,
    ensures
        r == Err::<Seq<Effect>, DexError>(DexError::NoOp),
        new == old,
        new[0].data@ == old[0].data@,
{
}

} // verus!
