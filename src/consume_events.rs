use vstd::prelude::*;
use crate::accounts::{
    any_slot, flags_slot, program_slot, schema_result, validate_accounts, Account, SlotRule,
};
use crate::authority::{authority_matches, verify_authority};
use crate::crank::{
    applied_count, apply_event_exec, crank_user, lemma_applied_count_bound, lemma_crank_user_stays_none, Event,
};
use crate::effect::{same_but_data, set_data, Effect};
use crate::error::DexError;
use crate::key::{keys_equal, Key};
use crate::state::{
    is_market_shape, is_user_shape, lemma_market_bytes_injective, lemma_user_bytes, market_bytes,
    user_bytes, MarketState, UserAccount,
};

verus! {

/// The payload of a crank call.
#[derive(Clone, Copy, Debug, PartialEq, Eq, Structural)]
pub struct ConsumeEventsParams {
    /// The most events this call may consume.
    pub max_iterations: u64,
}

/// What an accepted instruction did: the effects it asks for and, for a crank
/// call, the events it consumed.
#[derive(Clone, Debug)]
pub struct Outcome {
    /// Events taken from the front of the queue: the host pops this many.
    pub consumed: u64,
    /// Consumed events whose user account was supplied.
    pub applied: u64,
    /// Consumed events whose user account was not supplied.
    pub skipped: u64,
    /// The calls into other programs that the instruction asks for, in order.
    pub effects: Vec<Effect>,
}

/// The fixed head of a crank call's account list: matching program, market,
/// market signer, orderbook, event queue, reward target, quote vault, token
/// program. The user accounts follow.
pub open spec fn consume_events_rules(program: Key) -> Seq<SlotRule> {
    seq![
        SlotRule { signer: false, writable: false, owner: None, key: None },
        SlotRule { signer: false, writable: true, owner: Some(program), key: None },
        SlotRule { signer: false, writable: false, owner: None, key: None },
        SlotRule { signer: false, writable: true, owner: None, key: None },
        SlotRule { signer: false, writable: true, owner: None, key: None },
        SlotRule { signer: false, writable: true, owner: None, key: None },
        SlotRule { signer: false, writable: true, owner: None, key: None },
        SlotRule { signer: false, writable: false, owner: None, key: Some(Key::spl_token_program_spec()) },
    ]
}

pub fn consume_events_schema(program: Key) -> (r: Vec<SlotRule>)
    ensures
        r@ == consume_events_rules(program),
{
    let r = vec![
        any_slot(),
        SlotRule { signer: false, writable: true, owner: Some(program), key: None },
        any_slot(),
        flags_slot(false, true),
        flags_slot(false, true),
        flags_slot(false, true),
        flags_slot(false, true),
        program_slot(Key::spl_token_program()),
    ];
    assert(r@ =~= consume_events_rules(program));
    r
}

/// The checks of a crank call that read the market record, in order.
pub open spec fn consume_events_check(program: Seq<u8>, a: Seq<Account>, m: MarketState) -> Result<(), DexError> {
    if !authority_matches(a[1].key@, m.signer_nonce, program, a[2].key@) {
        Err(DexError::ArgumentError)
    } else if a[0].key@ != m.aaob_program@ || a[3].key@ != m.orderbook@ || a[6].key@ != m.quote_vault@ {
        Err(DexError::ArgumentError)
    } else {
        Ok(())
    }
}

/// The user account in slot `j` is usable by a crank call on the market in slot 1.
pub open spec fn user_slot_ok(program: Seq<u8>, a: Seq<Account>, j: int) -> bool {
    &&& a[j].owner@ == program
    &&& a[j].is_writable
    &&& is_user_shape(a[j].data@)
    &&& a[j].data@.subrange(33, 65) == a[1].key@
}

/// Every account after the fixed head is a usable user account, and no two are the same.
pub open spec fn user_slots_ok(program: Seq<u8>, a: Seq<Account>) -> bool {
    &&& forall|j: int| 8 <= j < a.len() ==> user_slot_ok(program, a, j)
    &&& forall|i: int, j: int| 8 <= i < j < a.len() ==> a[i].key@ != a[j].key@
}

/// The addresses of the supplied user accounts, in order.
pub open spec fn user_keys(a: Seq<Account>) -> Seq<Seq<u8>> {
    Seq::new((a.len() - 8) as nat, |k: int| a[8 + k].key@)
}

/// The events a call consumes: the front of the queue, at most `max` of them.
pub open spec fn crank_window(events: Seq<Event>, max: u64) -> Seq<Event> {
    if max < events.len() {
        events.take(max as int)
    } else {
        events
    }
}

/// The crank's reward: its rate per applied event, capped by the fees at hand.
pub open spec fn crank_payment(m: MarketState, applied: nat) -> u64 {
    if m.crank_reward * applied <= m.accumulated_fees {
        (m.crank_reward * applied) as u64
    } else {
        m.accumulated_fees
    }
}

/// The reward transfer, from the quote vault to the reward target.
pub open spec fn reward_transfer(a: Seq<Account>, m: MarketState, amount: u64) -> Effect {
    Effect::TokenTransfer {
        source: a[6].key,
        destination: a[5].key,
        authority: a[2].key,
        amount,
        market: a[1].key,
        signer_nonce: m.signer_nonce,
    }
}

/// The slot after the fixed head whose address is `key`, if any.
fn find_user_slot(accounts: &Vec<Account>, key: &Key) -> (r: Option<usize>)
    requires
        accounts@.len() >= 8,
    ensures
        r matches Some(j) ==> 8 <= j < accounts@.len() && accounts@[j as int].key@ == key@,
        r is None ==> forall|j: int| 8 <= j < accounts@.len() ==> accounts@[j].key@ != key@,
{
    let mut j: usize = 8;
    while j < accounts.len()
        invariant
            8 <= j <= accounts@.len(),
            forall|q: int| 8 <= q < j ==> accounts@[q].key@ != key@,
        decreases accounts@.len() - j,
    {
        if keys_equal(&accounts[j].key, key) {
            return Some(j);
        }
        j += 1;
    }
    None
}

/// Validates and reads the user accounts after the fixed head.
fn load_user_slots(program_id: &Key, accounts: &Vec<Account>) -> (r: Result<Vec<UserAccount>, DexError>)
    requires
        accounts@.len() >= 8,
    ensures
        r is Ok <==> user_slots_ok(program_id@, accounts@),
        r matches Ok(us) ==> us@.len() == accounts@.len() - 8 && forall|k: int|
            0 <= k < us@.len() ==> user_bytes(us@[k]) == accounts@[8 + k].data@,
{
    let mut users: Vec<UserAccount> = Vec::new();
    let mut j: usize = 8;
    while j < accounts.len()
        invariant
            8 <= j <= accounts@.len(),
            users@.len() == j - 8,
            forall|k: int| 0 <= k < users@.len() ==> user_bytes(users@[k]) == accounts@[8 + k].data@,
            forall|q: int| 8 <= q < j ==> user_slot_ok(program_id@, accounts@, q),
            forall|p: int, q: int| 8 <= p < q < j ==> accounts@[p].key@ != accounts@[q].key@,
        decreases accounts@.len() - j,
    {
        if !keys_equal(&accounts[j].owner, program_id) {
            assert(!user_slot_ok(program_id@, accounts@, j as int));
            return Err(DexError::OwnershipError);
        }
        if !accounts[j].is_writable {
            assert(!user_slot_ok(program_id@, accounts@, j as int));
            return Err(DexError::StructuralError);
        }
        let u = match UserAccount::from_bytes(&accounts[j].data) {
            Some(u) => u,
            None => {
                assert(!user_slot_ok(program_id@, accounts@, j as int));
                return Err(DexError::StructuralError);
            },
        };
        proof {
            lemma_user_bytes(u);
        }
        if !keys_equal(&u.market, &accounts[1].key) {
            assert(!user_slot_ok(program_id@, accounts@, j as int));
            return Err(DexError::ArgumentError);
        }
        let mut p: usize = 8;
        while p < j
            invariant
                8 <= p <= j < accounts@.len(),
                forall|q: int| 8 <= q < p ==> accounts@[q].key@ != accounts@[j as int].key@,
            decreases j - p,
        {
            if keys_equal(&accounts[p].key, &accounts[j].key) {
                assert(accounts@[p as int].key@ == accounts@[j as int].key@);
                return Err(DexError::StructuralError);
            }
            p += 1;
        }
        users.push(u);
        j += 1;
    }
    Ok(users)
}

/// Applies the first `n` events to the records of the supplied user accounts
/// and counts those applied.
fn run_events(accounts: &Vec<Account>, users: &mut Vec<UserAccount>, events: &Vec<Event>, n: usize) -> (r: Result<u64, DexError>)
    requires
        accounts@.len() >= 8,
        old(users)@.len() == accounts@.len() - 8,
        forall|i: int, j: int| 8 <= i < j < accounts@.len() ==> accounts@[i].key@ != accounts@[j].key@,
        n <= events@.len(),
    ensures
        r is Ok <==> forall|k: int|
            0 <= k < old(users)@.len() ==> crank_user(old(users)@[k], user_keys(accounts@)[k], events@.take(n as int)) is Some,
        r is Err ==> r == Err::<u64, DexError>(DexError::BalanceOverflow),
        r matches Ok(c) ==> c == applied_count(events@.take(n as int), user_keys(accounts@))
            && final(users)@.len() == old(users)@.len() && forall|k: int|
            0 <= k < old(users)@.len() ==> crank_user(old(users)@[k], user_keys(accounts@)[k], events@.take(n as int))
                == Some(#[trigger] final(users)@[k]),
{
    let ghost orig = users@;
    let ghost keys = user_keys(accounts@);
    let ghost evs = events@.take(n as int);
    let mut applied: u64 = 0;
    let mut i: usize = 0;
    while i < n
        invariant
            i <= n <= events@.len(),
            evs == events@.take(n as int),
            accounts@.len() >= 8,
            users@.len() == orig.len(),
            orig == old(users)@,
            orig.len() == accounts@.len() - 8,
            keys == user_keys(accounts@),
            forall|p: int, q: int| 8 <= p < q < accounts@.len() ==> accounts@[p].key@ != accounts@[q].key@,
            forall|k: int|
                0 <= k < orig.len() ==> crank_user(orig[k], keys[k], events@.take(i as int)) == Some(
                    users@[k],
                ),
            applied == applied_count(events@.take(i as int), keys),
            applied <= i,
        decreases n - i,
    {
        let e = events[i];
        proof {
            assert(events@.take(i + 1).drop_last() =~= events@.take(i as int));
            assert(events@.take(i + 1).last() == e);
        }
        match find_user_slot(accounts, &e.user) {
            Some(j) => {
                let k = j - 8;
                match apply_event_exec(&users[k], &e) {
                    None => {
                        proof {
                            assert(keys[k as int] == e.user@);
                            assert(crank_user(orig[k as int], keys[k as int], events@.take(i + 1)) is None);
                            assert(evs.take(i + 1) =~= events@.take(i + 1));
                            lemma_crank_user_stays_none(orig[k as int], keys[k as int], evs, i + 1);
                            assert(!(crank_user(orig[k as int], keys[k as int], evs) is Some));
                        }
                        return Err(DexError::BalanceOverflow);
                    },
                    Some(v) => {
                        users[k] = v;
                    },
                }
                proof {
                    assert(keys[k as int] == e.user@);
                    assert(keys.contains(e.user@));
                    assert forall|q: int| 0 <= q < orig.len() && q != k implies keys[q] != e.user@ by {
                        assert(accounts@[8 + q].key@ != accounts@[j as int].key@);
                    }
                }
                applied = applied + 1;
            },
            None => {
                proof {
                    assert forall|q: int| 0 <= q < keys.len() implies keys[q] != e.user@ by {
                        assert(accounts@[8 + q].key@ != e.user@);
                    }
                }
            },
        }
        i += 1;
    }
    Ok(applied)
}

/// Writes each record back into its user account.
fn write_users(accounts: &mut Vec<Account>, users: &Vec<UserAccount>)
    requires
        old(accounts)@.len() >= 8,
        users@.len() == old(accounts)@.len() - 8,
    ensures
        final(accounts)@.len() == old(accounts)@.len(),
        forall|j: int| 0 <= j < 8 ==> final(accounts)@[j] == old(accounts)@[j],
        forall|j: int|
            8 <= j < final(accounts)@.len() ==> same_but_data(old(accounts)@[j], #[trigger] final(accounts)@[j])
                && final(accounts)@[j].data@ == user_bytes(users@[j - 8]),
{
    let total = accounts.len();
    let mut k: usize = 0;
    while k < users.len()
        invariant
            total == accounts@.len(),
            k <= users@.len() == old(accounts)@.len() - 8,
            accounts@.len() == old(accounts)@.len(),
            forall|j: int| 0 <= j < 8 ==> accounts@[j] == old(accounts)@[j],
            forall|j: int|
                8 <= j < accounts@.len() ==> same_but_data(old(accounts)@[j], #[trigger] accounts@[j]),
            forall|j: int| 8 <= j < 8 + k ==> (#[trigger] accounts@[j]).data@ == user_bytes(users@[j - 8]),
        decreases users@.len() - k,
    {
        set_data(accounts, 8 + k, users[k].to_bytes());
        k += 1;
    }
}

/// What `process_consume_events` guarantees of the accounts before and after the call and of its result.
pub open spec fn consume_events_post(program: Key, old: Seq<Account>, new: Seq<Account>, events: Seq<Event>, params: ConsumeEventsParams, r: Result<Outcome, DexError>) -> bool {
    &&& (r is Err ==> new == old)
    &&& (schema_result(old, consume_events_rules(program), false) matches Err(e) ==> r
            == Err::<Outcome, DexError>(e))
    &&& (schema_result(old, consume_events_rules(program), false) is Ok
            && !is_market_shape(old[1].data@)
            ==> r == Err::<Outcome, DexError>(DexError::StructuralError))
    &&& (forall|m: MarketState|
            schema_result(old, consume_events_rules(program), false) is Ok
                && market_bytes(m) == old[1].data@ ==> (consume_events_check(
                program@,
                old,
                m,
            ) matches Err(e) ==> r == Err::<Outcome, DexError>(e)))
    &&& (forall|m: MarketState|
            schema_result(old, consume_events_rules(program), false) is Ok
                && market_bytes(m) == old[1].data@ && consume_events_check(
                program@,
                old,
                m,
            ) is Ok && !user_slots_ok(program@, old) ==> r is Err)
    &&& (forall|m: MarketState, us: Seq<UserAccount>|
            #![trigger market_bytes(m), us.len()]
            schema_result(old, consume_events_rules(program), false) is Ok
                && market_bytes(m) == old[1].data@ && consume_events_check(
                program@,
                old,
                m,
            ) is Ok && user_slots_ok(program@, old) && us.len() == old.len() - 8 && (forall|k: int|
                0 <= k < us.len() ==> user_bytes(us[k]) == old[8 + k].data@) ==> {
                let evs = crank_window(events, params.max_iterations);
                let keys = user_keys(old);
                let paid = crank_payment(m, applied_count(evs, keys));
                &&& (r is Ok <==> forall|k: int|
                    0 <= k < us.len() ==> crank_user(us[k], keys[k], evs) is Some)
                &&& r matches Ok(out) ==> {
                    &&& out.consumed == evs.len()
                    &&& out.applied == applied_count(evs, keys)
                    &&& out.skipped == evs.len() - applied_count(evs, keys)
                    &&& out.effects@ == seq![reward_transfer(old, m, paid)]
                    &&& new.len() == old.len()
                    &&& forall|j: int| 0 <= j < 8 && j != 1 ==> new[j] == old[j]
                    &&& same_but_data(old[1], new[1])
                    &&& new[1].data@ == market_bytes(
                        MarketState { accumulated_fees: (m.accumulated_fees - paid) as u64, ..m },
                    )
                    &&& forall|k: int|
                        0 <= k < us.len() ==> same_but_data(old[8 + k], new[8 + k])
                            && (crank_user(#[trigger] us[k], keys[k], evs) matches Some(v)
                            && new[8 + k].data@ == user_bytes(v))
                }
            })
}

/// Drains events from the front of the queue into the supplied user
/// accounts, skipping those whose account is absent, and pays the crank.
#[verifier::rlimit(60)]
#[verifier::spinoff_prover]
pub fn process_consume_events(
    program_id: &Key,
    accounts: &mut Vec<Account>,
    events: &Vec<Event>,
    params: ConsumeEventsParams,
) -> (r: Result<Outcome, DexError>)
    ensures
        consume_events_post(*program_id, old(accounts)@, final(accounts)@, events@, params, r),
{
    let rules = consume_events_schema(*program_id);
    validate_accounts(accounts, &rules, false)?;
    let m = match MarketState::from_bytes(&accounts[1].data) {
        Some(m) => m,
        None => return Err(DexError::StructuralError),
    };
    proof {
        assert forall|m2: MarketState| market_bytes(m2) == old(accounts)@[1].data@ implies m2 == m by {
            lemma_market_bytes_injective(m2, m);
        }
    }
    verify_authority(&accounts[1].key, m.signer_nonce, program_id, &accounts[2].key)?;
    if !keys_equal(&accounts[0].key, &m.aaob_program) || !keys_equal(&accounts[3].key, &m.orderbook)
        || !keys_equal(&accounts[6].key, &m.quote_vault) {
        return Err(DexError::ArgumentError);
    }
    let mut users = load_user_slots(program_id, accounts)?;
    let ghost orig = users@;
    proof {
        assert forall|us: Seq<UserAccount>|
            us.len() == orig.len() && (forall|k: int|
                0 <= k < us.len() ==> user_bytes(us[k]) == old(accounts)@[8 + k].data@) implies us
            == orig by {
            assert forall|k: int| 0 <= k < us.len() implies us[k] == orig[k] by {
                crate::state::lemma_user_bytes_injective(us[k], orig[k]);
            }
            assert(us =~= orig);
        }
    }
    let n: usize = if (params.max_iterations as u128) < (events.len() as u128) {
        params.max_iterations as usize
    } else {
        events.len()
    };
    assert(crank_window(events@, params.max_iterations) =~= events@.take(n as int));
    let applied = run_events(accounts, &mut users, events, n)?;
    let fees = m.accumulated_fees;
    let paid: u64 = match m.crank_reward.checked_mul(applied) {
        Some(x) => if x <= fees {
            x
        } else {
            fees
        },
        None => fees,
    };
    let transfer = Effect::TokenTransfer {
        source: accounts[6].key,
        destination: accounts[5].key,
        authority: accounts[2].key,
        amount: paid,
        market: accounts[1].key,
        signer_nonce: m.signer_nonce,
    };
    let total = accounts.len();
    write_users(accounts, &users);
    let updated = MarketState { accumulated_fees: fees - paid, ..m };
    set_data(accounts, 1, updated.to_bytes());
    let consumed = n as u64;
    assert(applied <= consumed) by {
        lemma_applied_count_bound(events@.take(n as int), user_keys(old(accounts)@));
    }
    let effects = vec![transfer];
    assert(effects@ =~= seq![reward_transfer(old(accounts)@, m, paid)]);
    Ok(Outcome { consumed, applied, skipped: consumed - applied, effects })
}

} // verus!
