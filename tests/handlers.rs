use dex_core::accounts::Account;
use dex_core::authority::{derive_authority, verify_authority};
use dex_core::close_account::process_close_account;
use dex_core::close_market::process_close_market;
use dex_core::consume_events::{process_consume_events, ConsumeEventsParams};
use dex_core::crank::{Event, EventKind};
use dex_core::create_market::{process_create_market, CreateMarketParams};
use dex_core::effect::Effect;
use dex_core::error::DexError;
use dex_core::initialize_account::{process_initialize_account, InitializeAccountParams};
use dex_core::key::Key;
use dex_core::settle::{process_settle, Params};
use dex_core::state::{MarketState, UserAccount, MARKET_LEN, USER_LEN};
use dex_core::sweep_fees::process_sweep_fees;
use solana_program::program_option::COption;
use solana_program::program_pack::Pack;
use solana_program::pubkey::Pubkey;

fn key(n: u8) -> Key {
    Key::new([n; 32])
}

fn program() -> Key {
    key(200)
}

fn acct(k: Key, owner: Key, signer: bool, writable: bool, data: Vec<u8>) -> Account {
    Account { key: k, owner, is_signer: signer, is_writable: writable, lamports: 1000, data }
}

fn token_data(owner: Key, amount: u64) -> Vec<u8> {
    let a = spl_token::state::Account {
        mint: Pubkey::new_from_array([9; 32]),
        owner: Pubkey::new_from_array(owner.bytes),
        amount,
        delegate: COption::None,
        state: spl_token::state::AccountState::Initialized,
        is_native: COption::None,
        delegated_amount: 0,
        close_authority: COption::None,
    };
    let mut data = vec![0u8; spl_token::state::Account::LEN];
    a.pack_into_slice(&mut data);
    data
}

struct Fixture {
    market: Key,
    signer: Key,
    nonce: u8,
    state: MarketState,
}

fn fixture(fees: u64) -> Fixture {
    let market = key(1);
    let (signer, nonce) = derive_authority(&market, &program()).unwrap();
    let state = MarketState {
        signer_nonce: nonce,
        admin: key(2),
        base_vault: key(3),
        quote_vault: key(4),
        aaob_program: key(5),
        orderbook: key(6),
        accumulated_fees: fees,
        crank_reward: 10,
    };
    Fixture { market, signer, nonce, state }
}

fn sweep_accounts(f: &Fixture) -> Vec<Account> {
    vec![
        acct(f.market, program(), false, true, f.state.to_bytes()),
        acct(f.signer, key(0), false, false, vec![]),
        acct(key(2), key(0), true, false, vec![]),
        acct(key(4), Key::spl_token_program(), false, true, vec![]),
        acct(key(7), Key::spl_token_program(), false, true, vec![]),
        acct(Key::spl_token_program(), key(0), false, false, vec![]),
    ]
}

fn transfer_amount(e: &Effect) -> u64 {
    match e {
        Effect::TokenTransfer { amount, .. } => *amount,
        _ => panic!("not a transfer"),
    }
}

#[test]
fn derived_authority_is_the_host_address() {
    let f = fixture(0);
    let (expected, bump) =
        Pubkey::find_program_address(&[&f.market.bytes], &Pubkey::new_from_array(program().bytes));
    assert_eq!(f.signer.bytes, expected.to_bytes());
    assert_eq!(f.nonce, bump);
    assert_eq!(verify_authority(&f.market, f.nonce, &program(), &f.signer), Ok(()));
    assert_eq!(verify_authority(&f.market, f.nonce, &program(), &key(8)), Err(DexError::ArgumentError));
}

#[test]
fn sweep_fees_moves_all_fees_then_noop() {
    let f = fixture(1_000_000);
    let mut accounts = sweep_accounts(&f);
    let effects = process_sweep_fees(&program(), &mut accounts).unwrap();
    assert_eq!(effects.len(), 1);
    match effects[0] {
        Effect::TokenTransfer { source, destination, authority, amount, market, signer_nonce } => {
            assert_eq!(amount, 1_000_000);
            assert_eq!(source, key(4));
            assert_eq!(destination, key(7));
            assert_eq!(authority, f.signer);
            assert_eq!(market, f.market);
            assert_eq!(signer_nonce, f.nonce);
        }
        _ => panic!("expected a transfer"),
    }
    let after = MarketState::from_bytes(&accounts[0].data).unwrap();
    assert_eq!(after.accumulated_fees, 0);
    let before = accounts[0].data.clone();
    assert_eq!(process_sweep_fees(&program(), &mut accounts).unwrap_err(), DexError::NoOp);
    assert_eq!(accounts[0].data, before);
}

#[test]
fn sweep_fees_errors() {
    let f = fixture(5);
    let mut a = sweep_accounts(&f);
    a.pop();
    assert_eq!(process_sweep_fees(&program(), &mut a).unwrap_err(), DexError::StructuralError);
    let mut a = sweep_accounts(&f);
    a[2].is_signer = false;
    assert_eq!(process_sweep_fees(&program(), &mut a).unwrap_err(), DexError::SignerError);
    let mut a = sweep_accounts(&f);
    a[0].owner = key(9);
    assert_eq!(process_sweep_fees(&program(), &mut a).unwrap_err(), DexError::OwnershipError);
    let mut a = sweep_accounts(&f);
    a[5].key = key(9);
    assert_eq!(process_sweep_fees(&program(), &mut a).unwrap_err(), DexError::OwnershipError);
    let mut a = sweep_accounts(&f);
    a[2].key = key(9);
    assert_eq!(process_sweep_fees(&program(), &mut a).unwrap_err(), DexError::ArgumentError);
    let mut a = sweep_accounts(&f);
    a[1].key = key(9);
    assert_eq!(process_sweep_fees(&program(), &mut a).unwrap_err(), DexError::ArgumentError);
    let mut a = sweep_accounts(&f);
    a[0].data.pop();
    assert_eq!(process_sweep_fees(&program(), &mut a).unwrap_err(), DexError::StructuralError);
}

fn user(base_free: u64, quote_free: u64) -> UserAccount {
    UserAccount {
        owner: key(20),
        market: key(1),
        base_free,
        base_locked: 0,
        quote_free,
        quote_locked: 0,
        open_orders: 0,
    }
}

fn settle_accounts(f: &Fixture, u: &UserAccount) -> Vec<Account> {
    vec![
        acct(Key::spl_token_program(), key(0), false, false, vec![]),
        acct(f.market, program(), false, false, f.state.to_bytes()),
        acct(key(3), Key::spl_token_program(), false, true, vec![]),
        acct(key(4), Key::spl_token_program(), false, true, vec![]),
        acct(f.signer, key(0), false, false, vec![]),
        acct(key(21), program(), false, true, u.to_bytes()),
        acct(key(20), key(0), true, false, vec![]),
        acct(key(22), Key::spl_token_program(), false, true, vec![]),
        acct(key(23), Key::spl_token_program(), false, true, vec![]),
    ]
}

#[test]
fn settle_pays_free_balances_then_zero() {
    let f = fixture(0);
    let mut accounts = settle_accounts(&f, &user(50, 200));
    let effects = process_settle(&program(), &mut accounts, Params {}).unwrap();
    assert_eq!(effects.len(), 2);
    assert_eq!(transfer_amount(&effects[0]), 200);
    assert_eq!(transfer_amount(&effects[1]), 50);
    match effects[0] {
        Effect::TokenTransfer { source, destination, .. } => {
            assert_eq!(source, key(4));
            assert_eq!(destination, key(23));
        }
        _ => panic!(),
    }
    let u = UserAccount::from_bytes(&accounts[5].data).unwrap();
    assert_eq!((u.base_free, u.quote_free), (0, 0));
    let again = process_settle(&program(), &mut accounts, Params {}).unwrap();
    assert_eq!(transfer_amount(&again[0]), 0);
    assert_eq!(transfer_amount(&again[1]), 0);
    let u = UserAccount::from_bytes(&accounts[5].data).unwrap();
    assert_eq!((u.base_free, u.quote_free), (0, 0));
}

#[test]
fn settle_rejects_wrong_owner() {
    let f = fixture(0);
    let mut accounts = settle_accounts(&f, &user(1, 1));
    accounts[6].key = key(30);
    let before = accounts.clone();
    assert_eq!(process_settle(&program(), &mut accounts, Params {}).unwrap_err(), DexError::ArgumentError);
    assert_eq!(accounts[5].data, before[5].data);
}

fn close_accounts(u: &UserAccount) -> Vec<Account> {
    vec![
        acct(key(21), program(), false, true, u.to_bytes()),
        acct(key(20), key(0), true, false, vec![]),
        acct(key(24), key(0), false, true, vec![]),
    ]
}

#[test]
fn close_account_requires_empty() {
    for i in 0..5 {
        let mut u = user(0, 0);
        match i {
            0 => u.base_free = 1,
            1 => u.base_locked = 1,
            2 => u.quote_free = 1,
            3 => u.quote_locked = 1,
            _ => u.open_orders = 1,
        }
        let mut a = close_accounts(&u);
        assert_eq!(process_close_account(&program(), &mut a), Err(DexError::AccountNotEmpty));
    }
    let mut a = close_accounts(&user(0, 0));
    assert_eq!(process_close_account(&program(), &mut a), Ok(()));
    assert_eq!(a[0].lamports, 0);
    assert_eq!(a[2].lamports, 2000);
    assert!(a[0].data.iter().all(|b| *b == 0));
    assert_eq!(a[0].data.len(), USER_LEN);
}

#[test]
fn close_account_overflow() {
    let mut a = close_accounts(&user(0, 0));
    a[2].lamports = u64::MAX;
    assert_eq!(process_close_account(&program(), &mut a), Err(DexError::BalanceOverflow));
}

#[test]
fn initialize_account_allocates_once() {
    let mut a = vec![
        acct(Key::system_program(), key(0), false, false, vec![]),
        acct(key(21), Key::system_program(), false, true, vec![]),
        acct(key(20), key(0), true, false, vec![]),
        acct(key(25), key(0), true, true, vec![]),
    ];
    let effects =
        process_initialize_account(&program(), &mut a, InitializeAccountParams { market: key(1) }).unwrap();
    match effects[0] {
        Effect::CreateAccount { payer, account, space, owner } => {
            assert_eq!((payer, account, space, owner), (key(25), key(21), USER_LEN as u64, program()));
        }
        _ => panic!(),
    }
    let u = UserAccount::from_bytes(&a[1].data).unwrap();
    assert_eq!(u, UserAccount::new(key(20), key(1)));
    assert_eq!(a[1].owner, program());
    assert_eq!(
        process_initialize_account(&program(), &mut a, InitializeAccountParams { market: key(1) }).unwrap_err(),
        DexError::AlreadyInitialized
    );
}

fn create_accounts(authority: Key) -> Vec<Account> {
    vec![
        acct(key(1), program(), false, true, vec![0u8; MARKET_LEN]),
        acct(key(6), key(5), false, false, vec![]),
        acct(key(3), Key::spl_token_program(), false, false, token_data(authority, 0)),
        acct(key(4), Key::spl_token_program(), false, false, token_data(authority, 0)),
        acct(key(5), key(0), false, false, vec![]),
        acct(key(2), key(0), true, false, vec![]),
    ]
}

#[test]
fn create_market_writes_record() {
    let f = fixture(0);
    let mut a = create_accounts(f.signer);
    process_create_market(&program(), &mut a, CreateMarketParams { crank_reward: 10 }).unwrap();
    let m = MarketState::from_bytes(&a[0].data).unwrap();
    assert_eq!(m, f.state);
    assert_eq!(verify_authority(&key(1), m.signer_nonce, &program(), &f.signer), Ok(()));
    assert_eq!(
        process_create_market(&program(), &mut a, CreateMarketParams { crank_reward: 10 }),
        Err(DexError::AlreadyInitialized)
    );
}

#[test]
fn create_market_checks_vaults() {
    let mut a = create_accounts(key(40));
    assert_eq!(
        process_create_market(&program(), &mut a, CreateMarketParams { crank_reward: 1 }),
        Err(DexError::ArgumentError)
    );
    let f = fixture(0);
    let mut a = create_accounts(f.signer);
    a[2].data[108] = 0;
    assert_eq!(
        process_create_market(&program(), &mut a, CreateMarketParams { crank_reward: 1 }),
        Err(DexError::StructuralError)
    );
    let mut a = create_accounts(f.signer);
    a[1].owner = key(41);
    assert_eq!(
        process_create_market(&program(), &mut a, CreateMarketParams { crank_reward: 1 }),
        Err(DexError::OwnershipError)
    );
}

fn close_market_accounts(f: &Fixture, base: u64, quote: u64) -> Vec<Account> {
    vec![
        acct(f.market, program(), false, true, f.state.to_bytes()),
        acct(key(3), Key::spl_token_program(), false, true, token_data(f.signer, base)),
        acct(key(4), Key::spl_token_program(), false, true, token_data(f.signer, quote)),
        acct(f.signer, key(0), false, false, vec![]),
        acct(key(6), key(5), false, true, vec![]),
        acct(key(10), key(5), false, true, vec![]),
        acct(key(11), key(5), false, true, vec![]),
        acct(key(12), key(5), false, true, vec![]),
        acct(key(5), key(0), false, false, vec![]),
        acct(key(2), key(0), true, false, vec![]),
        acct(key(24), key(0), false, true, vec![]),
    ]
}

#[test]
fn close_market_requires_empty_vaults() {
    let f = fixture(0);
    let mut a = close_market_accounts(&f, 1, 0);
    assert_eq!(process_close_market(&program(), &mut a), Err(DexError::AccountNotEmpty));
    let mut a = close_market_accounts(&f, 0, 0);
    assert_eq!(process_close_market(&program(), &mut a), Ok(()));
    assert_eq!(a[0].lamports, 0);
    assert_eq!(a[10].lamports, 2000);
}

fn crank_accounts(f: &Fixture, users: &[(Key, UserAccount)]) -> Vec<Account> {
    let mut a = vec![
        acct(key(5), key(0), false, false, vec![]),
        acct(f.market, program(), false, true, f.state.to_bytes()),
        acct(f.signer, key(0), false, false, vec![]),
        acct(key(6), key(5), false, true, vec![]),
        acct(key(10), key(5), false, true, vec![]),
        acct(key(30), key(0), false, true, vec![]),
        acct(key(4), Key::spl_token_program(), false, true, vec![]),
        acct(Key::spl_token_program(), key(0), false, false, vec![]),
    ];
    for (k, u) in users {
        a.push(acct(*k, program(), false, true, u.to_bytes()));
    }
    a
}

fn ev(kind: EventKind, user: Key, base_delta: i64, quote_delta: i64) -> Event {
    Event { kind, order_id: 7, user, base_delta, quote_delta }
}

#[test]
fn consume_events_applies_present_and_skips_absent() {
    let f = fixture(100);
    let mut u1 = user(0, 0);
    u1.quote_locked = 500;
    u1.open_orders = 1;
    let u2 = user(5, 5);
    let mut a = crank_accounts(&f, &[(key(50), u1), (key(51), u2)]);
    let events = vec![
        ev(EventKind::Fill, key(50), 3, -300),
        ev(EventKind::Fill, key(99), 1, 1),
        ev(EventKind::Out, key(50), 0, 200),
        ev(EventKind::Fill, key(51), 1, 1),
    ];
    let out = process_consume_events(&program(), &mut a, &events, ConsumeEventsParams { max_iterations: 3 })
        .unwrap();
    assert_eq!((out.consumed, out.applied, out.skipped), (3, 2, 1));
    assert_eq!(transfer_amount(&out.effects[0]), 20);
    let r1 = UserAccount::from_bytes(&a[8].data).unwrap();
    assert_eq!((r1.base_free, r1.quote_free, r1.quote_locked, r1.open_orders), (3, 200, 0, 0));
    let r2 = UserAccount::from_bytes(&a[9].data).unwrap();
    assert_eq!(r2, u2);
    let m = MarketState::from_bytes(&a[1].data).unwrap();
    assert_eq!(m.accumulated_fees, 80);
}

#[test]
fn consume_events_reward_capped_by_fees() {
    let f = fixture(5);
    let mut a = crank_accounts(&f, &[(key(50), user(0, 0))]);
    let events = vec![ev(EventKind::Fill, key(50), 1, 1)];
    let out = process_consume_events(&program(), &mut a, &events, ConsumeEventsParams { max_iterations: 10 })
        .unwrap();
    assert_eq!(transfer_amount(&out.effects[0]), 5);
    assert_eq!(MarketState::from_bytes(&a[1].data).unwrap().accumulated_fees, 0);
}

#[test]
fn consume_events_overflow_aborts() {
    let f = fixture(0);
    let mut a = crank_accounts(&f, &[(key(50), user(0, 0))]);
    let before = a.clone();
    let events = vec![ev(EventKind::Fill, key(50), 0, -1)];
    let r = process_consume_events(&program(), &mut a, &events, ConsumeEventsParams { max_iterations: 10 });
    assert_eq!(r.unwrap_err(), DexError::BalanceOverflow);
    assert_eq!(a[8].data, before[8].data);
}

#[test]
fn consume_events_rejects_duplicate_users() {
    let f = fixture(0);
    let mut a = crank_accounts(&f, &[(key(50), user(0, 0)), (key(50), user(0, 0))]);
    let r = process_consume_events(&program(), &mut a, &vec![], ConsumeEventsParams { max_iterations: 1 });
    assert_eq!(r.unwrap_err(), DexError::StructuralError);
}
