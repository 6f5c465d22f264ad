use dex_core::builders::{close_account, close_market, settle, sweep_fees};
use dex_core::codec::{push_u64, read_u64};
use dex_core::consume_events::ConsumeEventsParams;
use dex_core::create_market::CreateMarketParams;
use dex_core::error::DexError;
use dex_core::initialize_account::InitializeAccountParams;
use dex_core::instruction::{
    decode_instruction, encode_instruction, CancelOrderParams, DexCall, DexInstruction,
    NewOrderParams, OrderType, Side,
};
use dex_core::key::Key;
use dex_core::processor::process;
use dex_core::settle::Params;
use dex_core::state::{MarketState, UserAccount, MARKET_LEN, USER_LEN};

fn key(n: u8) -> Key {
    Key::new([n; 32])
}

#[test]
fn fixed_program_ids_match_the_host() {
    assert_eq!(Key::spl_token_program().bytes, spl_token::ID.to_bytes());
    assert_eq!(Key::system_program().bytes, solana_program::system_program::ID.to_bytes());
}

#[test]
fn u64_little_endian() {
    let mut v = vec![];
    push_u64(&mut v, 0x0102030405060708);
    assert_eq!(v, 0x0102030405060708u64.to_le_bytes().to_vec());
    assert_eq!(v, bytemuck::bytes_of(&0x0102030405060708u64).to_vec());
    assert_eq!(read_u64(&v, 0), 0x0102030405060708);
}

#[test]
fn market_record_round_trip() {
    let m = MarketState {
        signer_nonce: 254,
        admin: key(1),
        base_vault: key(2),
        quote_vault: key(3),
        aaob_program: key(4),
        orderbook: key(5),
        accumulated_fees: 1_000_000,
        crank_reward: 7,
    };
    let b = m.to_bytes();
    assert_eq!(b.len(), MARKET_LEN);
    assert_eq!(b[0], 1);
    assert_eq!(b[1], 254);
    assert_eq!(&b[162..170], &1_000_000u64.to_le_bytes());
    assert_eq!(MarketState::from_bytes(&b), Some(m));
    let mut bad = b.clone();
    bad[0] = 2;
    assert_eq!(MarketState::from_bytes(&bad), None);
}

#[test]
fn user_record_round_trip() {
    let u = UserAccount {
        owner: key(1),
        market: key(2),
        base_free: 50,
        base_locked: 1,
        quote_free: 200,
        quote_locked: 2,
        open_orders: 3,
    };
    let b = u.to_bytes();
    assert_eq!(b.len(), USER_LEN);
    let borsh_body = borsh::BorshSerialize::try_to_vec(&(u.owner.bytes, u.market.bytes, 50u64, 1u64, 200u64, 2u64, 3u64)).unwrap();
    assert_eq!(&b[1..], &borsh_body[..]);
    assert_eq!(UserAccount::from_bytes(&b), Some(u));
    assert_eq!(UserAccount::from_bytes(&b[..USER_LEN - 1].to_vec()), None);
}

#[test]
fn instructions_round_trip() {
    let calls = vec![
        DexCall::CreateMarket(CreateMarketParams { crank_reward: 3 }),
        DexCall::NewOrder(NewOrderParams {
            side: Side::Ask,
            limit_price: 10,
            max_base_qty: 11,
            max_quote_qty: 12,
            order_type: OrderType::PostOnly,
            match_limit: 13,
        }),
        DexCall::CancelOrder(CancelOrderParams { order_id: (5u128 << 64) | 9 }),
        DexCall::ConsumeEvents(ConsumeEventsParams { max_iterations: 4 }),
        DexCall::Settle(Params {}),
        DexCall::InitializeAccount(InitializeAccountParams { market: key(3) }),
        DexCall::SweepFees,
        DexCall::CloseAccount,
        DexCall::CloseMarket,
    ];
    for (i, c) in calls.iter().enumerate() {
        let b = encode_instruction(c);
        assert_eq!(read_u64(&b, 0), i as u64);
        assert_eq!(decode_instruction(&b), Some(*c));
    }
}

#[test]
fn bad_instructions_are_refused() {
    assert_eq!(decode_instruction(&vec![1, 2, 3]), None);
    assert_eq!(decode_instruction(&9u64.to_le_bytes().to_vec()), None);
    let mut truncated = 0u64.to_le_bytes().to_vec();
    truncated.extend_from_slice(&[1, 2, 3]);
    assert_eq!(decode_instruction(&truncated), None);
    let mut accounts = vec![];
    assert_eq!(process(&key(1), &mut accounts, &vec![7], &vec![]).unwrap_err(), DexError::InvalidInstruction);
    let cancel = encode_instruction(&DexCall::CancelOrder(CancelOrderParams { order_id: 1 }));
    assert_eq!(process(&key(1), &mut accounts, &cancel, &vec![]).unwrap_err(), DexError::InvalidInstruction);
}

#[test]
fn serialize_prefixes_the_tag() {
    let b = DexInstruction::ConsumeEvents.serialize(&vec![1, 2]);
    assert_eq!(b, vec![3, 0, 0, 0, 0, 0, 0, 0, 1, 2]);
    assert_eq!(DexInstruction::CloseMarket.tag(), 8);
}

#[test]
fn builders_use_distinct_tags() {
    let ca = close_account(key(1), key(2), key(3), key(4));
    let cm = close_market(key(1), key(2), key(3), key(4), key(5), key(6), key(7), key(8), key(9), key(10), key(11), key(12));
    assert_eq!(ca.data[0], 7);
    assert_eq!(cm.data[0], 8);
    assert_eq!(cm.accounts.len(), 11);
    assert!(cm.accounts[9].is_signer);
    let s = settle(key(1), key(2), key(3), key(4), key(5), key(6), key(7), key(8), key(9));
    assert_eq!(s.accounts[0].pubkey, Key::spl_token_program());
    assert_eq!(s.data, vec![4, 0, 0, 0, 0, 0, 0, 0]);
    let sw = sweep_fees(key(1), key(2), key(3), key(4), key(5), key(6));
    assert!(sw.accounts[2].is_signer);
    assert_eq!(sw.data.len(), 8);
}

