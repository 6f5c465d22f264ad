use vstd::prelude::*;
use crate::accounts::SlotRule;
use crate::close_account::close_account_rules;
use crate::close_market::close_market_rules;
use crate::consume_events::{consume_events_rules, ConsumeEventsParams};
use crate::create_market::create_market_rules;
use crate::initialize_account::initialize_account_rules;
use crate::settle::settle_rules;
use crate::sweep_fees::sweep_fees_rules;
use crate::create_market::CreateMarketParams;
use crate::initialize_account::InitializeAccountParams;
use crate::instruction::{encode_instruction, instruction_bytes, CancelOrderParams, DexCall, NewOrderParams};
use crate::key::Key;
use crate::settle::Params;

verus! {

/// One slot of an instruction's account list, as a client sends it.
#[derive(Clone, Copy, Debug, PartialEq, Eq)]
pub struct AccountMeta {
    pub pubkey: Key,
    pub is_signer: bool,
    pub is_writable: bool,
}

/// An instruction addressed to a program, ready to be sent.
#[derive(Clone, Debug)]
pub struct Instruction {
    pub program_id: Key,
    pub accounts: Vec<AccountMeta>,
    pub data: Vec<u8>,
}

pub open spec fn meta(pubkey: Key, is_signer: bool, is_writable: bool) -> AccountMeta {
    AccountMeta { pubkey, is_signer, is_writable }
}

/// The first slots of an account list carry the signatures, the write
/// access and the fixed addresses that a handler's schema asks for.
pub open spec fn metas_meet(metas: Seq<AccountMeta>, rules: Seq<SlotRule>) -> bool {
    &&& rules.len() <= metas.len()
    &&& forall|i: int|
        0 <= i < rules.len() ==> {
            &&& (rules[i].signer ==> metas[i].is_signer)
            &&& (rules[i].writable ==> metas[i].is_writable)
            &&& (rules[i].key matches Some(k) ==> metas[i].pubkey@ == k@)
        }
}

fn writable(pubkey: Key, is_signer: bool) -> (r: AccountMeta)
    ensures
        r == meta(pubkey, is_signer, true),
{
    AccountMeta { pubkey, is_signer, is_writable: true }
}

fn readonly(pubkey: Key, is_signer: bool) -> (r: AccountMeta)
    ensures
        r == meta(pubkey, is_signer, false),
{
    AccountMeta { pubkey, is_signer, is_writable: false }
}

/// Create a new market. The matching program's orderbook must be
/// initialised beforehand, and the admin signs.
pub fn create_market(
    dex_program_id: Key,
    market_account: Key,
    orderbook: Key,
    base_vault: Key,
    quote_vault: Key,
    aaob_program: Key,
    market_admin: Key,
    create_market_params: CreateMarketParams,
) -> (r: Instruction)
    ensures
        metas_meet(r.accounts@, create_market_rules(dex_program_id)),
        r.program_id == dex_program_id,
        r.data@ == instruction_bytes(DexCall::CreateMarket(create_market_params)),
        r.accounts@ == seq![
            meta(market_account, false, true),
            meta(orderbook, false, false),
            meta(base_vault, false, false),
            meta(quote_vault, false, false),
            meta(aaob_program, false, false),
            meta(market_admin, true, false),
        ],
{
    let data = encode_instruction(&DexCall::CreateMarket(create_market_params));
    let accounts = vec![
        writable(market_account, false),
        readonly(orderbook, false),
        readonly(base_vault, false),
        readonly(quote_vault, false),
        readonly(aaob_program, false),
        readonly(market_admin, true),
    ];
    Instruction { program_id: dex_program_id, accounts, data }
}

/// Execute a new order on the matching program's book, with an optional
/// discount token account last.
pub fn new_order(
    dex_program_id: Key,
    agnostic_orderbook_program_id: Key,
    market_account: Key,
    market_signer: Key,
    orderbook: Key,
    event_queue: Key,
    bids: Key,
    asks: Key,
    base_vault: Key,
    quote_vault: Key,
    user_account: Key,
    user_token_account: Key,
    user_account_owner: Key,
    discount_account: Option<Key>,
    new_order_params: NewOrderParams,
) -> (r: Instruction)
    ensures
        r.program_id == dex_program_id,
        r.data@ == instruction_bytes(DexCall::NewOrder(new_order_params)),
        r.accounts@.take(14) == seq![
            meta(agnostic_orderbook_program_id, false, false),
            meta(Key::spl_token_program_spec(), false, false),
            meta(Key::system_program_spec(), false, false),
            meta(market_account, false, true),
            meta(market_signer, false, false),
            meta(orderbook, false, true),
            meta(event_queue, false, true),
            meta(bids, false, true),
            meta(asks, false, true),
            meta(base_vault, false, true),
            meta(quote_vault, false, true),
            meta(user_account, false, true),
            meta(user_token_account, false, true),
            meta(user_account_owner, true, true),
        ],
        match discount_account {
            Some(d) => r.accounts@.len() == 15 && r.accounts@[14] == meta(d, false, false),
            None => r.accounts@.len() == 14,
        },
{
    let data = encode_instruction(&DexCall::NewOrder(new_order_params));
    let mut accounts = vec![
        readonly(agnostic_orderbook_program_id, false),
        readonly(Key::spl_token_program(), false),
        readonly(Key::system_program(), false),
        writable(market_account, false),
        readonly(market_signer, false),
        writable(orderbook, false),
        writable(event_queue, false),
        writable(bids, false),
        writable(asks, false),
        writable(base_vault, false),
        writable(quote_vault, false),
        writable(user_account, false),
        writable(user_token_account, false),
        writable(user_account_owner, true),
    ];
    let ghost head = accounts@;
    if let Some(a) = discount_account {
        accounts.push(readonly(a, false));
    }
    assert(accounts@.take(14) =~= head);
    Instruction { program_id: dex_program_id, accounts, data }
}

/// Cancel an existing order and remove it from the book.
pub fn cancel_order(
    dex_program_id: Key,
    agnostic_orderbook_program_id: Key,
    market_account: Key,
    market_signer: Key,
    orderbook: Key,
    event_queue: Key,
    bids: Key,
    asks: Key,
    user_account: Key,
    user_account_owner: Key,
    cancel_order_params: CancelOrderParams,
) -> (r: Instruction)
    ensures
        r.program_id == dex_program_id,
        r.data@ == instruction_bytes(DexCall::CancelOrder(cancel_order_params)),
        r.accounts@ == seq![
            meta(agnostic_orderbook_program_id, false, false),
            meta(market_account, false, false),
            meta(market_signer, false, false),
            meta(orderbook, false, true),
            meta(event_queue, false, true),
            meta(bids, false, true),
            meta(asks, false, true),
            meta(user_account, false, true),
            meta(user_account_owner, true, false),
        ],
{
    let data = encode_instruction(&DexCall::CancelOrder(cancel_order_params));
    let accounts = vec![
        readonly(agnostic_orderbook_program_id, false),
        readonly(market_account, false),
        readonly(market_signer, false),
        writable(orderbook, false),
        writable(event_queue, false),
        writable(bids, false),
        writable(asks, false),
        writable(user_account, false),
        readonly(user_account_owner, true),
    ];
    Instruction { program_id: dex_program_id, accounts, data }
}

/// Crank the processing of events; the user accounts the events refer to
/// follow the fixed head.
pub fn consume_events(
    dex_program_id: Key,
    agnostic_orderbook_program_id: Key,
    market_account: Key,
    market_signer: Key,
    orderbook: Key,
    event_queue: Key,
    reward_target: Key,
    quote_vault: Key,
    user_accounts: &Vec<Key>,
    consume_events_params: ConsumeEventsParams,
) -> (r: Instruction)
    requires
        user_accounts@.len() + 8 <= usize::MAX,
    ensures
        metas_meet(r.accounts@, consume_events_rules(dex_program_id)),
        r.program_id == dex_program_id,
        r.data@ == instruction_bytes(DexCall::ConsumeEvents(consume_events_params)),
        r.accounts@.len() == 8 + user_accounts@.len(),
        r.accounts@.take(8) == seq![
            meta(agnostic_orderbook_program_id, false, false),
            meta(market_account, false, true),
            meta(market_signer, false, false),
            meta(orderbook, false, true),
            meta(event_queue, false, true),
            meta(reward_target, false, true),
            meta(quote_vault, false, true),
            meta(Key::spl_token_program_spec(), false, false),
        ],
        forall|i: int|
            0 <= i < user_accounts@.len() ==> r.accounts@[8 + i] == meta(user_accounts@[i], false, true),
{
    let data = encode_instruction(&DexCall::ConsumeEvents(consume_events_params));
    let mut accounts = vec![
        readonly(agnostic_orderbook_program_id, false),
        writable(market_account, false),
        readonly(market_signer, false),
        writable(orderbook, false),
        writable(event_queue, false),
        writable(reward_target, false),
        writable(quote_vault, false),
        readonly(Key::spl_token_program(), false),
    ];
    let ghost head = accounts@;
    let mut i: usize = 0;
    while i < user_accounts.len()
        invariant
            i <= user_accounts@.len(),
            accounts@.len() == 8 + i,
            accounts@.take(8) == head,
            forall|j: int| 0 <= j < i ==> accounts@[8 + j] == meta(user_accounts@[j], false, true),
        decreases user_accounts@.len() - i,
    {
        accounts.push(writable(user_accounts[i], false));
        i += 1;
        assert(accounts@.take(8) =~= head);
    }
    Instruction { program_id: dex_program_id, accounts, data }
}

/// Initialize a new user account.
pub fn initialize_account(
    dex_program_id: Key,
    user_account: Key,
    user_account_owner: Key,
    fee_payer: Key,
    params: InitializeAccountParams,
) -> (r: Instruction)
    ensures
        metas_meet(r.accounts@, initialize_account_rules()),
        r.program_id == dex_program_id,
        r.data@ == instruction_bytes(DexCall::InitializeAccount(params)),
        r.accounts@ == seq![
            meta(Key::system_program_spec(), false, false),
            meta(user_account, false, true),
            meta(user_account_owner, true, false),
            meta(fee_payer, true, true),
        ],
{
    let data = encode_instruction(&DexCall::InitializeAccount(params));
    let accounts = vec![
        readonly(Key::system_program(), false),
        writable(user_account, false),
        readonly(user_account_owner, true),
        writable(fee_payer, true),
    ];
    Instruction { program_id: dex_program_id, accounts, data }
}

/// Extract the accumulated fees of the market; the admin signs.
pub fn sweep_fees(
    dex_program_id: Key,
    market_account: Key,
    market_signer: Key,
    market_admin: Key,
    quote_vault: Key,
    destination_token_account: Key,
) -> (r: Instruction)
    ensures
        metas_meet(r.accounts@, sweep_fees_rules(dex_program_id)),
        r.program_id == dex_program_id,
        r.data@ == instruction_bytes(DexCall::SweepFees),
        r.accounts@ == seq![
            meta(market_account, false, true),
            meta(market_signer, false, false),
            meta(market_admin, true, false),
            meta(quote_vault, false, true),
            meta(destination_token_account, false, true),
            meta(Key::spl_token_program_spec(), false, false),
        ],
{
    let data = encode_instruction(&DexCall::SweepFees);
    let accounts = vec![
        writable(market_account, false),
        readonly(market_signer, false),
        readonly(market_admin, true),
        writable(quote_vault, false),
        writable(destination_token_account, false),
        readonly(Key::spl_token_program(), false),
    ];
    Instruction { program_id: dex_program_id, accounts, data }
}

/// Extract the free base and quote balances of a user account.
pub fn settle(
    dex_program_id: Key,
    market_account: Key,
    market_signer: Key,
    base_vault: Key,
    quote_vault: Key,
    user_account: Key,
    user_account_owner: Key,
    destination_base_account: Key,
    destination_quote_account: Key,
) -> (r: Instruction)
    ensures
        metas_meet(r.accounts@, settle_rules(dex_program_id)),
        r.program_id == dex_program_id,
        r.data@ == instruction_bytes(DexCall::Settle(Params {})),
        r.accounts@ == seq![
            meta(Key::spl_token_program_spec(), false, false),
            meta(market_account, false, false),
            meta(base_vault, false, true),
            meta(quote_vault, false, true),
            meta(market_signer, false, false),
            meta(user_account, false, true),
            meta(user_account_owner, true, false),
            meta(destination_base_account, false, true),
            meta(destination_quote_account, false, true),
        ],
{
    let data = encode_instruction(&DexCall::Settle(Params {}));
    let accounts = vec![
        readonly(Key::spl_token_program(), false),
        readonly(market_account, false),
        writable(base_vault, false),
        writable(quote_vault, false),
        readonly(market_signer, false),
        writable(user_account, false),
        readonly(user_account_owner, true),
        writable(destination_base_account, false),
        writable(destination_quote_account, false),
    ];
    Instruction { program_id: dex_program_id, accounts, data }
}

/// Close an inactive and fully settled user account.
pub fn close_account(
    dex_program_id: Key,
    user_account: Key,
    user_account_owner: Key,
    target_lamports_account: Key,
) -> (r: Instruction)
    ensures
        metas_meet(r.accounts@, close_account_rules(dex_program_id)),
        r.program_id == dex_program_id,
        r.data@ == instruction_bytes(DexCall::CloseAccount),
        r.accounts@ == seq![
            meta(user_account, false, true),
            meta(user_account_owner, true, false),
            meta(target_lamports_account, false, true),
        ],
{
    let data = encode_instruction(&DexCall::CloseAccount);
    let accounts = vec![
        writable(user_account, false),
        readonly(user_account_owner, true),
        writable(target_lamports_account, false),
    ];
    Instruction { program_id: dex_program_id, accounts, data }
}

/// Close an existing market whose vaults are empty.
pub fn close_market(
    dex_program_id: Key,
    market: Key,
    base_vault: Key,
    quote_vault: Key,
    market_signer: Key,
    orderbook: Key,
    event_queue: Key,
    bids: Key,
    asks: Key,
    aaob_program: Key,
    market_admin: Key,
    target_lamports_account: Key,
) -> (r: Instruction)
    ensures
        metas_meet(r.accounts@, close_market_rules(dex_program_id)),
        r.program_id == dex_program_id,
        r.data@ == instruction_bytes(DexCall::CloseMarket),
        r.accounts@ == seq![
            meta(market, false, true),
            meta(base_vault, false, true),
            meta(quote_vault, false, true),
            meta(market_signer, false, true),
            meta(orderbook, false, true),
            meta(event_queue, false, true),
            meta(bids, false, true),
            meta(asks, false, true),
            meta(aaob_program, false, false),
            meta(market_admin, true, false),
            meta(target_lamports_account, false, true),
        ],
{
    let data = encode_instruction(&DexCall::CloseMarket);
    let accounts = vec![
        writable(market, false),
        writable(base_vault, false),
        writable(quote_vault, false),
        writable(market_signer, false),
        writable(orderbook, false),
        writable(event_queue, false),
        writable(bids, false),
        writable(asks, false),
        readonly(aaob_program, false),
        readonly(market_admin, true),
        writable(target_lamports_account, false),
    ];
    Instruction { program_id: dex_program_id, accounts, data }
}

} // verus!
