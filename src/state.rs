use vstd::prelude::*;
use crate::codec::{le_bytes, lemma_le_round_trip, push_key, push_u64, read_key, read_u64};
use crate::key::Key;

verus! {

broadcast use vstd::array::group_array_axioms;

/// First byte of a market record.
pub const MARKET_TAG: u8 = 1;

/// First byte of a user account record.
pub const USER_TAG: u8 = 2;

/// Size in bytes of a market record.
pub const MARKET_LEN: usize = 178;

/// Size in bytes of a user account record.
pub const USER_LEN: usize = 105;

/// The record of one trading pair.
#[derive(Clone, Copy, Debug, PartialEq, Eq)]
pub struct MarketState {
    /// The bump that, with the market address, derives the vault authority.
    pub signer_nonce: u8,
    pub admin: Key,
    pub base_vault: Key,
    pub quote_vault: Key,
    /// The linked order-matching program.
    pub aaob_program: Key,
    pub orderbook: Key,
    /// Fees collected in quote units and not yet swept.
    pub accumulated_fees: u64,
    /// Quote units paid to a crank per applied event.
    pub crank_reward: u64,
}

/// The balances of one trader on one market.
#[derive(Clone, Copy, Debug, PartialEq, Eq)]
pub struct UserAccount {
    pub owner: Key,
    pub market: Key,
    pub base_free: u64,
    pub base_locked: u64,
    pub quote_free: u64,
    pub quote_locked: u64,
    /// Number of orders still resting on the book.
    pub open_orders: u64,
}

/// The fixed-size layout of a market record.
pub open spec fn market_bytes(m: MarketState) -> Seq<u8> {
    seq![MARKET_TAG, m.signer_nonce] + m.admin@ + m.base_vault@ + m.quote_vault@ + m.aaob_program@
        + m.orderbook@ + le_bytes(m.accumulated_fees) + le_bytes(m.crank_reward)
}

/// The fixed-size layout of a user account record.
pub open spec fn user_bytes(u: UserAccount) -> Seq<u8> {
    seq![USER_TAG] + u.owner@ + u.market@ + le_bytes(u.base_free) + le_bytes(u.base_locked)
        + le_bytes(u.quote_free) + le_bytes(u.quote_locked) + le_bytes(u.open_orders)
}

/// Bytes that have the size and tag of a market record.
pub open spec fn is_market_shape(b: Seq<u8>) -> bool {
    b.len() == MARKET_LEN && b[0] == MARKET_TAG
}

/// Bytes that have the size and tag of a user account record.
pub open spec fn is_user_shape(b: Seq<u8>) -> bool {
    b.len() == USER_LEN && b[0] == USER_TAG
}

pub proof fn lemma_key_view_injective(a: Key, b: Key)
    requires
        a@ == b@,
    ensures
        a == b,
{
    assert(a.bytes == b.bytes);
}

pub proof fn lemma_u64_bytes_injective(a: u64, b: u64)
    requires
        le_bytes(a) == le_bytes(b),
    ensures
        a == b,
{
    lemma_le_round_trip(a);
    lemma_le_round_trip(b);
}

pub proof fn lemma_market_bytes(m: MarketState)
    ensures
        market_bytes(m).len() == MARKET_LEN,
        is_market_shape(market_bytes(m)),
        market_bytes(m).subrange(2, 34) == m.admin@,
        market_bytes(m).subrange(34, 66) == m.base_vault@,
        market_bytes(m).subrange(66, 98) == m.quote_vault@,
        market_bytes(m).subrange(98, 130) == m.aaob_program@,
        market_bytes(m).subrange(130, 162) == m.orderbook@,
        market_bytes(m).subrange(162, 170) == le_bytes(m.accumulated_fees),
        market_bytes(m).subrange(170, 178) == le_bytes(m.crank_reward),
        market_bytes(m)[1] == m.signer_nonce,
{
    let b = market_bytes(m);
    assert(b.subrange(2, 34) =~= m.admin@);
    assert(b.subrange(34, 66) =~= m.base_vault@);
    assert(b.subrange(66, 98) =~= m.quote_vault@);
    assert(b.subrange(98, 130) =~= m.aaob_program@);
    assert(b.subrange(130, 162) =~= m.orderbook@);
    assert(b.subrange(162, 170) =~= le_bytes(m.accumulated_fees));
    assert(b.subrange(170, 178) =~= le_bytes(m.crank_reward));
}

pub proof fn lemma_user_bytes(u: UserAccount)
    ensures
        user_bytes(u).len() == USER_LEN,
        is_user_shape(user_bytes(u)),
        user_bytes(u).subrange(1, 33) == u.owner@,
        user_bytes(u).subrange(33, 65) == u.market@,
        user_bytes(u).subrange(65, 73) == le_bytes(u.base_free),
        user_bytes(u).subrange(73, 81) == le_bytes(u.base_locked),
        user_bytes(u).subrange(81, 89) == le_bytes(u.quote_free),
        user_bytes(u).subrange(89, 97) == le_bytes(u.quote_locked),
        user_bytes(u).subrange(97, 105) == le_bytes(u.open_orders),
{
    let b = user_bytes(u);
    assert(b.subrange(1, 33) =~= u.owner@);
    assert(b.subrange(33, 65) =~= u.market@);
    assert(b.subrange(65, 73) =~= le_bytes(u.base_free));
    assert(b.subrange(73, 81) =~= le_bytes(u.base_locked));
    assert(b.subrange(81, 89) =~= le_bytes(u.quote_free));
    assert(b.subrange(89, 97) =~= le_bytes(u.quote_locked));
    assert(b.subrange(97, 105) =~= le_bytes(u.open_orders));
}

/// Distinct market records have distinct layouts.
pub proof fn lemma_market_bytes_injective(a: MarketState, b: MarketState)
    requires
        market_bytes(a) == market_bytes(b),
    ensures
        a == b,
{
    lemma_market_bytes(a);
    lemma_market_bytes(b);
    lemma_key_view_injective(a.admin, b.admin);
    lemma_key_view_injective(a.base_vault, b.base_vault);
    lemma_key_view_injective(a.quote_vault, b.quote_vault);
    lemma_key_view_injective(a.aaob_program, b.aaob_program);
    lemma_key_view_injective(a.orderbook, b.orderbook);
    lemma_u64_bytes_injective(a.accumulated_fees, b.accumulated_fees);
    lemma_u64_bytes_injective(a.crank_reward, b.crank_reward);
}

/// Distinct user records have distinct layouts.
pub proof fn lemma_user_bytes_injective(a: UserAccount, b: UserAccount)
    requires
        user_bytes(a) == user_bytes(b),
    ensures
        a == b,
{
    lemma_user_bytes(a);
    lemma_user_bytes(b);
    lemma_key_view_injective(a.owner, b.owner);
    lemma_key_view_injective(a.market, b.market);
    lemma_u64_bytes_injective(a.base_free, b.base_free);
    lemma_u64_bytes_injective(a.base_locked, b.base_locked);
    lemma_u64_bytes_injective(a.quote_free, b.quote_free);
    lemma_u64_bytes_injective(a.quote_locked, b.quote_locked);
    lemma_u64_bytes_injective(a.open_orders, b.open_orders);
}

impl MarketState {
    /// Serialises the record into its fixed layout.
    pub fn to_bytes(&self) -> (r: Vec<u8>)
        ensures
            r@ == market_bytes(*self),
    {
        let mut out: Vec<u8> = Vec::new();
        out.push(MARKET_TAG);
        out.push(self.signer_nonce);
        push_key(&mut out, &self.admin);
        push_key(&mut out, &self.base_vault);
        push_key(&mut out, &self.quote_vault);
        push_key(&mut out, &self.aaob_program);
        push_key(&mut out, &self.orderbook);
        push_u64(&mut out, self.accumulated_fees);
        push_u64(&mut out, self.crank_reward);
        assert(out@ =~= market_bytes(*self));
        out
    }

    /// Reads a record from its fixed layout; `None` where size or tag is wrong.
    pub fn from_bytes(b: &Vec<u8>) -> (r: Option<MarketState>)
        ensures
            r is Some <==> is_market_shape(b@),
            r matches Some(m) ==> market_bytes(m) == b@,
    {
        if b.len() != MARKET_LEN || b[0] != MARKET_TAG {
            return None;
        }
        let m = MarketState {
            signer_nonce: b[1],
            admin: read_key(b, 2),
            base_vault: read_key(b, 34),
            quote_vault: read_key(b, 66),
            aaob_program: read_key(b, 98),
            orderbook: read_key(b, 130),
            accumulated_fees: read_u64(b, 162),
            crank_reward: read_u64(b, 170),
        };
        proof {
            lemma_market_bytes(m);
            crate::codec::lemma_le_bytes_of_value(b@.subrange(162, 170));
            crate::codec::lemma_le_bytes_of_value(b@.subrange(170, 178));
            let e = market_bytes(m);
            assert forall|i: int| 0 <= i < MARKET_LEN implies e[i] == b@[i] by {
                if 2 <= i < 34 {
                    assert(e[i] == e.subrange(2, 34)[i - 2]);
                } else if 34 <= i < 66 {
                    assert(e[i] == e.subrange(34, 66)[i - 34]);
                } else if 66 <= i < 98 {
                    assert(e[i] == e.subrange(66, 98)[i - 66]);
                } else if 98 <= i < 130 {
                    assert(e[i] == e.subrange(98, 130)[i - 98]);
                } else if 130 <= i < 162 {
                    assert(e[i] == e.subrange(130, 162)[i - 130]);
                } else if 162 <= i < 170 {
                    assert(e[i] == e.subrange(162, 170)[i - 162]);
                } else if 170 <= i < 178 {
                    assert(e[i] == e.subrange(170, 178)[i - 170]);
                }
            }
            assert(e =~= b@);
        }
        Some(m)
    }
}

impl UserAccount {
    /// A fresh record with every balance at zero.
    pub fn new(owner: Key, market: Key) -> (r: UserAccount)
        ensures
            r == (UserAccount {
                owner,
                market,
                base_free: 0,
                base_locked: 0,
                quote_free: 0,
                quote_locked: 0,
                open_orders: 0,
            }),
    {
        UserAccount {
            owner,
            market,
            base_free: 0,
            base_locked: 0,
            quote_free: 0,
            quote_locked: 0,
            open_orders: 0,
        }
    }

    /// Serialises the record into its fixed layout.
    pub fn to_bytes(&self) -> (r: Vec<u8>)
        ensures
            r@ == user_bytes(*self),
    {
        let mut out: Vec<u8> = Vec::new();
        out.push(USER_TAG);
        push_key(&mut out, &self.owner);
        push_key(&mut out, &self.market);
        push_u64(&mut out, self.base_free);
        push_u64(&mut out, self.base_locked);
        push_u64(&mut out, self.quote_free);
        push_u64(&mut out, self.quote_locked);
        push_u64(&mut out, self.open_orders);
        assert(out@ =~= user_bytes(*self));
        out
    }

    /// Reads a record from its fixed layout; `None` where size or tag is wrong.
    pub fn from_bytes(b: &Vec<u8>) -> (r: Option<UserAccount>)
        ensures
            r is Some <==> is_user_shape(b@),
            r matches Some(u) ==> user_bytes(u) == b@,
    {
        if b.len() != USER_LEN || b[0] != USER_TAG {
            return None;
        }
        let u = UserAccount {
            owner: read_key(b, 1),
            market: read_key(b, 33),
            base_free: read_u64(b, 65),
            base_locked: read_u64(b, 73),
            quote_free: read_u64(b, 81),
            quote_locked: read_u64(b, 89),
            open_orders: read_u64(b, 97),
        };
        proof {
            lemma_user_bytes(u);
            let e = user_bytes(u);
            crate::codec::lemma_le_bytes_of_value(b@.subrange(65, 73));
            crate::codec::lemma_le_bytes_of_value(b@.subrange(73, 81));
            crate::codec::lemma_le_bytes_of_value(b@.subrange(81, 89));
            crate::codec::lemma_le_bytes_of_value(b@.subrange(89, 97));
            crate::codec::lemma_le_bytes_of_value(b@.subrange(97, 105));
            assert forall|i: int| 0 <= i < USER_LEN implies e[i] == b@[i] by {
                if 1 <= i < 33 {
                    assert(e[i] == e.subrange(1, 33)[i - 1]);
                } else if 33 <= i < 65 {
                    assert(e[i] == e.subrange(33, 65)[i - 33]);
                } else if 65 <= i < 73 {
                    assert(e[i] == e.subrange(65, 73)[i - 65]);
                } else if 73 <= i < 81 {
                    assert(e[i] == e.subrange(73, 81)[i - 73]);
                } else if 81 <= i < 89 {
                    assert(e[i] == e.subrange(81, 89)[i - 81]);
                } else if 89 <= i < 97 {
                    assert(e[i] == e.subrange(89, 97)[i - 89]);
                } else if 97 <= i < 105 {
                    assert(e[i] == e.subrange(97, 105)[i - 97]);
                }
            }
            assert(e =~= b@);
        }
        Some(u)
    }
}

} // verus!
