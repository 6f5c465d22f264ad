use vstd::prelude::*;
use crate::codec::{le_bytes, le_value, lemma_le_bytes_of_value, push_key, push_u64, read_key, read_u64};
use crate::consume_events::ConsumeEventsParams;
use crate::create_market::CreateMarketParams;
use crate::initialize_account::InitializeAccountParams;
use crate::settle::Params;

verus! {

/// The instructions of the program, each with its stable tag.
#[derive(Clone, Copy, Debug, PartialEq, Eq, Structural)]
pub enum DexInstruction {
    CreateMarket,
    NewOrder,
    CancelOrder,
    ConsumeEvents,
    Settle,
    InitializeAccount,
    SweepFees,
    CloseAccount,
    CloseMarket,
}

/// The kinds of order the matching program accepts.
#[derive(Clone, Copy, Debug, PartialEq, Eq, Structural)]
pub enum OrderType {
    Limit,
    ImmediateOrCancel,
    FillOrKill,
    PostOnly,
}

/// The side of the book an order goes to.
#[derive(Clone, Copy, Debug, PartialEq, Eq, Structural)]
pub enum Side {
    Bid,
    Ask,
}

/// The payload of a new order.
#[derive(Clone, Copy, Debug, PartialEq, Eq, Structural)]
pub struct NewOrderParams {
    pub side: Side,
    pub limit_price: u64,
    pub max_base_qty: u64,
    pub max_quote_qty: u64,
    pub order_type: OrderType,
    /// The most resting orders a match may go through.
    pub match_limit: u64,
}

/// The payload of an order cancellation.
#[derive(Clone, Copy, Debug, PartialEq, Eq, Structural)]
pub struct CancelOrderParams {
    pub order_id: u128,
}

/// A decoded instruction: its opcode with its typed payload.
#[derive(Clone, Copy, Debug, PartialEq, Eq)]
pub enum DexCall {
    CreateMarket(CreateMarketParams),
    NewOrder(NewOrderParams),
    CancelOrder(CancelOrderParams),
    ConsumeEvents(ConsumeEventsParams),
    Settle(Params),
    InitializeAccount(InitializeAccountParams),
    SweepFees,
    CloseAccount,
    CloseMarket,
}

/// Size of the opcode tag that starts every payload.
pub const TAG_LEN: usize = 8;

impl DexInstruction {
    pub open spec fn tag_spec(self) -> u64 {
        match self {
            DexInstruction::CreateMarket => 0,
            DexInstruction::NewOrder => 1,
            DexInstruction::CancelOrder => 2,
            DexInstruction::ConsumeEvents => 3,
            DexInstruction::Settle => 4,
            DexInstruction::InitializeAccount => 5,
            DexInstruction::SweepFees => 6,
            DexInstruction::CloseAccount => 7,
            DexInstruction::CloseMarket => 8,
        }
    }

    /// The instruction's tag.
    pub fn tag(&self) -> (r: u64)
        ensures
            r == self.tag_spec(),
    {
        match self {
            DexInstruction::CreateMarket => 0,
            DexInstruction::NewOrder => 1,
            DexInstruction::CancelOrder => 2,
            DexInstruction::ConsumeEvents => 3,
            DexInstruction::Settle => 4,
            DexInstruction::InitializeAccount => 5,
            DexInstruction::SweepFees => 6,
            DexInstruction::CloseAccount => 7,
            DexInstruction::CloseMarket => 8,
        }
    }

    /// The wire form of the instruction: its tag, little-endian on eight
    /// bytes, then the payload bytes.
    pub fn serialize(&self, params: &Vec<u8>) -> (r: Vec<u8>)
        ensures
            r@ == le_bytes(self.tag_spec()) + params@,
    {
        let mut out: Vec<u8> = Vec::new();
        push_u64(&mut out, self.tag());
        let mut i: usize = 0;
        while i < params.len()
            invariant
                i <= params@.len(),
                out@ == le_bytes(self.tag_spec()) + params@.take(i as int),
            decreases params@.len() - i,
        {
            out.push(params[i]);
            i += 1;
            assert(out@ =~= le_bytes(self.tag_spec()) + params@.take(i as int));
        }
        assert(params@.take(params@.len() as int) =~= params@);
        out
    }
}

pub open spec fn order_type_byte(t: OrderType) -> u8 {
    match t {
        OrderType::Limit => 0,
        OrderType::ImmediateOrCancel => 1,
        OrderType::FillOrKill => 2,
        OrderType::PostOnly => 3,
    }
}

pub open spec fn side_byte(s: Side) -> u8 {
    match s {
        Side::Bid => 0,
        Side::Ask => 1,
    }
}

/// The sixteen little-endian bytes of a `u128`.
pub open spec fn u128_bytes(v: u128) -> Seq<u8> {
    le_bytes(v as u64) + le_bytes((v >> 64u128) as u64)
}

/// The fixed layout of each payload.
pub open spec fn payload_bytes(c: DexCall) -> Seq<u8> {
    match c {
        DexCall::CreateMarket(p) => le_bytes(p.crank_reward),
        DexCall::NewOrder(p) => le_bytes(p.limit_price) + le_bytes(p.max_base_qty) + le_bytes(
            p.max_quote_qty,
        ) + le_bytes(p.match_limit) + seq![side_byte(p.side), order_type_byte(p.order_type)],
        DexCall::CancelOrder(p) => u128_bytes(p.order_id),
        DexCall::ConsumeEvents(p) => le_bytes(p.max_iterations),
        DexCall::InitializeAccount(p) => p.market@,
        _ => Seq::empty(),
    }
}

pub open spec fn opcode_of(c: DexCall) -> DexInstruction {
    match c {
        DexCall::CreateMarket(_) => DexInstruction::CreateMarket,
        DexCall::NewOrder(_) => DexInstruction::NewOrder,
        DexCall::CancelOrder(_) => DexInstruction::CancelOrder,
        DexCall::ConsumeEvents(_) => DexInstruction::ConsumeEvents,
        DexCall::Settle(_) => DexInstruction::Settle,
        DexCall::InitializeAccount(_) => DexInstruction::InitializeAccount,
        DexCall::SweepFees => DexInstruction::SweepFees,
        DexCall::CloseAccount => DexInstruction::CloseAccount,
        DexCall::CloseMarket => DexInstruction::CloseMarket,
    }
}

/// The wire form of a decoded instruction.
pub open spec fn instruction_bytes(c: DexCall) -> Seq<u8> {
    le_bytes(opcode_of(c).tag_spec()) + payload_bytes(c)
}

/// The payload size that the tag calls for; `None` for an unknown tag.
pub open spec fn payload_len(tag: u64) -> Option<nat> {
    if tag == 0 || tag == 3 {
        Some(8)
    } else if tag == 1 {
        Some(34)
    } else if tag == 2 {
        Some(16)
    } else if tag == 5 {
        Some(32)
    } else if tag == 4 || tag == 6 || tag == 7 || tag == 8 {
        Some(0)
    } else {
        None
    }
}

/// Bytes that decode: a known tag followed by exactly its payload, whose
/// enumeration bytes are in range.
pub open spec fn decodable(b: Seq<u8>) -> bool {
    &&& b.len() >= TAG_LEN
    &&& payload_len(le_value(b)) matches Some(n)
    &&& b.len() == TAG_LEN + n
    &&& le_value(b) == 1 ==> b[40] <= 1 && b[41] <= 3
}

fn decode_order_type(b: u8) -> (r: OrderType)
    requires
        b <= 3,
    ensures
        order_type_byte(r) == b,
{
    if b == 0 {
        OrderType::Limit
    } else if b == 1 {
        OrderType::ImmediateOrCancel
    } else if b == 2 {
        OrderType::FillOrKill
    } else {
        OrderType::PostOnly
    }
}

proof fn lemma_u128_halves(lo: u64, hi: u64)
    ensures
        ((((hi as u128) << 64u128) | (lo as u128)) as u64) == lo,
        (((((hi as u128) << 64u128) | (lo as u128)) >> 64u128) as u64) == hi,
{
    assert(((((hi as u128) << 64u128) | (lo as u128)) as u64) == lo) by (bit_vector);
    assert((((((hi as u128) << 64u128) | (lo as u128)) >> 64u128) as u64) == hi) by (bit_vector);
}

/// Decodes an instruction payload into its typed form.
pub fn decode_instruction(data: &Vec<u8>) -> (r: Option<DexCall>)
    ensures
        r is Some <==> decodable(data@),
        r matches Some(c) ==> instruction_bytes(c) == data@,
{
    if data.len() < TAG_LEN {
        return None;
    }
    let tag = read_u64(data, 0);
    proof {
        lemma_le_bytes_of_value(data@.subrange(0, 8));
        assert(le_value(data@) == le_value(data@.subrange(0, 8)));
    }
    let n = data.len() - TAG_LEN;
    let c = if tag == 0 && n == 8 {
        DexCall::CreateMarket(CreateMarketParams { crank_reward: read_u64(data, 8) })
    } else if tag == 1 && n == 34 && data[40] <= 1 && data[41] <= 3 {
        let side = if data[40] == 0 {
            Side::Bid
        } else {
            Side::Ask
        };
        DexCall::NewOrder(
            NewOrderParams {
                side,
                limit_price: read_u64(data, 8),
                max_base_qty: read_u64(data, 16),
                max_quote_qty: read_u64(data, 24),
                order_type: decode_order_type(data[41]),
                match_limit: read_u64(data, 32),
            },
        )
    } else if tag == 2 && n == 16 {
        let lo = read_u64(data, 8);
        let hi = read_u64(data, 16);
        proof {
            lemma_u128_halves(lo, hi);
        }
        DexCall::CancelOrder(CancelOrderParams { order_id: ((hi as u128) << 64u128) | (lo as u128) })
    } else if tag == 3 && n == 8 {
        DexCall::ConsumeEvents(ConsumeEventsParams { max_iterations: read_u64(data, 8) })
    } else if tag == 4 && n == 0 {
        DexCall::Settle(Params {})
    } else if tag == 5 && n == 32 {
        DexCall::InitializeAccount(InitializeAccountParams { market: read_key(data, 8) })
    } else if tag == 6 && n == 0 {
        DexCall::SweepFees
    } else if tag == 7 && n == 0 {
        DexCall::CloseAccount
    } else if tag == 8 && n == 0 {
        DexCall::CloseMarket
    } else {
        return None;
    };
    proof {
        let p = data@.subrange(8, data@.len() as int);
        assert(data@ =~= data@.subrange(0, 8) + p);
        assert(opcode_of(c).tag_spec() == tag);
        if tag == 0 || tag == 3 {
            lemma_le_bytes_of_value(p);
            assert(p =~= data@.subrange(8, 16));
        } else if tag == 1 {
            lemma_le_bytes_of_value(data@.subrange(8, 16));
            lemma_le_bytes_of_value(data@.subrange(16, 24));
            lemma_le_bytes_of_value(data@.subrange(24, 32));
            lemma_le_bytes_of_value(data@.subrange(32, 40));
            assert(p =~= data@.subrange(8, 16) + data@.subrange(16, 24) + data@.subrange(24, 32)
                + data@.subrange(32, 40) + seq![data@[40], data@[41]]);
        } else if tag == 2 {
            lemma_le_bytes_of_value(data@.subrange(8, 16));
            lemma_le_bytes_of_value(data@.subrange(16, 24));
            assert(p =~= data@.subrange(8, 16) + data@.subrange(16, 24));
        }
        assert(payload_bytes(c) =~= p);
    }
    Some(c)
}

/// The wire form of a decoded instruction.
pub fn encode_instruction(c: &DexCall) -> (r: Vec<u8>)
    ensures
        r@ == instruction_bytes(*c),
{
    let mut out: Vec<u8> = Vec::new();
    let op = match c {
        DexCall::CreateMarket(_) => DexInstruction::CreateMarket,
        DexCall::NewOrder(_) => DexInstruction::NewOrder,
        DexCall::CancelOrder(_) => DexInstruction::CancelOrder,
        DexCall::ConsumeEvents(_) => DexInstruction::ConsumeEvents,
        DexCall::Settle(_) => DexInstruction::Settle,
        DexCall::InitializeAccount(_) => DexInstruction::InitializeAccount,
        DexCall::SweepFees => DexInstruction::SweepFees,
        DexCall::CloseAccount => DexInstruction::CloseAccount,
        DexCall::CloseMarket => DexInstruction::CloseMarket,
    };
    push_u64(&mut out, op.tag());
    match c {
        DexCall::CreateMarket(p) => push_u64(&mut out, p.crank_reward),
        DexCall::NewOrder(p) => {
            push_u64(&mut out, p.limit_price);
            push_u64(&mut out, p.max_base_qty);
            push_u64(&mut out, p.max_quote_qty);
            push_u64(&mut out, p.match_limit);
            out.push(
                match p.side {
                    Side::Bid => 0u8,
                    Side::Ask => 1u8,
                },
            );
            out.push(
                match p.order_type {
                    OrderType::Limit => 0u8,
                    OrderType::ImmediateOrCancel => 1u8,
                    OrderType::FillOrKill => 2u8,
                    OrderType::PostOnly => 3u8,
                },
            );
        },
        DexCall::CancelOrder(p) => {
            push_u64(&mut out, p.order_id as u64);
            push_u64(&mut out, (p.order_id >> 64u128) as u64);
        },
        DexCall::ConsumeEvents(p) => push_u64(&mut out, p.max_iterations),
        DexCall::InitializeAccount(p) => push_key(&mut out, &p.market),
        _ => {},
    }
    assert(out@ =~= instruction_bytes(*c));
    out
}

} // verus!

verus! {

proof fn lemma_u128_from_halves(a: u128, b: u128)
    requires
        a as u64 == b as u64,
        (a >> 64u128) as u64 == (b >> 64u128) as u64,
    ensures
        a == b,
{
    assert(a as u64 == b as u64 && (a >> 64u128) as u64 == (b >> 64u128) as u64 ==> a == b)
        by (bit_vector);
}

/// Distinct instructions have distinct wire forms.
pub proof fn lemma_instruction_bytes_injective(c1: DexCall, c2: DexCall)
    requires
        instruction_bytes(c1) == instruction_bytes(c2),
    ensures
        c1 == c2,
{
    let b1 = instruction_bytes(c1);
    let b2 = instruction_bytes(c2);
    let t1 = opcode_of(c1).tag_spec();
    let t2 = opcode_of(c2).tag_spec();
    assert(b1.subrange(0, 8) =~= le_bytes(t1));
    assert(b2.subrange(0, 8) =~= le_bytes(t2));
    crate::state::lemma_u64_bytes_injective(t1, t2);
    let pa = payload_bytes(c1);
    let pb = payload_bytes(c2);
    assert(b1.subrange(8, b1.len() as int) =~= pa);
    assert(b2.subrange(8, b2.len() as int) =~= pb);
    assert(pa == pb);
    match (c1, c2) {
        (DexCall::CreateMarket(x), DexCall::CreateMarket(y)) => {
            crate::state::lemma_u64_bytes_injective(x.crank_reward, y.crank_reward);
        },
        (DexCall::ConsumeEvents(x), DexCall::ConsumeEvents(y)) => {
            crate::state::lemma_u64_bytes_injective(x.max_iterations, y.max_iterations);
        },
        (DexCall::InitializeAccount(x), DexCall::InitializeAccount(y)) => {
            crate::state::lemma_key_view_injective(x.market, y.market);
        },
        (DexCall::CancelOrder(x), DexCall::CancelOrder(y)) => {
            assert(pa.subrange(0, 8) =~= le_bytes(x.order_id as u64));
            assert(pb.subrange(0, 8) =~= le_bytes(y.order_id as u64));
            assert(pa.subrange(8, 16) =~= le_bytes((x.order_id >> 64u128) as u64));
            assert(pb.subrange(8, 16) =~= le_bytes((y.order_id >> 64u128) as u64));
            crate::state::lemma_u64_bytes_injective(x.order_id as u64, y.order_id as u64);
            crate::state::lemma_u64_bytes_injective(
                (x.order_id >> 64u128) as u64,
                (y.order_id >> 64u128) as u64,
            );
            lemma_u128_from_halves(x.order_id, y.order_id);
        },
        (DexCall::NewOrder(x), DexCall::NewOrder(y)) => {
            assert(pa.subrange(0, 8) =~= le_bytes(x.limit_price));
            assert(pb.subrange(0, 8) =~= le_bytes(y.limit_price));
            assert(pa.subrange(8, 16) =~= le_bytes(x.max_base_qty));
            assert(pb.subrange(8, 16) =~= le_bytes(y.max_base_qty));
            assert(pa.subrange(16, 24) =~= le_bytes(x.max_quote_qty));
            assert(pb.subrange(16, 24) =~= le_bytes(y.max_quote_qty));
            assert(pa.subrange(24, 32) =~= le_bytes(x.match_limit));
            assert(pb.subrange(24, 32) =~= le_bytes(y.match_limit));
            crate::state::lemma_u64_bytes_injective(x.limit_price, y.limit_price);
            crate::state::lemma_u64_bytes_injective(x.max_base_qty, y.max_base_qty);
            crate::state::lemma_u64_bytes_injective(x.max_quote_qty, y.max_quote_qty);
            crate::state::lemma_u64_bytes_injective(x.match_limit, y.match_limit);
            assert(pa[32] == side_byte(x.side) && pb[32] == side_byte(y.side));
            assert(pa[33] == order_type_byte(x.order_type) && pb[33] == order_type_byte(y.order_type));
        },
        _ => {},
    }
}

/// Every instruction's wire form decodes.
pub proof fn lemma_instruction_bytes_decodable(c: DexCall)
    ensures
        decodable(instruction_bytes(c)),
{
    let b = instruction_bytes(c);
    let t = opcode_of(c).tag_spec();
    crate::codec::lemma_le_round_trip(t);
    assert(b.subrange(0, 8) =~= le_bytes(t));
    assert(le_value(b) == le_value(le_bytes(t)));
    if let DexCall::CancelOrder(p) = c {
        crate::codec::lemma_le_round_trip(p.order_id as u64);
        crate::codec::lemma_le_round_trip((p.order_id >> 64u128) as u64);
    }
    if let DexCall::NewOrder(p) = c {
        assert(b[40] == side_byte(p.side));
        assert(b[41] == order_type_byte(p.order_type));
    }
}

} // verus!
