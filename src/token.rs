use vstd::prelude::*;
use solana_program::program_pack::Pack;
use crate::codec::le_value;
use crate::key::Key;

verus! {

/// Size of a token account of the fungible-token program.
pub const TOKEN_ACCOUNT_LEN: usize = 165;

/// The four-byte option tag at `off` is "none" or "some".
pub open spec fn option_tag_ok(b: Seq<u8>, off: int) -> bool {
    (b[off] == 0 || b[off] == 1) && b[off + 1] == 0 && b[off + 2] == 0 && b[off + 3] == 0
}

/// `b` is an initialised token account: its size, its state byte and its three
/// option tags (delegate, native amount, close authority) are valid.
pub open spec fn token_account_ok(b: Seq<u8>) -> bool {
    &&& b.len() == TOKEN_ACCOUNT_LEN
    &&& (b[108] == 1 || b[108] == 2)
    &&& option_tag_ok(b, 72)
    &&& option_tag_ok(b, 109)
    &&& option_tag_ok(b, 129)
}

/// The owner field of a token account.
pub open spec fn token_owner(b: Seq<u8>) -> Seq<u8> {
    b.subrange(32, 64)
}

/// The amount field of a token account.
pub open spec fn token_amount(b: Seq<u8>) -> u64 {
    le_value(b.subrange(64, 72))
}

/// Relies on spl_token's `Account::unpack`: it accepts exactly the 165-byte
/// initialised accounts with valid option tags, and reads the owner at bytes
/// 32..64 and the amount little-endian at bytes 64..72.
#[verifier::external_body]
pub(crate) fn unpack_token_account(data: &Vec<u8>) -> (r: Option<(Key, u64)>)
    ensures
        r is Some <==> token_account_ok(data@),
        r matches Some((o, a)) ==> o@ == token_owner(data@) && a == token_amount(data@),
{
    spl_token::state::Account::unpack(data).ok().map(|a| (Key { bytes: a.owner.to_bytes() }, a.amount))
}

} // verus!
