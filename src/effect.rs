use vstd::prelude::*;
use crate::accounts::Account;
use crate::error::DexError;
use crate::key::Key;

verus! {

/// A call into another program that an accepted instruction asks for. The
/// host runs them in order within the same atomic call.
#[derive(Clone, Copy, Debug)]
pub enum Effect {
    /// A token transfer signed by the market's derived authority, whose seeds
    /// are the market address and the bump.
    TokenTransfer {
        source: Key,
        destination: Key,
        authority: Key,
        amount: u64,
        market: Key,
        signer_nonce: u8,
    },
    /// Allocation of `space` bytes for `account`, paid by `payer` and handed to `owner`.
    CreateAccount { payer: Key, account: Key, space: u64, owner: Key },
}

/// The accounts are those of `old` but that the data of slot `idx` is now `data`.
pub open spec fn only_data_changed(old: Seq<Account>, new: Seq<Account>, idx: int, data: Seq<u8>) -> bool {
    &&& new.len() == old.len()
    &&& 0 <= idx < old.len()
    &&& forall|j: int| 0 <= j < old.len() && j != idx ==> new[j] == old[j]
    &&& new[idx].key == old[idx].key
    &&& new[idx].owner == old[idx].owner
    &&& new[idx].is_signer == old[idx].is_signer
    &&& new[idx].is_writable == old[idx].is_writable
    &&& new[idx].lamports == old[idx].lamports
    &&& new[idx].data@ == data
}

/// Slot `idx` was closed into slot `target`: its lamports moved there and its
/// data was zeroed; nothing else changed.
pub open spec fn closed_into(old: Seq<Account>, new: Seq<Account>, idx: int, target: int) -> bool {
    &&& new.len() == old.len()
    &&& 0 <= idx < old.len()
    &&& 0 <= target < old.len()
    &&& idx != target
    &&& forall|j: int| 0 <= j < old.len() && j != idx && j != target ==> new[j] == old[j]
    &&& new[idx].key == old[idx].key
    &&& new[idx].owner == old[idx].owner
    &&& new[idx].is_signer == old[idx].is_signer
    &&& new[idx].is_writable == old[idx].is_writable
    &&& new[idx].lamports == 0
    &&& new[idx].data@ == Seq::new(old[idx].data@.len(), |i: int| 0u8)
    &&& new[target].key == old[target].key
    &&& new[target].owner == old[target].owner
    &&& new[target].is_signer == old[target].is_signer
    &&& new[target].is_writable == old[target].is_writable
    &&& new[target].data == old[target].data
    &&& new[target].lamports == old[target].lamports + old[idx].lamports
}

/// Replaces the data of slot `idx`.
pub fn set_data(accounts: &mut Vec<Account>, idx: usize, data: Vec<u8>)
    requires
        idx < old(accounts)@.len(),
    ensures
        only_data_changed(old(accounts)@, final(accounts)@, idx as int, data@),
{
    accounts[idx].data = data;
}

/// Zeroes the data of slot `idx` and moves its lamports to slot `target`.
pub fn close_into(accounts: &mut Vec<Account>, idx: usize, target: usize)
    requires
        idx < old(accounts)@.len(),
        target < old(accounts)@.len(),
        idx != target,
        old(accounts)@[target as int].lamports + old(accounts)@[idx as int].lamports <= u64::MAX,
    ensures
        closed_into(old(accounts)@, final(accounts)@, idx as int, target as int),
{
    let n = accounts[idx].data.len();
    let mut zeros: Vec<u8> = Vec::new();
    let mut i: usize = 0;
    while i < n
        invariant
            i <= n,
            zeros@ == Seq::new(i as nat, |k: int| 0u8),
        decreases n - i,
    {
        zeros.push(0u8);
        i += 1;
        assert(zeros@ =~= Seq::new(i as nat, |k: int| 0u8));
    }
    let moved = accounts[idx].lamports;
    accounts[idx].data = zeros;
    accounts[idx].lamports = 0;
    accounts[target].lamports = accounts[target].lamports + moved;
}

} // verus!

verus! {

/// Slot `idx` now belongs to `owner` and holds `data`; nothing else changed.
pub open spec fn allocated(old: Seq<Account>, new: Seq<Account>, idx: int, owner: Key, data: Seq<u8>) -> bool {
    &&& new.len() == old.len()
    &&& 0 <= idx < old.len()
    &&& forall|j: int| 0 <= j < old.len() && j != idx ==> new[j] == old[j]
    &&& new[idx].key == old[idx].key
    &&& new[idx].owner == owner
    &&& new[idx].is_signer == old[idx].is_signer
    &&& new[idx].is_writable == old[idx].is_writable
    &&& new[idx].lamports == old[idx].lamports
    &&& new[idx].data@ == data
}

/// Hands slot `idx` to `owner` with the given data.
pub fn allocate(accounts: &mut Vec<Account>, idx: usize, owner: Key, data: Vec<u8>)
    requires
        idx < old(accounts)@.len(),
    ensures
        allocated(old(accounts)@, final(accounts)@, idx as int, owner, data@),
{
    accounts[idx].owner = owner;
    accounts[idx].data = data;
}

} // verus!

verus! {

/// The two accounts differ at most in their data.
pub open spec fn same_but_data(a: Account, b: Account) -> bool {
    &&& a.key == b.key
    &&& a.owner == b.owner
    &&& a.is_signer == b.is_signer
    &&& a.is_writable == b.is_writable
    &&& a.lamports == b.lamports
}

} // verus!

verus! {

/// A handler's result with its effects as a sequence.
pub open spec fn effects_result(r: Result<Vec<Effect>, DexError>) -> Result<Seq<Effect>, DexError> {
    match r {
        Ok(v) => Ok(v@),
        Err(e) => Err(e),
    }
}

/// A handler's result that asks for no effect.
pub open spec fn unit_result(r: Result<(), DexError>) -> Result<Seq<Effect>, DexError> {
    match r {
        Ok(_) => Ok(Seq::empty()),
        Err(e) => Err(e),
    }
}

} // verus!
