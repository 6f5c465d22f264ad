use vstd::prelude::*;
use crate::error::DexError;
use crate::key::{keys_equal, Key};

verus! {

/// One account as an instruction sees it.
#[derive(Clone, Debug)]
pub struct Account {
    pub key: Key,
    /// The program that owns the account's storage.
    pub owner: Key,
    pub is_signer: bool,
    pub is_writable: bool,
    pub lamports: u64,
    pub data: Vec<u8>,
}

/// What one slot of an instruction's account list must satisfy.
#[derive(Clone, Copy, Debug)]
pub struct SlotRule {
    pub signer: bool,
    pub writable: bool,
    /// The program that must own the account, if any.
    pub owner: Option<Key>,
    /// The address the account must have, if fixed.
    pub key: Option<Key>,
}

/// An account's data as a sequence of bytes.
pub open spec fn data_of(a: Account) -> Seq<u8> {
    a.data@
}

pub open spec fn signer_ok(a: Account, r: SlotRule) -> bool {
    r.signer ==> a.is_signer
}

pub open spec fn writable_ok(a: Account, r: SlotRule) -> bool {
    r.writable ==> a.is_writable
}

pub open spec fn identity_ok(a: Account, r: SlotRule) -> bool {
    &&& (r.owner matches Some(o) ==> a.owner@ == o@)
    &&& (r.key matches Some(k) ==> a.key@ == k@)
}

/// The outcome of checking an account list against a schema: the count first
/// (exact, or at least the schema's length where `exact` is false), then
/// signatures, then writability, then ownership and fixed addresses.
pub open spec fn schema_result(accts: Seq<Account>, rules: Seq<SlotRule>, exact: bool) -> Result<
    (),
    DexError,
> {
    if (exact && accts.len() != rules.len()) || accts.len() < rules.len() {
        Err(DexError::StructuralError)
    } else if exists|i: int| 0 <= i < rules.len() && !signer_ok(accts[i], rules[i]) {
        Err(DexError::SignerError)
    } else if exists|i: int| 0 <= i < rules.len() && !writable_ok(accts[i], rules[i]) {
        Err(DexError::StructuralError)
    } else if exists|i: int| 0 <= i < rules.len() && !identity_ok(accts[i], rules[i]) {
        Err(DexError::OwnershipError)
    } else {
        Ok(())
    }
}

/// A slot with no requirement beyond being present.
pub fn any_slot() -> (r: SlotRule)
    ensures
        r == (SlotRule { signer: false, writable: false, owner: None, key: None }),
{
    SlotRule { signer: false, writable: false, owner: None, key: None }
}

/// A slot whose flags must be set as given.
pub fn flags_slot(signer: bool, writable: bool) -> (r: SlotRule)
    ensures
        r == (SlotRule { signer, writable, owner: None, key: None }),
{
    SlotRule { signer, writable, owner: None, key: None }
}

/// A writable slot whose account must be owned by `owner`.
pub fn owned_slot(owner: Key) -> (r: SlotRule)
    ensures
        r == (SlotRule { signer: false, writable: true, owner: Some(owner), key: None }),
{
    SlotRule { signer: false, writable: true, owner: Some(owner), key: None }
}

/// A slot whose account must be the program at `key`.
pub fn program_slot(key: Key) -> (r: SlotRule)
    ensures
        r == (SlotRule { signer: false, writable: false, owner: None, key: Some(key) }),
{
    SlotRule { signer: false, writable: false, owner: None, key: Some(key) }
}

fn identity_check(a: &Account, r: &SlotRule) -> (ok: bool)
    ensures
        ok == identity_ok(*a, *r),
{
    let owner_ok = match &r.owner {
        Some(o) => keys_equal(&a.owner, o),
        None => true,
    };
    let key_ok = match &r.key {
        Some(k) => keys_equal(&a.key, k),
        None => true,
    };
    owner_ok && key_ok
}

/// Checks an account list against a schema before anything else runs.
pub fn validate_accounts(accounts: &Vec<Account>, rules: &Vec<SlotRule>, exact: bool) -> (r: Result<
    (),
    DexError,
>)
    ensures
        r == schema_result(accounts@, rules@, exact),
{
    let n = rules.len();
    if (exact && accounts.len() != n) || accounts.len() < n {
        return Err(DexError::StructuralError);
    }
    let mut i: usize = 0;
    while i < n
        invariant
            n == rules@.len(),
            n <= accounts@.len(),
            exact ==> accounts@.len() == n,
            i <= n,
            forall|j: int| 0 <= j < i ==> signer_ok(accounts@[j], rules@[j]),
        decreases n - i,
    {
        if rules[i].signer && !accounts[i].is_signer {
            assert(!signer_ok(accounts@[i as int], rules@[i as int]));
            return Err(DexError::SignerError);
        }
        i += 1;
    }
    i = 0;
    while i < n
        invariant
            n == rules@.len(),
            n <= accounts@.len(),
            exact ==> accounts@.len() == n,
            i <= n,
            forall|j: int| 0 <= j < n ==> signer_ok(accounts@[j], rules@[j]),
            forall|j: int| 0 <= j < i ==> writable_ok(accounts@[j], rules@[j]),
        decreases n - i,
    {
        if rules[i].writable && !accounts[i].is_writable {
            assert(!writable_ok(accounts@[i as int], rules@[i as int]));
            return Err(DexError::StructuralError);
        }
        i += 1;
    }
    i = 0;
    while i < n
        invariant
            n == rules@.len(),
            n <= accounts@.len(),
            exact ==> accounts@.len() == n,
            i <= n,
            forall|j: int| 0 <= j < n ==> signer_ok(accounts@[j], rules@[j]),
            forall|j: int| 0 <= j < n ==> writable_ok(accounts@[j], rules@[j]),
            forall|j: int| 0 <= j < i ==> identity_ok(accounts@[j], rules@[j]),
        decreases n - i,
    {
        if !identity_check(&accounts[i], &rules[i]) {
            assert(!identity_ok(accounts@[i as int], rules@[i as int]));
            return Err(DexError::OwnershipError);
        }
        i += 1;
    }
    Ok(())
}

} // verus!
