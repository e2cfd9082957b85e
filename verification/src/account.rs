//! The plain-value model of a ledger account as one invocation sees it: its
//! address, native balance, raw data bytes, owning program, and the flags the
//! host runtime set for this invocation.

use vstd::prelude::*;

use crate::Pubkey;

verus! {

/// One entry of the account list an instruction declares.
pub struct Account {
    /// The account's address.
    pub key: Pubkey,
    /// Native balance in the smallest unit.
    pub lamports: u64,
    /// The raw account data bytes.
    pub data: Vec<u8>,
    /// The program that owns (may mutate) the account.
    pub owner: Pubkey,
    /// Whether a transaction-level signature proves control of `key`.
    pub is_signer: bool,
    /// Whether the host marked the account mutable for this invocation.
    pub is_writable: bool,
    /// Whether the account is a loaded program.
    pub executable: bool,
}

impl Account {
    /// Length of the account's data.
    pub fn data_len(&self) -> (r: usize)
        ensures
            r == self.data@.len(),
    {
        self.data.len()
    }

    /// Whether the account holds no data at all.
    pub fn data_is_empty(&self) -> (r: bool)
        ensures
            r == (self.data@.len() == 0),
    {
        self.data.len() == 0
    }

    /// Whether `program` owns this account.
    pub fn is_owned_by(&self, program: &Pubkey) -> (r: bool)
        ensures
            r == (self.owner@ == program@),
    {
        crate::key_eq(&self.owner, program)
    }
}

/// `a` and `b` agree on every field (data compared by content).
pub open spec fn acct_like(a: Account, b: Account) -> bool {
    &&& a.key == b.key
    &&& a.lamports == b.lamports
    &&& a.data@ == b.data@
    &&& a.owner == b.owner
    &&& a.is_signer == b.is_signer
    &&& a.is_writable == b.is_writable
    &&& a.executable == b.executable
}

/// `b` is `a` with its native balance replaced by `lamports` (data compared
/// by content).
pub open spec fn acct_like_but_lamports(a: Account, b: Account, lamports: u64) -> bool {
    &&& b.key == a.key
    &&& b.lamports == lamports
    &&& b.data@ == a.data@
    &&& b.owner == a.owner
    &&& b.is_signer == a.is_signer
    &&& b.is_writable == a.is_writable
    &&& b.executable == a.executable
}

impl Clone for Account {
    /// An exact copy, field for field.
    fn clone(&self) -> (r: Self)
        ensures
            r.key == self.key,
            r.lamports == self.lamports,
            r.data@ == self.data@,
            r.owner == self.owner,
            r.is_signer == self.is_signer,
            r.is_writable == self.is_writable,
            r.executable == self.executable,
    {
        Account {
            key: self.key,
            lamports: self.lamports,
            data: vstd::slice::slice_to_vec(self.data.as_slice()),
            owner: self.owner,
            is_signer: self.is_signer,
            is_writable: self.is_writable,
            executable: self.executable,
        }
    }
}

} // verus!
