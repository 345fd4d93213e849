//! Accounts and states as plain values, and the mathematical state that a
//! list of accounts stands for.

use vstd::prelude::*;
use crate::primitives::{is_zero_word, H160, H256, U256};
use crate::sorted::{ascending, entries_map};

verus! {

/// What an account holds, as mathematical values.
pub struct AccountModel {
    pub nonce: nat,
    pub balance: nat,
    pub code: Seq<u8>,
    pub storage: Map<Seq<u8>, Seq<u8>>,
}

/// An account of a state snapshot.
#[derive(Clone, Debug, PartialEq, Eq)]
pub struct Account {
    pub nonce: U256,
    pub balance: U256,
    pub code: Vec<u8>,
    pub storage: Vec<(H256, H256)>,
}

/// The mapping that a list of storage slots stands for; of two slots with
/// one key the later counts.
pub open spec fn storage_map(slots: Seq<(H256, H256)>) -> Map<Seq<u8>, Seq<u8>>
    decreases slots.len(),
{
    if slots.len() == 0 {
        Map::empty()
    } else {
        storage_map(slots.drop_last()).insert(slots.last().0@, slots.last().1@)
    }
}

impl View for Account {
    type V = AccountModel;

    open spec fn view(&self) -> AccountModel {
        AccountModel {
            nonce: self.nonce@,
            balance: self.balance@,
            code: self.code@,
            storage: storage_map(self.storage@),
        }
    }
}

/// The state that a list of accounts stands for; of two accounts with one
/// address the later counts.
pub open spec fn state_map(accounts: Seq<(H160, Account)>) -> Map<Seq<u8>, AccountModel>
    decreases accounts.len(),
{
    if accounts.len() == 0 {
        Map::empty()
    } else {
        state_map(accounts.drop_last()).insert(accounts.last().0@, accounts.last().1@)
    }
}

/// The balance that a state holds for an address: zero where it has no account.
pub open spec fn balance_in(state: Map<Seq<u8>, AccountModel>, address: Seq<u8>) -> nat {
    if state.contains_key(address) {
        state[address].balance
    } else {
        0
    }
}

/// The slots of a list as keys and values.
pub open spec fn slot_entries(slots: Seq<(H256, H256)>) -> Seq<(Seq<u8>, Seq<u8>)> {
    Seq::new(slots.len(), |i: int| (slots[i].0@, slots[i].1@))
}

/// The accounts of a list as addresses and contents.
pub open spec fn account_entries(accounts: Seq<(H160, Account)>) -> Seq<(Seq<u8>, AccountModel)> {
    Seq::new(accounts.len(), |i: int| (accounts[i].0@, accounts[i].1@))
}

/// Whether a list of accounts is in canonical order: the addresses ascend
/// strictly, and so do the keys of each account's slots.
pub open spec fn canonical(accounts: Seq<(H160, Account)>) -> bool {
    &&& ascending(account_entries(accounts))
    &&& forall|i: int|
        0 <= i < accounts.len() ==> ascending(slot_entries((#[trigger] accounts[i]).1.storage@))
}

/// The mapping of a list of slots is that of its keys and values.
pub proof fn lemma_storage_map_of_entries(slots: Seq<(H256, H256)>)
    ensures
        storage_map(slots) == entries_map(slot_entries(slots)),
    decreases slots.len(),
{
    if slots.len() > 0 {
        lemma_storage_map_of_entries(slots.drop_last());
        assert(slot_entries(slots).drop_last() =~= slot_entries(slots.drop_last()));
        assert(slot_entries(slots).last() == (slots.last().0@, slots.last().1@));
    }
}

/// The state of a list of accounts is the mapping of its addresses and contents.
pub proof fn lemma_state_map_of_entries(accounts: Seq<(H160, Account)>)
    ensures
        state_map(accounts) == entries_map(account_entries(accounts)),
    decreases accounts.len(),
{
    if accounts.len() > 0 {
        lemma_state_map_of_entries(accounts.drop_last());
        assert(account_entries(accounts).drop_last() =~= account_entries(accounts.drop_last()));
        assert(account_entries(accounts).last() == (accounts.last().0@, accounts.last().1@));
    }
}

/// The nonce that a state holds for an address: zero where it has no account.
pub open spec fn nonce_in(state: Map<Seq<u8>, AccountModel>, address: Seq<u8>) -> nat {
    if state.contains_key(address) {
        state[address].nonce
    } else {
        0
    }
}

/// The bound below which the harness takes a nonce: a nonce grows by one
/// with each transaction and each creation of its account, and no gas
/// limit pays for 2^64 of them.
pub open spec fn nonce_ceiling() -> nat {
    0xffff_ffff_ffff_ffff_ffff_ffff_ffff_ffff_ffff_ffff_ffff_ffff_0000_0000_0000_0000nat
}

/// Whether every account of the list has a nonce below the ceiling.
pub open spec fn nonces_within(accounts: Seq<(H160, Account)>) -> bool {
    forall|i: int| 0 <= i < accounts.len() ==> (#[trigger] accounts[i]).1.nonce@ < nonce_ceiling()
}

/// Whether `address` is that of the first account of the list whose nonce
/// is at or above the ceiling.
pub open spec fn first_beyond_ceiling(accounts: Seq<(H160, Account)>, address: H160) -> bool {
    exists|i: int|
        0 <= i < accounts.len() && (#[trigger] accounts[i]).0 == address && accounts[i].1.nonce@
            >= nonce_ceiling() && nonces_within(accounts.take(i))
}

/// In a state of accounts with nonces below the ceiling, every address has
/// a nonce below the ceiling.
pub proof fn lemma_nonces_within_state(accounts: Seq<(H160, Account)>, address: Seq<u8>)
    requires
        nonces_within(accounts),
    ensures
        nonce_in(state_map(accounts), address) < nonce_ceiling(),
    decreases accounts.len(),
{
    if accounts.len() > 0 {
        let rest = accounts.drop_last();
        assert forall|i: int| 0 <= i < rest.len() implies (#[trigger] rest[i]).1.nonce@
            < nonce_ceiling() by {
            assert(rest[i] == accounts[i]);
        }
        lemma_nonces_within_state(rest, address);
        assert(accounts.last() == accounts[accounts.len() - 1]);
    }
}

/// The address of the first account whose nonce is at or above the
/// ceiling, `None` where every nonce is below it.
pub fn find_beyond_ceiling(accounts: &Vec<(H160, Account)>) -> (r: Option<H160>)
    ensures
        r is None <==> nonces_within(accounts@),
        r is Some ==> first_beyond_ceiling(accounts@, r.unwrap()),
{
    let ceiling = U256 { limbs: [0, u64::MAX, u64::MAX, u64::MAX] };
    let mut i: usize = 0;
    while i < accounts.len()
        invariant
            i <= accounts.len(),
            ceiling@ == nonce_ceiling(),
            nonces_within(accounts@.take(i as int)),
        decreases accounts.len() - i,
    {
        if !accounts[i].1.nonce.lt(&ceiling) {
            return Some(accounts[i].0);
        }
        assert forall|k: int| 0 <= k < i + 1 implies (#[trigger] accounts@.take(i + 1)[k]).1.nonce@
            < nonce_ceiling() by {
            if k < i {
                assert(accounts@.take(i as int)[k] == accounts@.take(i + 1)[k]);
            }
        }
        i += 1;
    }
    assert(accounts@.take(i as int) =~= accounts@);
    None
}

/// Two account lists that agree position by position stand for one state.
pub proof fn lemma_state_map_pointwise(a: Seq<(H160, Account)>, b: Seq<(H160, Account)>)
    requires
        a.len() == b.len(),
        forall|i: int| 0 <= i < a.len() ==> a[i].0@ == b[i].0@ && a[i].1@ == b[i].1@,
    ensures
        state_map(a) == state_map(b),
    decreases a.len(),
{
    if a.len() > 0 {
        lemma_state_map_pointwise(a.drop_last(), b.drop_last());
    }
}

/// A copy of a byte string.
pub(crate) fn copy_bytes(bytes: &Vec<u8>) -> (r: Vec<u8>)
    ensures
        r@ == bytes@,
{
    let mut out: Vec<u8> = Vec::new();
    let mut i: usize = 0;
    while i < bytes.len()
        invariant
            i <= bytes.len(),
            out@ == bytes@.take(i as int),
        decreases bytes.len() - i,
    {
        out.push(bytes[i]);
        assert(bytes@.take(i + 1) =~= bytes@.take(i as int).push(bytes@[i as int]));
        i += 1;
    }
    assert(bytes@.take(bytes.len() as int) =~= bytes@);
    out
}

/// A copy of a list of storage slots.
pub(crate) fn copy_slots(slots: &Vec<(H256, H256)>) -> (r: Vec<(H256, H256)>)
    ensures
        r@ == slots@,
{
    let mut out: Vec<(H256, H256)> = Vec::new();
    let mut i: usize = 0;
    while i < slots.len()
        invariant
            i <= slots.len(),
            out@ == slots@.take(i as int),
        decreases slots.len() - i,
    {
        out.push(slots[i]);
        assert(slots@.take(i + 1) =~= slots@.take(i as int).push(slots@[i as int]));
        i += 1;
    }
    assert(slots@.take(slots.len() as int) =~= slots@);
    out
}

/// The slots that hold something other than the zero word, in order.
pub open spec fn nonzero_slots(slots: Seq<(H256, H256)>) -> Seq<(H256, H256)> {
    slots.filter(|slot: (H256, H256)| !is_zero_word(slot.1@))
}

/// Drops the slots that hold the zero word: in a state, a slot with the
/// zero word is a slot that is not there.
pub fn drop_zero_slots(slots: &Vec<(H256, H256)>) -> (r: Vec<(H256, H256)>)
    ensures
        r@ == nonzero_slots(slots@),
{
    let mut out: Vec<(H256, H256)> = Vec::new();
    let mut i: usize = 0;
    while i < slots.len()
        invariant
            i <= slots.len(),
            out@ == nonzero_slots(slots@.take(i as int)),
        decreases slots.len() - i,
    {
        proof {
            reveal(Seq::filter);
            assert(slots@.take(i + 1).drop_last() =~= slots@.take(i as int));
            assert(slots@.take(i + 1).last() == slots@[i as int]);
        }
        if !slots[i].1.is_zero() {
            out.push(slots[i]);
        }
        i += 1;
    }
    assert(slots@.take(slots.len() as int) =~= slots@);
    out
}

impl Account {
    /// A copy of the account: the same nonce, balance, code and slots.
    pub fn copy(&self) -> (r: Account)
        ensures
            r.nonce == self.nonce,
            r.balance == self.balance,
            r.code@ == self.code@,
            r.storage@ == self.storage@,
            r@ == self@,
    {
        Account {
            nonce: self.nonce,
            balance: self.balance,
            code: copy_bytes(&self.code),
            storage: copy_slots(&self.storage),
        }
    }
}

/// A copy of a list of accounts: the same addresses with the same contents,
/// in the same order.
pub fn copy_state(accounts: &Vec<(H160, Account)>) -> (r: Vec<(H160, Account)>)
    ensures
        r@.len() == accounts@.len(),
        forall|i: int| 0 <= i < r@.len() ==> r@[i].0 == accounts@[i].0 && r@[i].1@ == accounts@[i].1@,
        state_map(r@) == state_map(accounts@),
{
    let mut out: Vec<(H160, Account)> = Vec::new();
    let mut i: usize = 0;
    while i < accounts.len()
        invariant
            i <= accounts.len(),
            out@.len() == i,
            forall|k: int| 0 <= k < i ==> out@[k].0 == accounts@[k].0 && out@[k].1@ == accounts@[k].1@,
        decreases accounts.len() - i,
    {
        out.push((accounts[i].0, accounts[i].1.copy()));
        i += 1;
    }
    proof {
        lemma_state_map_pointwise(out@, accounts@);
    }
    out
}

} // verus!
