//! The state diff that a transaction leaves behind, and what applying it
//! does to a state.

use vstd::prelude::*;
use crate::primitives::{is_zero_word, H160, H256, U256};
use crate::account::AccountModel;

verus! {

/// One entry of a state diff.
#[derive(Clone, Debug, PartialEq, Eq)]
pub enum Change {
    /// Sets balance and nonce of the account at `address`, creating it where
    /// there is none; replaces its code unless `code` is `None`; wipes its
    /// storage first where `reset_storage` is set, then writes `storage`.
    Modify {
        address: H160,
        balance: U256,
        nonce: U256,
        code: Option<Vec<u8>>,
        storage: Vec<(H256, H256)>,
        reset_storage: bool,
    },
    /// Removes the account at `address`.
    Delete { address: H160 },
}

impl Change {
    /// The address that the entry is about.
    pub open spec fn target(self) -> Seq<u8> {
        match self {
            Change::Modify { address, .. } => address@,
            Change::Delete { address } => address@,
        }
    }
}

/// An account with zero balance, zero nonce and no code.
pub open spec fn is_empty_account(account: AccountModel) -> bool {
    account.balance == 0 && account.nonce == 0 && account.code.len() == 0
}

/// The account that an address without an account stands for.
pub open spec fn blank_account() -> AccountModel {
    AccountModel { nonce: 0, balance: 0, code: Seq::empty(), storage: Map::empty() }
}

/// A storage without the slots that hold the zero word.
pub open spec fn without_zero_slots(storage: Map<Seq<u8>, Seq<u8>>) -> Map<Seq<u8>, Seq<u8>> {
    storage.restrict(Set::new(|key: Seq<u8>| storage.contains_key(key) && !is_zero_word(storage[key])))
}

/// A storage after the given writes, in order: writing the zero word clears the slot.
pub open spec fn write_slots(storage: Map<Seq<u8>, Seq<u8>>, writes: Seq<(H256, H256)>) -> Map<
    Seq<u8>,
    Seq<u8>,
>
    decreases writes.len(),
{
    if writes.len() == 0 {
        storage
    } else {
        let before = write_slots(storage, writes.drop_last());
        let (key, value) = writes.last();
        if is_zero_word(value@) {
            before.remove(key@)
        } else {
            before.insert(key@, value@)
        }
    }
}

/// The state after one entry of a diff. A modified account that ends up
/// empty is removed where `delete_empty` is set.
pub open spec fn apply_change(
    state: Map<Seq<u8>, AccountModel>,
    change: Change,
    delete_empty: bool,
) -> Map<Seq<u8>, AccountModel> {
    match change {
        Change::Modify { address, balance, nonce, code, storage, reset_storage } => {
            let before = if state.contains_key(address@) {
                state[address@]
            } else {
                blank_account()
            };
            let kept = if reset_storage {
                Map::empty()
            } else {
                without_zero_slots(before.storage)
            };
            let after = AccountModel {
                nonce: nonce@,
                balance: balance@,
                code: match code {
                    Some(c) => c@,
                    None => before.code,
                },
                storage: write_slots(kept, storage@),
            };
            if delete_empty && is_empty_account(after) {
                state.remove(address@)
            } else {
                state.insert(address@, after)
            }
        },
        Change::Delete { address } => state.remove(address@),
    }
}

/// The state after all entries of a diff, in order.
pub open spec fn apply_changes(
    state: Map<Seq<u8>, AccountModel>,
    changes: Seq<Change>,
    delete_empty: bool,
) -> Map<Seq<u8>, AccountModel>
    decreases changes.len(),
{
    if changes.len() == 0 {
        state
    } else {
        apply_change(apply_changes(state, changes.drop_last(), delete_empty), changes.last(), delete_empty)
    }
}

/// Whether an entry restates the account at its address as the state has
/// it: same balance and nonce, code left alone, no storage written or wiped.
pub open spec fn is_touch(state: Map<Seq<u8>, AccountModel>, change: Change) -> bool {
    match change {
        Change::Modify { address, balance, nonce, code, storage, reset_storage } => {
            let before = if state.contains_key(address@) {
                state[address@]
            } else {
                blank_account()
            };
            &&& balance@ == before.balance
            &&& nonce@ == before.nonce
            &&& code is None
            &&& storage@.len() == 0
            &&& !reset_storage
        },
        Change::Delete { .. } => false,
    }
}

/// Whether no account that the diff is about and that is not empty holds
/// the zero word in a storage slot.
pub open spec fn touched_storage_is_clean(
    state: Map<Seq<u8>, AccountModel>,
    changes: Seq<Change>,
) -> bool {
    forall|i: int, key: Seq<u8>|
        0 <= i < changes.len() && state.contains_key((#[trigger] changes[i]).target())
            && !is_empty_account(state[changes[i].target()])
            && #[trigger] state[changes[i].target()].storage.contains_key(key) ==> !is_zero_word(
            state[changes[i].target()].storage[key],
        )
}

/// Applying an empty diff leaves the state as it is, under either policy.
pub proof fn lemma_empty_diff_keeps_state(state: Map<Seq<u8>, AccountModel>, delete_empty: bool)
    ensures
        apply_changes(state, Seq::empty(), delete_empty) == state,
{
}

/// Applying a diff leaves every account alone that no entry is about: it
/// is there afterwards exactly if it was there before, with the same contents.
pub proof fn lemma_untouched_account_kept(
    state: Map<Seq<u8>, AccountModel>,
    changes: Seq<Change>,
    delete_empty: bool,
    address: Seq<u8>,
)
    requires
        forall|i: int| 0 <= i < changes.len() ==> (#[trigger] changes[i]).target() != address,
    ensures
        apply_changes(state, changes, delete_empty).contains_key(address) == state.contains_key(
            address,
        ),
        state.contains_key(address) ==> apply_changes(state, changes, delete_empty)[address]
            == state[address],
    decreases changes.len(),
{
    if changes.len() > 0 {
        let rest = changes.drop_last();
        assert forall|i: int| 0 <= i < rest.len() implies (#[trigger] rest[i]).target()
            != address by {
            assert(rest[i] == changes[i]);
        }
        lemma_untouched_account_kept(state, rest, delete_empty, address);
        assert(changes.last() == changes[changes.len() - 1]);
    }
}

/// Whether some entry of the diff is about the address.
pub open spec fn touches(changes: Seq<Change>, address: Seq<u8>) -> bool {
    exists|i: int| 0 <= i < changes.len() && (#[trigger] changes[i]).target() == address
}

/// Under the empty-deletion policy, a diff that only touches accounts,
/// each as the state has it, removes exactly the touched accounts that are
/// empty and leaves every other account as it was, provided that no
/// touched account that stays holds the zero word in a storage slot.
pub proof fn lemma_touches_remove_exactly_the_empty(
    state: Map<Seq<u8>, AccountModel>,
    changes: Seq<Change>,
)
    requires
        touched_storage_is_clean(state, changes),
        forall|i: int| 0 <= i < changes.len() ==> is_touch(state, #[trigger] changes[i]),
    ensures
        forall|address: Seq<u8>| #[trigger]
            apply_changes(state, changes, true).contains_key(address) <==> state.contains_key(
                address,
            ) && !(is_empty_account(state[address]) && touches(changes, address)),
        forall|address: Seq<u8>| #[trigger]
            apply_changes(state, changes, true).contains_key(address) ==> apply_changes(
                state,
                changes,
                true,
            )[address] == state[address],
    decreases changes.len(),
{
    let after = apply_changes(state, changes, true);
    if changes.len() == 0 {
        assert forall|address: Seq<u8>| !touches(changes, address) by {}
    } else {
        let rest = changes.drop_last();
        let last = changes.last();
        let mid = apply_changes(state, rest, true);
        assert forall|i: int| 0 <= i < rest.len() implies is_touch(state, #[trigger] rest[i]) by {
            assert(rest[i] == changes[i]);
        }
        assert(touched_storage_is_clean(state, rest)) by {
            assert forall|i: int, key: Seq<u8>|
                0 <= i < rest.len() && state.contains_key((#[trigger] rest[i]).target())
                    && !is_empty_account(state[rest[i].target()])
                    && #[trigger] state[rest[i].target()].storage.contains_key(
                    key,
                ) implies !is_zero_word(state[rest[i].target()].storage[key]) by {
                assert(rest[i] == changes[i]);
            }
        }
        lemma_touches_remove_exactly_the_empty(state, rest);
        let n = changes.len() - 1;
        assert(last == changes[n]);
        assert(is_touch(state, changes[n]));
        let target = last.target();
        assert(after == apply_change(mid, last, true));
        assert forall|address: Seq<u8>| touches(changes, address) <==> (touches(rest, address)
            || address == target) by {
            if touches(rest, address) {
                let i = choose|i: int| 0 <= i < rest.len() && (#[trigger] rest[i]).target() == address;
                assert(changes[i] == rest[i]);
            }
            if address == target {
                assert(changes[n].target() == address);
            }
            if touches(changes, address) && address != target {
                let i = choose|i: int|
                    0 <= i < changes.len() && (#[trigger] changes[i]).target() == address;
                assert(i < rest.len());
                assert(rest[i] == changes[i]);
            }
        }
        if mid.contains_key(target) {
            assert(mid[target] == state[target]);
            if !is_empty_account(state[target]) {
                assert(without_zero_slots(state[target].storage) =~= state[target].storage) by {
                    assert forall|key: Seq<u8>|
                        state[target].storage.contains_key(key) implies !is_zero_word(
                        state[target].storage[key],
                    ) by {
                        assert(state[changes[n].target()].storage.contains_key(key));
                    }
                }
            }
        } else {
            assert(is_empty_account(blank_account()));
        }
        assert forall|address: Seq<u8>| #[trigger]
            after.contains_key(address) <==> state.contains_key(address) && !(is_empty_account(
                state[address],
            ) && touches(changes, address)) by {}
        assert forall|address: Seq<u8>| #[trigger] after.contains_key(address) implies after[address]
            == state[address] by {}
    }
}

} // verus!
