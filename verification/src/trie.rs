//! The state root: the hash that commits to every account of a state.

use vstd::prelude::*;
use crate::primitives::{H160, H256, U256};
use crate::account::{
    account_entries, canonical, lemma_state_map_of_entries, lemma_storage_map_of_entries,
    slot_entries, state_map, storage_map, Account,
};
use crate::sorted::lemma_ascending_entries_unique;
use crate::keccak::{hash_bytes, keccak256};

verus! {

/// The root of the secure Merkle-Patricia trie that holds the given
/// key-value pairs, each key under its Keccak-256 digest.
pub uninterp spec fn secure_trie_root(entries: Seq<(Seq<u8>, Seq<u8>)>) -> Seq<u8>;

/// The bytes of a number in big-endian order, without leading zeros; none for zero.
pub open spec fn be_bytes(n: nat) -> Seq<u8>
    decreases n,
{
    if n == 0 {
        Seq::empty()
    } else {
        be_bytes(n / 256).push((n % 256) as u8)
    }
}

/// The number that bytes in big-endian order stand for.
pub open spec fn be_value(bytes: Seq<u8>) -> nat
    decreases bytes.len(),
{
    if bytes.len() == 0 {
        0
    } else {
        be_value(bytes.drop_last()) * 256 + bytes.last() as nat
    }
}

/// The RLP header of a payload of `len` bytes: `base` + `len` up to 55
/// bytes, else `base` + 55 + the length of the length, and the length.
pub open spec fn rlp_header(base: nat, len: nat) -> Seq<u8> {
    if len <= 55 {
        seq![(base + len) as u8]
    } else {
        seq![(base + 55 + be_bytes(len).len()) as u8] + be_bytes(len)
    }
}

/// The RLP encoding of a byte string: a single byte below 0x80 stands
/// for itself, anything else follows its header.
pub open spec fn rlp_bytes(bytes: Seq<u8>) -> Seq<u8> {
    if bytes.len() == 1 && bytes[0] < 0x80 {
        bytes
    } else {
        rlp_header(0x80, bytes.len()) + bytes
    }
}

/// The RLP encoding of a number: that of its big-endian bytes.
pub open spec fn rlp_uint(n: nat) -> Seq<u8> {
    rlp_bytes(be_bytes(n))
}

/// The RLP encoding of a list, given the encodings of its items in a row.
pub open spec fn rlp_list(payload: Seq<u8>) -> Seq<u8> {
    rlp_header(0xc0, payload.len()) + payload
}

/// The RLP encoding of a 32-byte storage word, read as a big-endian integer.
pub open spec fn rlp_storage_word(word: Seq<u8>) -> Seq<u8> {
    rlp_uint(be_value(word))
}

/// The RLP encoding of an account: the list of its nonce, its balance,
/// its storage root and its code hash.
pub open spec fn rlp_account(nonce: nat, balance: nat, storage_root: Seq<u8>, code_hash: Seq<
    u8,
>) -> Seq<u8> {
    rlp_list(rlp_uint(nonce) + rlp_uint(balance) + rlp_bytes(storage_root) + rlp_bytes(code_hash))
}

/// Key-value pairs as mathematical values.
pub open spec fn pairs_model(pairs: Seq<(Vec<u8>, Vec<u8>)>) -> Seq<(Seq<u8>, Seq<u8>)> {
    Seq::new(pairs.len(), |i: int| (pairs[i].0@, pairs[i].1@))
}

/// The root of an account's storage trie: each slot's key bound to the RLP
/// encoding of its value.
pub open spec fn spec_storage_root(slots: Seq<(H256, H256)>) -> Seq<u8> {
    secure_trie_root(Seq::new(slots.len(), |i: int| (slots[i].0@, rlp_storage_word(slots[i].1@))))
}

/// The trie leaf of an account.
pub open spec fn spec_account_leaf(account: Account) -> Seq<u8> {
    rlp_account(
        account.nonce@,
        account.balance@,
        spec_storage_root(account.storage@),
        keccak256(account.code@),
    )
}

/// The state root of a list of accounts: each address bound to the leaf of
/// its account.
pub open spec fn spec_state_root(accounts: Seq<(H160, Account)>) -> Seq<u8> {
    secure_trie_root(
        Seq::new(accounts.len(), |i: int| (accounts[i].0@, spec_account_leaf(accounts[i].1))),
    )
}

/// Two lists of slots in ascending order that stand for the same storage
/// have the same storage root.
pub proof fn lemma_storage_root_of_storage(a: Seq<(H256, H256)>, b: Seq<(H256, H256)>)
    requires
        crate::sorted::ascending(slot_entries(a)),
        crate::sorted::ascending(slot_entries(b)),
        storage_map(a) == storage_map(b),
    ensures
        spec_storage_root(a) == spec_storage_root(b),
{
    lemma_storage_map_of_entries(a);
    lemma_storage_map_of_entries(b);
    lemma_ascending_entries_unique(slot_entries(a), slot_entries(b));
    assert(a.len() == slot_entries(a).len() && b.len() == slot_entries(b).len());
    assert forall|i: int| 0 <= i < a.len() implies a[i].0@ == b[i].0@ && a[i].1@ == b[i].1@ by {
        assert(slot_entries(a)[i] == slot_entries(b)[i]);
    }
    assert(Seq::new(a.len(), |i: int| (a[i].0@, rlp_storage_word(a[i].1@))) =~= Seq::new(
        b.len(),
        |i: int| (b[i].0@, rlp_storage_word(b[i].1@)),
    ));
}

/// The state root is a matter of the state alone: two lists of accounts
/// in canonical order that stand for the same state have the same root.
pub proof fn lemma_state_root_of_state(a: Seq<(H160, Account)>, b: Seq<(H160, Account)>)
    requires
        canonical(a),
        canonical(b),
        state_map(a) == state_map(b),
    ensures
        spec_state_root(a) == spec_state_root(b),
{
    lemma_state_map_of_entries(a);
    lemma_state_map_of_entries(b);
    lemma_ascending_entries_unique(account_entries(a), account_entries(b));
    assert(a.len() == account_entries(a).len() && b.len() == account_entries(b).len());
    assert forall|i: int| 0 <= i < a.len() implies a[i].0@ == b[i].0@ && spec_account_leaf(a[i].1)
        == spec_account_leaf(b[i].1) by {
        assert(account_entries(a)[i] == account_entries(b)[i]);
        assert(a[i].1@ == b[i].1@);
        lemma_storage_root_of_storage(a[i].1.storage@, b[i].1.storage@);
    }
    assert(Seq::new(a.len(), |i: int| (a[i].0@, spec_account_leaf(a[i].1))) =~= Seq::new(
        b.len(),
        |i: int| (b[i].0@, spec_account_leaf(b[i].1)),
    ));
}

/// `ethereum::util::sec_trie_root`: the root of the secure trie of the pairs.
#[verifier::external_body]
fn trie_root_of(pairs: &Vec<(Vec<u8>, Vec<u8>)>) -> (r: H256)
    ensures
        r@ == secure_trie_root(pairs_model(pairs@)),
{
    H256 { bytes: ethereum::util::sec_trie_root(pairs.iter().map(|(k, v)| (k.as_slice(), v.as_slice()))).0 }
}

/// `primitive_types::U256::from_big_endian`: the integer that the 32
/// bytes of the word stand for in big-endian order.
#[verifier::external_body]
fn word_value(word: &H256) -> (r: U256)
    ensures
        r@ == be_value(word@),
{
    U256 { limbs: primitive_types::U256::from_big_endian(&word.bytes).0 }
}

/// `rlp::encode` of a `primitive_types::U256`: the RLP byte string of the
/// integer's big-endian bytes without leading zeros.
#[verifier::external_body]
fn encode_uint(value: &U256) -> (r: Vec<u8>)
    ensures
        r@ == rlp_uint(value@),
{
    rlp::encode(&primitive_types::U256(value.limbs)).to_vec()
}

/// `rlp::encode` of a `primitive_types::H256`: the RLP byte string of its
/// 32 bytes.
#[verifier::external_body]
fn encode_word(word: &H256) -> (r: Vec<u8>)
    ensures
        r@ == rlp_bytes(word@),
{
    rlp::encode(&primitive_types::H256(word.bytes)).to_vec()
}

/// 256 to the power of `k`.
pub open spec fn pow256(k: nat) -> nat
    decreases k,
{
    if k == 0 {
        1
    } else {
        256 * pow256((k - 1) as nat)
    }
}

/// A number below 256 to the `k` has at most `k` big-endian bytes.
pub proof fn lemma_be_bytes_len(n: nat, k: nat)
    requires
        n < pow256(k),
    ensures
        be_bytes(n).len() <= k,
    decreases k,
{
    if n > 0 {
        assert(k > 0);
        assert(n / 256 < pow256((k - 1) as nat));
        lemma_be_bytes_len(n / 256, (k - 1) as nat);
    }
}

/// The big-endian bytes of a number, without leading zeros.
fn be_bytes_of(n: u64) -> (r: Vec<u8>)
    ensures
        r@ == be_bytes(n as nat),
        r@.len() <= 8,
    decreases n,
{
    proof {
        reveal_with_fuel(pow256, 9);
        assert(n < pow256(8));
        lemma_be_bytes_len(n as nat, 8);
    }
    if n == 0 {
        Vec::new()
    } else {
        let mut out = be_bytes_of(n / 256);
        out.push((n % 256) as u8);
        out
    }
}

/// Appends the bytes to the buffer.
fn push_all(out: &mut Vec<u8>, bytes: &Vec<u8>)
    ensures
        final(out)@ == old(out)@ + bytes@,
{
    let mut i: usize = 0;
    while i < bytes.len()
        invariant
            i <= bytes.len(),
            out@ == old(out)@ + bytes@.take(i as int),
        decreases bytes.len() - i,
    {
        out.push(bytes[i]);
        assert(bytes@.take(i + 1) =~= bytes@.take(i as int).push(bytes@[i as int]));
        assert(out@ =~= old(out)@ + bytes@.take(i + 1));
        i += 1;
    }
    assert(bytes@.take(bytes.len() as int) =~= bytes@);
}

/// The RLP encoding of a list whose items, already encoded, are given in a row.
pub fn encode_list(payload: &Vec<u8>) -> (r: Vec<u8>)
    ensures
        r@ == rlp_list(payload@),
{
    let mut out: Vec<u8> = Vec::new();
    let len = payload.len();
    if len <= 55 {
        out.push(0xc0 + len as u8);
    } else {
        let digits = be_bytes_of(len as u64);
        out.push(0xf7 + digits.len() as u8);
        push_all(&mut out, &digits);
    }
    assert(out@ =~= rlp_header(0xc0, len as nat));
    push_all(&mut out, payload);
    out
}

/// The RLP encoding of a storage word, read as a big-endian integer.
fn encode_storage_word(word: &H256) -> (r: Vec<u8>)
    ensures
        r@ == rlp_storage_word(word@),
{
    encode_uint(&word_value(word))
}

/// The RLP encoding of an account: the list of nonce, balance, storage
/// root and code hash, in this order.
fn encode_account(nonce: &U256, balance: &U256, storage_root: &H256, code_hash: &H256) -> (r: Vec<u8>)
    ensures
        r@ == rlp_account(nonce@, balance@, storage_root@, code_hash@),
{
    let mut payload = encode_uint(nonce);
    push_all(&mut payload, &encode_uint(balance));
    push_all(&mut payload, &encode_word(storage_root));
    push_all(&mut payload, &encode_word(code_hash));
    assert(payload@ =~= rlp_uint(nonce@) + rlp_uint(balance@) + rlp_bytes(storage_root@) + rlp_bytes(
        code_hash@,
    ));
    encode_list(&payload)
}

/// The 20 bytes of an address.
fn address_bytes(address: &H160) -> (r: Vec<u8>)
    ensures
        r@ == address@,
{
    let mut out: Vec<u8> = Vec::new();
    let mut i: usize = 0;
    while i < 20
        invariant
            i <= 20,
            out@ == address.bytes@.take(i as int),
        decreases 20 - i,
    {
        out.push(address.bytes[i]);
        assert(address.bytes@.take(i + 1) =~= address.bytes@.take(i as int).push(address.bytes@[i as int]));
        i += 1;
    }
    assert(address.bytes@.take(20) =~= address.bytes@);
    out
}

/// The 32 bytes of a word.
fn word_bytes(word: &H256) -> (r: Vec<u8>)
    ensures
        r@ == word@,
{
    let mut out: Vec<u8> = Vec::new();
    let mut i: usize = 0;
    while i < 32
        invariant
            i <= 32,
            out@ == word.bytes@.take(i as int),
        decreases 32 - i,
    {
        out.push(word.bytes[i]);
        assert(word.bytes@.take(i + 1) =~= word.bytes@.take(i as int).push(word.bytes@[i as int]));
        i += 1;
    }
    assert(word.bytes@.take(32) =~= word.bytes@);
    out
}

/// The root of the storage trie of an account.
pub fn storage_root(slots: &Vec<(H256, H256)>) -> (r: H256)
    ensures
        r@ == spec_storage_root(slots@),
{
    let mut pairs: Vec<(Vec<u8>, Vec<u8>)> = Vec::new();
    let mut i: usize = 0;
    while i < slots.len()
        invariant
            i <= slots.len(),
            pairs@.len() == i,
            forall|k: int|
                0 <= k < i ==> (#[trigger] pairs@[k]).0@ == slots@[k].0@ && pairs@[k].1@
                    == rlp_storage_word(slots@[k].1@),
        decreases slots.len() - i,
    {
        let key = word_bytes(&slots[i].0);
        let value = encode_storage_word(&slots[i].1);
        pairs.push((key, value));
        i += 1;
    }
    assert(pairs_model(pairs@) =~= Seq::new(
        slots@.len(),
        |i: int| (slots@[i].0@, rlp_storage_word(slots@[i].1@)),
    ));
    trie_root_of(&pairs)
}

/// The trie leaf of an account: the RLP list of nonce, balance, storage
/// root and code hash.
pub fn account_leaf(account: &Account) -> (r: Vec<u8>)
    ensures
        r@ == spec_account_leaf(*account),
{
    let root = storage_root(&account.storage);
    let code_hash = hash_bytes(&account.code);
    encode_account(&account.nonce, &account.balance, &root, &code_hash)
}

/// The state root of a list of accounts.
pub fn state_root(accounts: &Vec<(H160, Account)>) -> (r: H256)
    ensures
        r@ == spec_state_root(accounts@),
{
    let mut pairs: Vec<(Vec<u8>, Vec<u8>)> = Vec::new();
    let mut i: usize = 0;
    while i < accounts.len()
        invariant
            i <= accounts.len(),
            pairs@.len() == i,
            forall|k: int|
                0 <= k < i ==> (#[trigger] pairs@[k]).0@ == accounts@[k].0@ && pairs@[k].1@
                    == spec_account_leaf(accounts@[k].1),
        decreases accounts.len() - i,
    {
        let key = address_bytes(&accounts[i].0);
        let value = account_leaf(&accounts[i].1);
        pairs.push((key, value));
        i += 1;
    }
    assert(pairs_model(pairs@) =~= Seq::new(
        accounts@.len(),
        |i: int| (accounts@[i].0@, spec_account_leaf(accounts@[i].1)),
    ));
    trie_root_of(&pairs)
}

} // verus!
