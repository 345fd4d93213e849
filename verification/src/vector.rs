//! The parsed test vector: pre-state, transaction template, environment and
//! the expected post-states of each fork, with what the harness derives
//! from them.

use vstd::prelude::*;
use crate::account::{copy_bytes, copy_state, state_map, Account};
use crate::fork::ForkSpec;
use crate::keccak::{hash_bytes, keccak256};
use crate::primitives::{H160, H256, U256};

verus! {

/// Block metadata of the environment section.
#[derive(Clone, Copy, Debug, PartialEq, Eq)]
pub struct Env {
    pub author: H160,
    pub difficulty: U256,
    pub gas_limit: U256,
    pub number: U256,
    pub timestamp: U256,
}

/// Which alternative of each indexed transaction field a variant takes.
#[derive(Clone, Copy, Debug, PartialEq, Eq, Structural)]
pub struct PostStateIndexes {
    pub data: u64,
    pub gas: u64,
    pub value: u64,
}

/// One expected post-state: the selectors of the variant and the state root
/// that running it must produce.
#[derive(Clone, Copy, Debug, PartialEq, Eq)]
pub struct PostStateResult {
    pub hash: H256,
    pub indexes: PostStateIndexes,
}

/// The transaction template: fixed fields, and indexed alternatives for
/// data, gas limit and value. Access lists are indexed like the data.
#[derive(Clone, Debug, PartialEq, Eq)]
pub struct MultiTransaction {
    pub data: Vec<Vec<u8>>,
    pub gas_limit: Vec<U256>,
    pub gas_price: U256,
    pub nonce: U256,
    pub secret: Option<H256>,
    pub to: Option<H160>,
    pub value: Vec<U256>,
    pub access_lists: Vec<Vec<(H160, Vec<H256>)>>,
}

/// The concrete transaction of one variant.
#[derive(Clone, Debug, PartialEq, Eq)]
pub struct Transaction {
    pub data: Vec<u8>,
    pub gas_limit: U256,
    pub gas_price: U256,
    pub nonce: U256,
    pub to: Option<H160>,
    pub value: U256,
    pub access_list: Vec<(H160, Vec<H256>)>,
    pub secret: Option<H256>,
}

/// A call that the engine is asked to run: value transfer to the
/// recipient, and execution of its code if it has any.
#[derive(Clone, Debug, PartialEq, Eq)]
pub struct CallRequest {
    pub caller: H160,
    pub to: H160,
    pub value: U256,
    pub data: Vec<u8>,
    pub gas_limit: u64,
    pub access_list: Vec<(H160, Vec<H256>)>,
}

/// A contract creation that the engine is asked to run.
#[derive(Clone, Debug, PartialEq, Eq)]
pub struct CreateRequest {
    pub caller: H160,
    pub value: U256,
    pub init_code: Vec<u8>,
    pub gas_limit: u64,
    pub access_list: Vec<(H160, Vec<H256>)>,
}

/// What a transaction asks the engine to do.
#[derive(Clone, Debug, PartialEq, Eq)]
pub enum Request {
    Call(CallRequest),
    Create(CreateRequest),
}

/// The ambient context of execution: gas price, origin and block metadata.
#[derive(Clone, Debug, PartialEq, Eq)]
pub struct Vicinity {
    pub gas_price: U256,
    pub origin: H160,
    pub chain_id: U256,
    pub block_hashes: Vec<H256>,
    pub block_number: U256,
    pub block_coinbase: H160,
    pub block_timestamp: U256,
    pub block_difficulty: U256,
    pub block_gas_limit: U256,
    pub block_base_fee_per_gas: U256,
}

/// A state test vector.
#[derive(Clone, Debug, PartialEq, Eq)]
pub struct Test {
    pub env: Env,
    pub pre_state: Vec<(H160, Account)>,
    pub post_states: Vec<(ForkSpec, Vec<PostStateResult>)>,
    pub transaction: MultiTransaction,
}

/// An access list as mathematical values: addresses with their storage keys.
pub open spec fn access_list_model(list: Seq<(H160, Vec<H256>)>) -> Seq<(Seq<u8>, Seq<Seq<u8>>)> {
    Seq::new(list.len(), |i: int| (list[i].0@, Seq::new(list[i].1@.len(), |j: int| list[i].1@[j]@)))
}

/// The public key of a secret key: the 64 bytes of the point on
/// secp256k1 that the key stands for, `None` where the 32 bytes are no
/// valid secret key.
pub uninterp spec fn public_key(secret: Seq<u8>) -> Option<Seq<u8>>;

/// The address of a public key: the last 20 bytes of its Keccak-256 digest.
pub open spec fn address_of(public: Seq<u8>) -> Seq<u8> {
    keccak256(public).subrange(12, 32)
}

/// The address that a secret key controls, `None` where it has no public key.
pub open spec fn sender_address(secret: Seq<u8>) -> Option<Seq<u8>> {
    match public_key(secret) {
        Some(public) => Some(address_of(public)),
        None => None,
    }
}

/// `parity_crypto::publickey::KeyPair::from_secret_slice`: the public half
/// of the key pair that the 32 bytes are the secret of, or `None` when
/// they are refused as a secret key.
#[verifier::external_body]
fn derive_public(secret: &H256) -> (r: Option<Vec<u8>>)
    ensures
        r is Some <==> public_key(secret@) is Some,
        r is Some ==> r.unwrap()@ == public_key(secret@).unwrap(),
{
    parity_crypto::publickey::KeyPair::from_secret_slice(&secret.bytes).ok().map(
        |pair| pair.public().0.to_vec(),
    )
}

/// The address of a public key.
pub fn public_to_address(public: &Vec<u8>) -> (r: H160)
    ensures
        r@ == address_of(public@),
{
    let h = hash_bytes(public);
    let r = H160 {
        bytes: [
            h.bytes[12],
            h.bytes[13],
            h.bytes[14],
            h.bytes[15],
            h.bytes[16],
            h.bytes[17],
            h.bytes[18],
            h.bytes[19],
            h.bytes[20],
            h.bytes[21],
            h.bytes[22],
            h.bytes[23],
            h.bytes[24],
            h.bytes[25],
            h.bytes[26],
            h.bytes[27],
            h.bytes[28],
            h.bytes[29],
            h.bytes[30],
            h.bytes[31],
        ],
    };
    assert(r.bytes@ =~= h.bytes@.subrange(12, 32));
    r
}

/// The address that the secret key controls, if it is one.
fn derive_sender(secret: &H256) -> (r: Option<H160>)
    ensures
        r is Some <==> sender_address(secret@) is Some,
        r is Some ==> r.unwrap()@ == sender_address(secret@).unwrap(),
{
    match derive_public(secret) {
        Some(public) => Some(public_to_address(&public)),
        None => None,
    }
}

/// A copy of a list of words.
pub(crate) fn copy_words(words: &Vec<H256>) -> (r: Vec<H256>)
    ensures
        r@ == words@,
{
    let mut out: Vec<H256> = Vec::new();
    let mut i: usize = 0;
    while i < words.len()
        invariant
            i <= words.len(),
            out@ == words@.take(i as int),
        decreases words.len() - i,
    {
        out.push(words[i]);
        assert(words@.take(i + 1) =~= words@.take(i as int).push(words@[i as int]));
        i += 1;
    }
    assert(words@.take(words.len() as int) =~= words@);
    out
}

/// A copy of an access list.
pub(crate) fn copy_access_list(list: &Vec<(H160, Vec<H256>)>) -> (r: Vec<(H160, Vec<H256>)>)
    ensures
        access_list_model(r@) == access_list_model(list@),
{
    let mut out: Vec<(H160, Vec<H256>)> = Vec::new();
    let mut i: usize = 0;
    while i < list.len()
        invariant
            i <= list.len(),
            out@.len() == i,
            forall|k: int| 0 <= k < i ==> out@[k].0 == list@[k].0 && out@[k].1@ == list@[k].1@,
        decreases list.len() - i,
    {
        let keys = copy_words(&list[i].1);
        out.push((list[i].0, keys));
        i += 1;
    }
    assert(access_list_model(out@) =~= access_list_model(list@));
    out
}

impl MultiTransaction {
    /// Whether the selectors of a variant all point at an alternative.
    pub open spec fn selects(&self, indexes: PostStateIndexes) -> bool {
        &&& indexes.data < self.data@.len()
        &&& indexes.gas < self.gas_limit@.len()
        &&& indexes.value < self.value@.len()
    }

    /// The access list of the alternative at `data`: the one listed at that
    /// index, the empty list where none is.
    pub open spec fn spec_access_list(&self, data: u64) -> Seq<(Seq<u8>, Seq<Seq<u8>>)> {
        if data < self.access_lists@.len() {
            access_list_model(self.access_lists@[data as int]@)
        } else {
            Seq::empty()
        }
    }

    /// Whether `t` is the transaction that the selectors resolve to: data,
    /// access list, gas limit and value by their selectors, the other
    /// fields as the template has them.
    pub open spec fn selected(&self, indexes: PostStateIndexes, t: Transaction) -> bool {
        &&& t.data@ == self.data@[indexes.data as int]@
        &&& t.gas_limit == self.gas_limit@[indexes.gas as int]
        &&& t.value == self.value@[indexes.value as int]
        &&& access_list_model(t.access_list@) == self.spec_access_list(indexes.data)
        &&& t.gas_price == self.gas_price
        &&& t.nonce == self.nonce
        &&& t.to == self.to
        &&& t.secret == self.secret
    }

    /// Resolves the concrete transaction of a variant from the template.
    /// `None` where a selector points past the alternatives on offer.
    pub fn select(&self, indexes: &PostStateIndexes) -> (r: Option<Transaction>)
        ensures
            r is Some <==> self.selects(*indexes),
            r is Some ==> self.selected(*indexes, r.unwrap()),
    {
        if indexes.data >= self.data.len() as u64 || indexes.gas >= self.gas_limit.len() as u64
            || indexes.value >= self.value.len() as u64 {
            return None;
        }
        let data_index = indexes.data as usize;
        let access_list = if data_index < self.access_lists.len() {
            copy_access_list(&self.access_lists[data_index])
        } else {
            Vec::new()
        };
        proof {
            assert(access_list_model(Seq::<(H160, Vec<H256>)>::empty()) =~= Seq::empty());
        }
        Some(
            Transaction {
                data: copy_bytes(&self.data[data_index]),
                gas_limit: self.gas_limit[indexes.gas as usize],
                gas_price: self.gas_price,
                nonce: self.nonce,
                to: self.to,
                value: self.value[indexes.value as usize],
                access_list,
                secret: self.secret,
            },
        )
    }
}

/// The selectors of a variant resolve to one transaction only: any two
/// that they resolve to agree in every field, so that the same variant of
/// the same template is always the same transaction.
pub proof fn lemma_selected_transaction_is_unique(
    template: MultiTransaction,
    indexes: PostStateIndexes,
    a: Transaction,
    b: Transaction,
)
    requires
        template.selected(indexes, a),
        template.selected(indexes, b),
    ensures
        a.data@ == b.data@,
        a.gas_limit == b.gas_limit,
        a.gas_price == b.gas_price,
        a.nonce == b.nonce,
        a.to == b.to,
        a.value == b.value,
        a.secret == b.secret,
        access_list_model(a.access_list@) == access_list_model(b.access_list@),
{
}

impl Transaction {
    /// Whether `request` is what the transaction asks of the engine on
    /// behalf of `caller`: a call to the recipient where there is one, else
    /// a creation with the data as init code; value, data, gas limit and
    /// access list as the transaction has them.
    pub open spec fn requests(&self, caller: Seq<u8>, request: Request) -> bool {
        match request {
            Request::Call(call) => {
                &&& self.to == Some(call.to)
                &&& call.caller@ == caller
                &&& call.value == self.value
                &&& call.data@ == self.data@
                &&& call.gas_limit == self.gas_limit@
                &&& access_list_model(call.access_list@) == access_list_model(self.access_list@)
            },
            Request::Create(create) => {
                &&& self.to is None
                &&& create.caller@ == caller
                &&& create.value == self.value
                &&& create.init_code@ == self.data@
                &&& create.gas_limit == self.gas_limit@
                &&& access_list_model(create.access_list@) == access_list_model(self.access_list@)
            },
        }
    }

    /// Builds the request that the engine is to run for this transaction.
    /// `None` where the gas limit does not fit in 64 bits.
    pub fn request(&self, caller: &H160) -> (r: Option<Request>)
        ensures
            r is Some <==> self.gas_limit@ <= u64::MAX,
            r is Some ==> self.requests(caller@, r.unwrap()),
    {
        if !self.gas_limit.fits_u64() {
            return None;
        }
        let gas_limit = self.gas_limit.low_u64();
        let data = copy_bytes(&self.data);
        let access_list = copy_access_list(&self.access_list);
        match self.to {
            Some(to) => Some(
                Request::Call(
                    CallRequest { caller: *caller, to, value: self.value, data, gas_limit, access_list },
                ),
            ),
            None => Some(
                Request::Create(
                    CreateRequest {
                        caller: *caller,
                        value: self.value,
                        init_code: data,
                        gas_limit,
                        access_list,
                    },
                ),
            ),
        }
    }
}

/// The chain id of every case.
pub const CHAIN_ID: u64 = 1;

/// The base fee per gas of every case: the executed forks have none.
pub const BASE_FEE_PER_GAS: u64 = 0;

impl Test {
    /// Whether the vector names a secret key from which a sender can be derived.
    pub open spec fn has_sender(&self) -> bool {
        self.transaction.secret is Some && sender_address(self.transaction.secret.unwrap()@) is Some
    }

    /// The sender's address, where the vector has one.
    pub open spec fn spec_caller(&self) -> Seq<u8> {
        sender_address(self.transaction.secret.unwrap()@).unwrap()
    }

    /// The ambient context that the vector describes, for a given origin.
    pub open spec fn vicinity_matches(&self, origin: Seq<u8>, v: Vicinity) -> bool {
        &&& v.gas_price == self.transaction.gas_price
        &&& v.origin@ == origin
        &&& v.chain_id@ == CHAIN_ID
        &&& v.block_hashes@.len() == 0
        &&& v.block_number == self.env.number
        &&& v.block_coinbase == self.env.author
        &&& v.block_timestamp == self.env.timestamp
        &&& v.block_difficulty == self.env.difficulty
        &&& v.block_gas_limit == self.env.gas_limit
        &&& v.block_base_fee_per_gas@ == BASE_FEE_PER_GAS
    }

    /// The accounts that execution starts from: a copy of the vector's pre-state.
    pub fn unwrap_to_pre_state(&self) -> (r: Vec<(H160, Account)>)
        ensures
            r@.len() == self.pre_state@.len(),
            forall|i: int|
                0 <= i < r@.len() ==> r@[i].0 == self.pre_state@[i].0 && r@[i].1@
                    == self.pre_state@[i].1@,
            state_map(r@) == state_map(self.pre_state@),
    {
        copy_state(&self.pre_state)
    }

    /// The address of the sender, derived from the transaction's secret key.
    pub fn unwrap_caller(&self) -> (r: H160)
        requires
            self.has_sender(),
        ensures
            r@ == self.spec_caller(),
    {
        match &self.transaction.secret {
            Some(secret) => match derive_sender(secret) {
                Some(sender) => sender,
                None => {
                    proof {
                        assert(false);
                    }
                    H160 { bytes: [0u8; 20] }
                },
            },
            None => {
                proof {
                    assert(false);
                }
                H160 { bytes: [0u8; 20] }
            },
        }
    }

    /// The address of the sender, `None` where the vector names no secret
    /// key or one from which no key pair can be made.
    pub fn caller(&self) -> (r: Option<H160>)
        ensures
            r is Some <==> self.has_sender(),
            r is Some ==> r.unwrap()@ == self.spec_caller(),
    {
        match &self.transaction.secret {
            Some(secret) => match derive_sender(secret) {
                Some(_) => Some(self.unwrap_caller()),
                None => None,
            },
            None => None,
        }
    }

    /// The ambient context of every case of the vector: gas price and block
    /// metadata as the vector gives them, the sender as origin, no
    /// historical block hashes, chain id 1 and no base fee.
    pub fn unwrap_to_vicinity(&self) -> (r: Vicinity)
        requires
            self.has_sender(),
        ensures
            self.vicinity_matches(self.spec_caller(), r),
    {
        Vicinity {
            gas_price: self.transaction.gas_price,
            origin: self.unwrap_caller(),
            chain_id: U256::from_u64(CHAIN_ID),
            block_hashes: Vec::new(),
            block_number: self.env.number,
            block_coinbase: self.env.author,
            block_timestamp: self.env.timestamp,
            block_difficulty: self.env.difficulty,
            block_gas_limit: self.env.gas_limit,
            block_base_fee_per_gas: U256::from_u64(BASE_FEE_PER_GAS),
        }
    }

    /// The ambient context, `None` where no sender can be derived.
    pub fn vicinity(&self) -> (r: Option<Vicinity>)
        ensures
            r is Some <==> self.has_sender(),
            r is Some ==> self.vicinity_matches(self.spec_caller(), r.unwrap()),
    {
        match self.caller() {
            Some(_) => Some(self.unwrap_to_vicinity()),
            None => None,
        }
    }
}

} // verus!
