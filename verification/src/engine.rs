//! The execution engine as the harness consumes it: an in-memory backend
//! that holds the accounts, the pending state of one transaction on top of
//! it, and the executor that runs a call or a creation. The engine's values
//! are opaque here; every function in this file forwards to the engine.

use vstd::prelude::*;
use std::collections::BTreeMap;
use evm::backend::{MemoryBackend, MemoryVicinity};
use evm::executor::{MemoryStackState, PrecompileFn, StackExecutor};
use crate::account::{
    balance_in, canonical, nonce_ceiling, nonce_in, state_map, Account, AccountModel,
};
use crate::diff::{apply_changes, Change};
use crate::primitives::{u256_limit, H160, H256, U256};
use crate::vector::{CallRequest, CreateRequest, Vicinity};

verus! {

/// The engine's gas-cost parameters of a fork.
#[verifier::external_type_specification]
#[verifier::external_body]
pub struct ExConfig(evm::Config);

/// A log entry that execution emitted.
#[verifier::external_type_specification]
#[verifier::external_body]
pub struct ExLog(ethereum::Log);

/// The engine's form of the ambient context.
#[verifier::external_type_specification]
#[verifier::external_body]
pub struct ExMemoryVicinity(MemoryVicinity);

/// The engine's in-memory backend: all accounts of a state.
#[verifier::external_type_specification]
#[verifier::external_body]
pub struct ExMemoryBackend<'vicinity>(MemoryBackend<'vicinity>);

/// The engine's record of what a transaction has changed so far, on top
/// of a backend.
#[verifier::external_type_specification]
#[verifier::external_body]
#[verifier::reject_recursive_types(B)]
pub struct ExMemoryStackState<'backend, 'config, B>(MemoryStackState<'backend, 'config, B>);

/// The precompiles of a fork in the form the engine takes them: one
/// adapter for each bound address. Verus takes no function pointers, so
/// the map is carried as it is and only its keys are spoken of. Every
/// adapter must return: the engine calls it in the middle of a transaction.
#[verifier::external_body]
pub struct PrecompileTable(pub BTreeMap<primitive_types::H160, PrecompileFn>);

/// The engine's executor of one transaction, over a pending state and a
/// precompile table. Its type names the table's function pointers, so it
/// is carried as it is.
#[verifier::external_body]
pub struct Executor<'a> {
    inner: StackExecutor<'a, 'a, Pending<'a>, BTreeMap<primitive_types::H160, PrecompileFn>>,
}

/// The pending state of one transaction over a memory backend.
pub(crate) type Pending<'a> = MemoryStackState<'a, 'a, MemoryBackend<'a>>;

/// How the engine left a transaction.
#[derive(Clone, Copy, Debug, PartialEq, Eq, Structural)]
pub enum Exit {
    Succeed,
    Error,
    Revert,
    Fatal,
}

/// The addresses that a precompile table binds.
pub uninterp spec fn bound_addresses(table: PrecompileTable) -> Set<Seq<u8>>;

/// The accounts that a backend holds, by address.
pub uninterp spec fn backend_accounts(backend: MemoryBackend) -> Map<Seq<u8>, AccountModel>;

/// The balance of every address as a pending state sees it: what the
/// transaction has made of it so far, else what the backend holds.
pub uninterp spec fn pending_balances(state: MemoryStackState<MemoryBackend>) -> Map<Seq<u8>, nat>;

/// The nonce of every address as a pending state sees it.
pub uninterp spec fn pending_nonces(state: MemoryStackState<MemoryBackend>) -> Map<Seq<u8>, nat>;

/// The gas limit that a pending state was made with.
pub uninterp spec fn pending_gas_limit(state: MemoryStackState<MemoryBackend>) -> nat;

/// The nonce of every address as the executor's pending state sees it.
pub uninterp spec fn executor_nonces(executor: Executor) -> Map<Seq<u8>, nat>;

/// The gas limit that the executor's pending state was made with.
pub uninterp spec fn executor_gas_limit(executor: Executor) -> nat;

/// The sum of two balances, held at the largest 256-bit value.
pub open spec fn saturating_sum(a: nat, b: nat) -> nat {
    if a + b < u256_limit() {
        a + b
    } else {
        (u256_limit() - 1) as nat
    }
}

/// `evm::Config::istanbul`: the gas-cost parameters of the Istanbul fork.
#[verifier::external_body]
pub(crate) fn config_istanbul() -> (r: evm::Config) {
    evm::Config::istanbul()
}

/// `evm::Config::berlin`: the gas-cost parameters of the Berlin fork.
#[verifier::external_body]
pub(crate) fn config_berlin() -> (r: evm::Config) {
    evm::Config::berlin()
}

/// Builds the engine's `MemoryVicinity` from the fields of the same names.
#[verifier::external_body]
pub(crate) fn memory_vicinity(v: &Vicinity) -> (r: MemoryVicinity) {
    MemoryVicinity {
        gas_price: primitive_types::U256(v.gas_price.limbs),
        origin: primitive_types::H160(v.origin.bytes),
        chain_id: primitive_types::U256(v.chain_id.limbs),
        block_hashes: v.block_hashes.iter().map(|h| primitive_types::H256(h.bytes)).collect(),
        block_number: primitive_types::U256(v.block_number.limbs),
        block_coinbase: primitive_types::H160(v.block_coinbase.bytes),
        block_timestamp: primitive_types::U256(v.block_timestamp.limbs),
        block_difficulty: primitive_types::U256(v.block_difficulty.limbs),
        block_gas_limit: primitive_types::U256(v.block_gas_limit.limbs),
        block_base_fee_per_gas: primitive_types::U256(v.block_base_fee_per_gas.limbs),
    }
}

/// `MemoryBackend::new`: a backend that holds exactly the given accounts.
/// The accounts and the slots of each are put into maps by
/// `BTreeMap::insert`, one after the other, so that of two entries with
/// one address, or two slots with one key, the later counts.
#[verifier::external_body]
pub(crate) fn new_backend<'a>(vicinity: &'a MemoryVicinity, accounts: &Vec<(H160, Account)>) -> (r:
    MemoryBackend<'a>)
    ensures
        backend_accounts(r) == state_map(accounts@),
{
    let state = accounts.iter().fold(BTreeMap::new(), |mut map, (address, account)| {
        let storage = account.storage.iter().fold(BTreeMap::new(), |mut slots, (k, v)| {
            slots.insert(primitive_types::H256(k.bytes), primitive_types::H256(v.bytes));
            slots
        });
        let (nonce, balance) = (primitive_types::U256(account.nonce.limbs), primitive_types::U256(account.balance.limbs));
        map.insert(primitive_types::H160(address.bytes), evm::backend::MemoryAccount { nonce, balance, storage, code: account.code.clone() });
        map
    });
    MemoryBackend::new(vicinity, state)
}

/// `MemoryBackend::state`: the accounts that the backend holds, each
/// once. The map and the storage maps in it are walked by `BTreeMap::iter`,
/// in ascending order of their keys, which are ordered by their bytes.
#[verifier::external_body]
pub(crate) fn backend_state(backend: &MemoryBackend) -> (r: Vec<(H160, Account)>)
    ensures
        state_map(r@) == backend_accounts(*backend),
        canonical(r@),
{
    backend.state().iter().map(|(address, account)| (H160 { bytes: address.0 },
        Account {
            nonce: U256 { limbs: account.nonce.0 },
            balance: U256 { limbs: account.balance.0 },
            code: account.code.clone(),
            storage: account.storage.iter().map(|(k, v)| (H256 { bytes: k.0 }, H256 { bytes: v.0 }))
                .collect(),
        })).collect()
}

/// `ApplyBackend::apply` of `MemoryBackend`: the backend's accounts after
/// the entries of the diff, taken in order.
#[verifier::external_body]
pub(crate) fn apply_diff(
    backend: &mut MemoryBackend,
    changes: &Vec<Change>,
    logs: Vec<ethereum::Log>,
    delete_empty: bool,
)
    ensures
        backend_accounts(*final(backend)) == apply_changes(
            backend_accounts(*old(backend)),
            changes@,
            delete_empty,
        ),
{
    let values = changes.iter().map(|change| match change {
        Change::Modify { address, balance, nonce, code, storage, reset_storage } => evm::backend::Apply::Modify {
            address: primitive_types::H160(address.bytes),
            basic: evm::backend::Basic { balance: primitive_types::U256(balance.limbs), nonce: primitive_types::U256(nonce.limbs) },
            code: code.clone(),
            storage: storage.iter().map(|(k, v)| (primitive_types::H256(k.bytes), primitive_types::H256(v.bytes))).collect::<Vec<_>>(),
            reset_storage: *reset_storage,
        },
        Change::Delete { address } => evm::backend::Apply::Delete { address: primitive_types::H160(address.bytes) },
    });
    evm::backend::ApplyBackend::apply(backend, values, logs, delete_empty)
}

/// `StackSubstateMetadata::new` and `MemoryStackState::new`: a pending
/// state with the given gas limit in which nothing has happened yet, so
/// that every balance and every nonce is the backend's.
#[verifier::external_body]
pub(crate) fn new_pending<'a>(gas_limit: u64, config: &'a evm::Config, backend: &'a MemoryBackend<'a>) -> (r:
    Pending<'a>)
    ensures
        forall|address: Seq<u8>| #[trigger]
            pending_balances(r)[address] == balance_in(backend_accounts(*backend), address),
        forall|address: Seq<u8>| #[trigger]
            pending_nonces(r)[address] == nonce_in(backend_accounts(*backend), address),
        pending_gas_limit(r) == gas_limit,
{
    let metadata = evm::executor::StackSubstateMetadata::new(gas_limit, config);
    MemoryStackState::new(metadata, backend)
}

/// `MemoryStackState::withdraw`: takes `value` from the balance of
/// `address`, or refuses and changes no balance where the balance is less.
/// Nonces and gas limit stay as they are.
#[verifier::external_body]
pub(crate) fn withdraw(state: &mut Pending, address: &H160, value: &U256) -> (ok: bool)
    ensures
        ok <==> pending_balances(*old(state))[address@] >= value@,
        ok ==> pending_balances(*final(state)) == pending_balances(*old(state)).insert(
            address@,
            (pending_balances(*old(state))[address@] - value@) as nat,
        ),
        !ok ==> pending_balances(*final(state)) == pending_balances(*old(state)),
        pending_nonces(*final(state)) == pending_nonces(*old(state)),
        pending_gas_limit(*final(state)) == pending_gas_limit(*old(state)),
{
    state.withdraw(primitive_types::H160(address.bytes), primitive_types::U256(value.limbs)).is_ok()
}

/// `MemoryStackState::deposit`: adds `value` to the balance of `address`,
/// holding it at the largest 256-bit value.
#[verifier::external_body]
pub(crate) fn deposit(state: &mut Pending, address: &H160, value: &U256)
    ensures
        pending_balances(*final(state)) == pending_balances(*old(state)).insert(
            address@,
            saturating_sum(pending_balances(*old(state))[address@], value@),
        ),
{
    state.deposit(primitive_types::H160(address.bytes), primitive_types::U256(value.limbs))
}

/// `MemoryStackState::deconstruct`: the diff and the logs that the
/// transaction leaves behind. The state must have no open substate, as is
/// the case before and after a whole transaction.
#[verifier::external_body]
pub(crate) fn deconstruct(state: Pending) -> (r: (Vec<Change>, Vec<ethereum::Log>)) {
    let (values, logs) = state.deconstruct();
    let changes = values.into_iter().map(|apply| match apply {
        evm::backend::Apply::Modify { address, basic, code, storage, reset_storage } => Change::Modify {
            address: H160 { bytes: address.0 },
            balance: U256 { limbs: basic.balance.0 },
            nonce: U256 { limbs: basic.nonce.0 },
            code,
            storage: storage.into_iter().map(|(k, v)| (H256 { bytes: k.0 }, H256 { bytes: v.0 })).collect(),
            reset_storage,
        },
        evm::backend::Apply::Delete { address } => Change::Delete { address: H160 { bytes: address.0 } },
    }).collect();
    (changes, logs.into_iter().collect())
}

/// `BTreeMap::contains_key` on the table: whether the address is bound.
#[verifier::external_body]
pub(crate) fn is_bound(table: &PrecompileTable, address: &H160) -> (r: bool)
    ensures
        r == bound_addresses(*table).contains(address@),
{
    table.0.contains_key(&primitive_types::H160(address.bytes))
}

/// `StackExecutor::new_with_precompiles`: an executor over the pending
/// state, which it keeps as it is.
#[verifier::external_body]
pub(crate) fn new_executor<'a>(
    state: Pending<'a>,
    config: &'a evm::Config,
    precompiles: &'a PrecompileTable,
) -> (r: Executor<'a>)
    ensures
        executor_nonces(r) == pending_nonces(state),
        executor_gas_limit(r) == pending_gas_limit(state),
{
    Executor { inner: StackExecutor::new_with_precompiles(state, config, &precompiles.0) }
}

/// `StackExecutor::transact_call`: runs the call and says how it exited
/// and what it returned. The engine adds one to the caller's nonce, and to
/// that of an account for each creation it makes, with an addition that
/// aborts on overflow; nonces below the ceiling leave room for all that
/// the gas limit pays for. The adapters of the table must return.
#[verifier::external_body]
pub(crate) fn transact_call(executor: &mut Executor, request: &CallRequest) -> (r: (Exit, Vec<u8>))
    requires
        forall|address: Seq<u8>| #[trigger] executor_nonces(*old(executor))[address] < nonce_ceiling(),
    ensures
        executor_gas_limit(*final(executor)) == executor_gas_limit(*old(executor)),
{
    let list = request.access_list.iter().map(|(address, keys)| (primitive_types::H160(address.bytes),
        keys.iter().map(|k| primitive_types::H256(k.bytes)).collect())).collect();
    let (reason, output) = executor.inner.transact_call(primitive_types::H160(request.caller.bytes),
        primitive_types::H160(request.to.bytes), primitive_types::U256(request.value.limbs),
        request.data.clone(), request.gas_limit, list);
    (match reason {
        evm::ExitReason::Succeed(_) => Exit::Succeed,
        evm::ExitReason::Error(_) => Exit::Error,
        evm::ExitReason::Revert(_) => Exit::Revert,
        evm::ExitReason::Fatal(_) => Exit::Fatal,
    }, output)
}

/// `StackExecutor::transact_create`: runs the creation and says how it
/// exited. Nonces and adapters as for a call.
#[verifier::external_body]
pub(crate) fn transact_create(executor: &mut Executor, request: &CreateRequest) -> (r: Exit)
    requires
        forall|address: Seq<u8>| #[trigger] executor_nonces(*old(executor))[address] < nonce_ceiling(),
    ensures
        executor_gas_limit(*final(executor)) == executor_gas_limit(*old(executor)),
{
    let list = request.access_list.iter().map(|(address, keys)| (primitive_types::H160(address.bytes),
        keys.iter().map(|k| primitive_types::H256(k.bytes)).collect())).collect();
    let reason = executor.inner.transact_create(primitive_types::H160(request.caller.bytes),
        primitive_types::U256(request.value.limbs), request.init_code.clone(), request.gas_limit, list);
    match reason {
        evm::ExitReason::Succeed(_) => Exit::Succeed,
        evm::ExitReason::Error(_) => Exit::Error,
        evm::ExitReason::Revert(_) => Exit::Revert,
        evm::ExitReason::Fatal(_) => Exit::Fatal,
    }
}

/// `StackExecutor::used_gas`: the gas that the transaction has used, net
/// of refunds. It is what the gasometer counts as used, less a refund, and
/// the gasometer admits a cost only when the sum stays within the limit it
/// was made with, so the result never exceeds that limit.
#[verifier::external_body]
pub(crate) fn used_gas(executor: &Executor) -> (r: u64)
    ensures
        r <= executor_gas_limit(*executor),
{
    executor.inner.used_gas()
}

/// `StackExecutor::into_state`: the pending state that the executor worked on.
#[verifier::external_body]
pub(crate) fn into_pending<'a>(executor: Executor<'a>) -> (r: Pending<'a>) {
    executor.inner.into_state()
}

} // verus!
