//! The execution driver: runs one transaction per (fork, variant) on a
//! fresh backend, settles its fee, applies the diff and compares the state
//! root with the expected one; and the runner that takes a test vector
//! through all its forks and variants.

use vstd::prelude::*;
use vstd::pervasive::unreached;
use crate::account::{
    balance_in, canonical, find_beyond_ceiling, first_beyond_ceiling, lemma_nonces_within_state,
    nonces_within, state_map, Account,
};
use crate::diff::{apply_changes, Change};
use crate::engine::{
    apply_diff, backend_state, bound_addresses, config_berlin, config_istanbul, deconstruct, deposit,
    into_pending, is_bound, memory_vicinity, new_backend, new_executor, new_pending, transact_call,
    transact_create, used_gas, withdraw, Exit, PrecompileTable,
};
use crate::fees::{
    lemma_used_within_limit_settles, settle, spec_actual_fee, spec_refund, spec_total_fee, total_fee,
    FeeSettlement,
};
use crate::fork::{ForkSettings, ForkSpec, Ruleset};
use crate::precompile::{
    registry_of, JsonPrecompile, PrecompileEntry, FIRST_PRECOMPILE, LAST_PRECOMPILE,
};
use crate::primitives::{low_u64_be, u256_limit, H160, H256, U256};
use crate::trie::{lemma_state_root_of_state, spec_state_root, state_root};
use crate::vector::{PostStateResult, Request, Test, Transaction, Vicinity};

verus! {

/// The stack, in bytes, that the worker of a run needs: nested calls
/// recurse deeply.
pub const WORKER_STACK_SIZE: usize = 16 * 1024 * 1024;

/// Why a case could not be run.
#[derive(Clone, Copy, Debug, PartialEq, Eq)]
pub enum CaseError {
    /// A selector of the variant points past the alternatives of the template.
    BadIndexes,
    /// The precompile table has no adapter for an address of the fork's registry.
    MissingPrecompile { address: H160 },
    /// The gas limit does not fit in 64 bits.
    GasLimitTooLarge,
    /// Gas price times gas limit does not fit in 256 bits.
    FeeOverflow,
    /// An account of the pre-state has a nonce at or above the ceiling.
    NonceTooLarge { address: H160 },
    /// The sender's balance does not cover the fee to reserve.
    InsufficientBalance,
}

/// What running one case produced.
#[derive(Clone, Debug, PartialEq, Eq)]
pub struct CaseOutcome {
    /// What the engine was asked to run.
    pub request: Request,
    /// How the engine left the transaction. The verdict does not depend on it.
    pub exit: Exit,
    /// What a call returned; empty for a creation.
    pub output: Vec<u8>,
    /// The fee withdrawn from the sender before execution.
    pub total_fee: U256,
    /// The gas that execution used, net of refunds.
    pub used_gas: u64,
    /// How the reserved fee was split afterwards.
    pub settlement: FeeSettlement,
    /// The diff that the transaction left behind.
    pub diff: Vec<Change>,
    /// The accounts after the diff was applied to the pre-state.
    pub post_state: Vec<(H160, Account)>,
    /// The state root of `post_state`.
    pub root: H256,
    /// Whether `root` is the expected hash.
    pub passed: bool,
}

/// The fee that a transaction reserves at a gas price.
pub open spec fn spec_case_fee(gas_price: nat, transaction: Transaction) -> nat {
    spec_total_fee(gas_price, transaction.gas_limit@)
}

/// Whether the outcome is that of the given answer of the engine: the
/// reserved fee split by the gas used, the accounts with their state root,
/// and the verdict that compares the root with the expected hash.
pub open spec fn concludes(
    outcome: CaseOutcome,
    request: Request,
    exit: Exit,
    output: Seq<u8>,
    reserved: U256,
    gas_price: nat,
    used_gas: u64,
    diff: Seq<Change>,
    post_state: Seq<(H160, Account)>,
    expected: H256,
) -> bool {
    &&& outcome.request == request
    &&& outcome.exit == exit
    &&& outcome.output@ == output
    &&& outcome.total_fee == reserved
    &&& outcome.used_gas == used_gas
    &&& outcome.settlement.coinbase_deposit@ == spec_actual_fee(gas_price, used_gas as nat)
    &&& outcome.settlement.sender_refund@ == spec_refund(reserved@, gas_price, used_gas as nat)
    &&& outcome.settlement.coinbase_deposit@ + outcome.settlement.sender_refund@ == reserved@
    &&& outcome.diff@ == diff
    &&& outcome.post_state@ == post_state
    &&& outcome.root@ == spec_state_root(post_state)
    &&& outcome.passed == (outcome.root@ == expected@)
}

/// Makes the outcome of a case from what the engine answered: splits the
/// reserved fee by the gas used, takes the state root of the accounts and
/// compares it with the expected hash. `None` where the fee for the gas
/// used exceeds what was reserved.
pub fn conclude_case(
    request: Request,
    exit: Exit,
    output: Vec<u8>,
    reserved: U256,
    gas_price: U256,
    used_gas: u64,
    diff: Vec<Change>,
    post_state: Vec<(H160, Account)>,
    expected: &H256,
) -> (r: Option<CaseOutcome>)
    ensures
        r is Some <==> spec_actual_fee(gas_price@, used_gas as nat) <= reserved@,
        r is Some ==> concludes(
            r.unwrap(),
            request,
            exit,
            output@,
            reserved,
            gas_price@,
            used_gas,
            diff@,
            post_state@,
            *expected,
        ),
{
    match settle(reserved, gas_price, used_gas) {
        None => None,
        Some(settlement) => {
            let root = state_root(&post_state);
            let passed = root.same(expected);
            Some(
                CaseOutcome {
                    request,
                    exit,
                    output,
                    total_fee: reserved,
                    used_gas,
                    settlement,
                    diff,
                    post_state,
                    root,
                    passed,
                },
            )
        },
    }
}

/// Whether the outcome is one that the inputs of the case allow: the
/// engine was asked what the transaction asks on behalf of the caller, the
/// fee was reserved in full and split without loss by a gas use within
/// the limit, the post-state is the pre-state after the diff under the
/// fork's policy, the root is that of the post-state, and the verdict
/// compares it with the expected hash.
pub open spec fn outcome_fits(
    outcome: CaseOutcome,
    settings: ForkSettings,
    gas_price: nat,
    caller: Seq<u8>,
    pre_state: Seq<(H160, Account)>,
    transaction: Transaction,
    expected: H256,
) -> bool {
    &&& transaction.requests(caller, outcome.request)
    &&& outcome.used_gas <= transaction.gas_limit@
    &&& state_map(outcome.post_state@) == apply_changes(
        state_map(pre_state),
        outcome.diff@,
        settings.delete_empty,
    )
    &&& canonical(outcome.post_state@)
    &&& exists|reserved: U256|
        reserved@ == spec_case_fee(gas_price, transaction) && #[trigger] concludes(
            outcome,
            outcome.request,
            outcome.exit,
            outcome.output@,
            reserved,
            gas_price,
            outcome.used_gas,
            outcome.diff@,
            outcome.post_state@,
            expected,
        )
}

/// Two runs of one case give the same state root and the same verdict
/// whenever the diffs that the engine left lead to the same state: the
/// root is a matter of the pre-state, the diff and the fork's policy alone.
pub proof fn lemma_same_state_same_root(
    a: CaseOutcome,
    b: CaseOutcome,
    settings: ForkSettings,
    gas_price: nat,
    caller: Seq<u8>,
    pre_state: Seq<(H160, Account)>,
    transaction: Transaction,
    expected: H256,
)
    requires
        outcome_fits(a, settings, gas_price, caller, pre_state, transaction, expected),
        outcome_fits(b, settings, gas_price, caller, pre_state, transaction, expected),
        apply_changes(state_map(pre_state), a.diff@, settings.delete_empty) == apply_changes(
            state_map(pre_state),
            b.diff@,
            settings.delete_empty,
        ),
    ensures
        a.total_fee@ == b.total_fee@,
        a.root@ == b.root@,
        a.passed == b.passed,
{
    lemma_state_root_of_state(a.post_state@, b.post_state@);
}

/// Whether a precompile table binds every address that a registry holds:
/// the addresses 1 through 9.
pub open spec fn binds_registry(table: PrecompileTable) -> bool {
    forall|index: u64|
        FIRST_PRECOMPILE <= index <= LAST_PRECOMPILE ==> bound_addresses(table).contains(
            #[trigger] low_u64_be(index),
        )
}

/// Whether `address` is the first of a registry that the table does not bind.
pub open spec fn first_unbound(table: PrecompileTable, address: Seq<u8>) -> bool {
    exists|index: u64|
        FIRST_PRECOMPILE <= index <= LAST_PRECOMPILE && address == #[trigger] low_u64_be(index)
            && !bound_addresses(table).contains(address) && forall|before: u64|
            FIRST_PRECOMPILE <= before < index ==> bound_addresses(table).contains(
                #[trigger] low_u64_be(before),
            )
}

/// The first address of a registry that the table does not bind, `None`
/// where it binds them all.
pub(crate) fn find_unbound(table: &PrecompileTable, registry: &Vec<PrecompileEntry>) -> (r: Option<
    H160,
>)
    requires
        exists|ruleset: Ruleset| registry_of(ruleset, registry@),
    ensures
        r is None <==> binds_registry(*table),
        r is Some ==> first_unbound(*table, r.unwrap()@),
{
    let mut i: usize = 0;
    while i < registry.len()
        invariant
            i <= registry.len(),
            registry@.len() == LAST_PRECOMPILE,
            forall|k: int| 0 <= k < registry@.len() ==> (#[trigger] registry@[k]).address@ == low_u64_be(
                (k + 1) as u64,
            ),
            forall|before: u64|
                FIRST_PRECOMPILE <= before < i + 1 ==> bound_addresses(*table).contains(
                    #[trigger] low_u64_be(before),
                ),
        decreases registry.len() - i,
    {
        if !is_bound(table, &registry[i].address) {
            assert(registry@[i as int].address@ == low_u64_be((i + 1) as u64));
            return Some(registry[i].address);
        }
        assert(registry@[i as int].address@ == low_u64_be((i + 1) as u64));
        i += 1;
    }
    None
}

/// Whether the result is the one that the inputs of the case call for.
/// Refused, in this order, are a table that leaves an address of the
/// fork's registry unbound, a gas limit beyond 64 bits, a fee beyond 256
/// bits, a pre-state with a nonce at or above the ceiling, and a sender
/// whose balance does not cover the fee. Every other case is run and has
/// an outcome that fits.
pub open spec fn result_fits(
    r: Result<CaseOutcome, CaseError>,
    settings: ForkSettings,
    table: PrecompileTable,
    gas_price: nat,
    caller: Seq<u8>,
    pre_state: Seq<(H160, Account)>,
    transaction: Transaction,
    expected: H256,
) -> bool {
    let fee = spec_case_fee(gas_price, transaction);
    if !binds_registry(table) {
        match r {
            Err(CaseError::MissingPrecompile { address }) => first_unbound(table, address@),
            _ => false,
        }
    } else if transaction.gas_limit@ > u64::MAX {
        r == Err::<CaseOutcome, CaseError>(CaseError::GasLimitTooLarge)
    } else if fee >= u256_limit() {
        r == Err::<CaseOutcome, CaseError>(CaseError::FeeOverflow)
    } else if !nonces_within(pre_state) {
        match r {
            Err(CaseError::NonceTooLarge { address }) => first_beyond_ceiling(pre_state, address),
            _ => false,
        }
    } else if balance_in(state_map(pre_state), caller) < fee {
        r == Err::<CaseOutcome, CaseError>(CaseError::InsufficientBalance)
    } else {
        r is Ok && outcome_fits(
            r.unwrap(),
            settings,
            gas_price,
            caller,
            pre_state,
            transaction,
            expected,
        )
    }
}

/// Applies a diff to a list of accounts, entry by entry, and gives the
/// accounts that result, with the logs of the transaction handed on.
fn apply_with_logs(
    accounts: &Vec<(H160, Account)>,
    changes: &Vec<Change>,
    logs: Vec<ethereum::Log>,
    delete_empty: bool,
) -> (r: Vec<(H160, Account)>)
    ensures
        state_map(r@) == apply_changes(state_map(accounts@), changes@, delete_empty),
        canonical(r@),
{
    let nowhere = Vicinity {
        gas_price: U256::zero(),
        origin: H160 { bytes: [0u8; 20] },
        chain_id: U256::zero(),
        block_hashes: Vec::new(),
        block_number: U256::zero(),
        block_coinbase: H160 { bytes: [0u8; 20] },
        block_timestamp: U256::zero(),
        block_difficulty: U256::zero(),
        block_gas_limit: U256::zero(),
        block_base_fee_per_gas: U256::zero(),
    };
    let ambient = memory_vicinity(&nowhere);
    let mut backend = new_backend(&ambient, accounts);
    apply_diff(&mut backend, changes, logs, delete_empty);
    backend_state(&backend)
}

/// Applies a diff to a list of accounts, entry by entry, and gives the
/// accounts that result, in canonical order. Where `delete_empty` is set,
/// a modified account that ends up with zero balance, zero nonce and no
/// code is removed.
pub fn apply_state_diff(
    accounts: &Vec<(H160, Account)>,
    changes: &Vec<Change>,
    delete_empty: bool,
) -> (r: Vec<(H160, Account)>)
    ensures
        state_map(r@) == apply_changes(state_map(accounts@), changes@, delete_empty),
        canonical(r@),
{
    apply_with_logs(accounts, changes, Vec::new(), delete_empty)
}

/// Runs one transaction from the given pre-state and compares the
/// resulting state root with `expected`.
///
/// The table must bind every address of the fork's precompile registry.
/// The fee `gas_price * gas_limit` is withdrawn from the sender first; the
/// transaction is a call where it names a recipient and a creation where it
/// does not; whatever its exit, the fee for the gas used goes to the
/// coinbase and the rest back to the sender; then the diff is applied to
/// the pre-state under the fork's empty-account policy. `pre_state` is
/// left as it was.
pub fn run_case(
    settings: &ForkSettings,
    vicinity: &Vicinity,
    caller: &H160,
    pre_state: &Vec<(H160, Account)>,
    transaction: &Transaction,
    expected: &H256,
    precompiles: &PrecompileTable,
) -> (r: Result<CaseOutcome, CaseError>)
    ensures
        result_fits(
            r,
            *settings,
            *precompiles,
            vicinity.gas_price@,
            caller@,
            pre_state@,
            *transaction,
            *expected,
        ),
{
    let registry = JsonPrecompile::registry(settings.ruleset);
    match find_unbound(precompiles, &registry) {
        Some(address) => {
            return Err(CaseError::MissingPrecompile { address });
        },
        None => {},
    }
    let request = match transaction.request(caller) {
        Some(request) => request,
        None => {
            return Err(CaseError::GasLimitTooLarge);
        },
    };
    let gas_limit: u64 = transaction.gas_limit.low_u64();
    let reserved = match total_fee(vicinity.gas_price, gas_limit) {
        Some(fee) => fee,
        None => {
            return Err(CaseError::FeeOverflow);
        },
    };
    match find_beyond_ceiling(pre_state) {
        Some(address) => {
            return Err(CaseError::NonceTooLarge { address });
        },
        None => {},
    }
    let config = match settings.ruleset {
        Ruleset::Istanbul => config_istanbul(),
        Ruleset::Berlin => config_berlin(),
    };
    let ambient = memory_vicinity(vicinity);
    let backend = new_backend(&ambient, pre_state);
    let mut pending = new_pending(gas_limit, &config, &backend);
    if !withdraw(&mut pending, caller, &reserved) {
        return Err(CaseError::InsufficientBalance);
    }
    let mut executor = new_executor(pending, &config, precompiles);
    proof {
        assert forall|address: Seq<u8>| #[trigger]
            crate::engine::executor_nonces(executor)[address] < crate::account::nonce_ceiling() by {
            lemma_nonces_within_state(pre_state@, address);
        }
    }
    let (exit, output) = match &request {
        Request::Call(call) => transact_call(&mut executor, call),
        Request::Create(create) => (transact_create(&mut executor, create), Vec::new()),
    };
    let used = used_gas(&executor);
    let mut pending = into_pending(executor);
    proof {
        lemma_used_within_limit_settles(vicinity.gas_price@, gas_limit as nat, used as nat);
    }
    let settlement = match settle(reserved, vicinity.gas_price, used) {
        Some(settlement) => settlement,
        None => unreached(),
    };
    deposit(&mut pending, &vicinity.block_coinbase, &settlement.coinbase_deposit);
    deposit(&mut pending, caller, &settlement.sender_refund);
    let (diff, logs) = deconstruct(pending);
    let post_state = apply_with_logs(pre_state, &diff, logs, settings.delete_empty);
    match conclude_case(
        request,
        exit,
        output,
        reserved,
        vicinity.gas_price,
        used,
        diff,
        post_state,
        expected,
    ) {
        Some(outcome) => {
            assert(outcome_fits(
                outcome,
                *settings,
                vicinity.gas_price@,
                caller@,
                pre_state@,
                *transaction,
                *expected,
            ));
            Ok(outcome)
        },
        None => unreached(),
    }
}

/// What a run tells its caller while it goes on, each at the moment it happens.
#[derive(Clone, Copy, Debug, PartialEq, Eq, Structural)]
pub enum Notice {
    /// The cases of a fork that the harness does not execute are skipped.
    Skipping { fork: ForkSpec },
    /// The variant at `index` under `fork` is about to run.
    Running { fork: ForkSpec, index: usize },
    /// The variant that was running has passed.
    Passed { fork: ForkSpec, index: usize },
}

/// One line of progress of a run.
#[derive(Clone, Copy, Debug, PartialEq, Eq, Structural)]
pub enum Event {
    /// The fork is not one that the harness executes; its cases were skipped.
    Skipped { fork: ForkSpec },
    /// The variant at `index` under `fork` ran and its state root matched.
    Passed { fork: ForkSpec, index: usize },
}

/// Why a run stopped.
#[derive(Clone, Copy, Debug, PartialEq, Eq)]
pub enum FailureReason {
    /// The vector names no secret key, or one that yields no key pair.
    NoSender,
    /// The case could not be brought to a verdict.
    Case(CaseError),
    /// The state root is not the expected one.
    HashMismatch { expected: H256, calculated: H256 },
}

/// Where and why a run stopped.
#[derive(Clone, Copy, Debug, PartialEq, Eq)]
pub struct Failure {
    pub fork: ForkSpec,
    pub index: usize,
    pub reason: FailureReason,
}

/// What a run did: its progress in order, and the failure that ended it,
/// if one did.
#[derive(Clone, Debug, PartialEq, Eq)]
pub struct RunReport {
    pub events: Vec<Event>,
    pub failure: Option<Failure>,
}

/// The progress of the first `count` variants of a supported fork.
pub open spec fn passed_events(fork: ForkSpec, count: nat) -> Seq<Event> {
    Seq::new(count, |i: int| Event::Passed { fork, index: i as usize })
}

/// The progress that a fork with `count` variants adds to a run without failure.
pub open spec fn fork_events(fork: ForkSpec, count: nat) -> Seq<Event> {
    if fork.supported() {
        passed_events(fork, count)
    } else {
        seq![Event::Skipped { fork }]
    }
}

/// The progress of a run without failure over the given forks, in order.
pub open spec fn all_events(post_states: Seq<(ForkSpec, Vec<PostStateResult>)>) -> Seq<Event>
    decreases post_states.len(),
{
    if post_states.len() == 0 {
        Seq::empty()
    } else {
        all_events(post_states.drop_last()) + fork_events(
            post_states.last().0,
            post_states.last().1@.len(),
        )
    }
}

/// Whether running a variant of the vector under the given settings can
/// have ended as `r`: the variant's transaction is the one its selectors
/// resolve to, the sender is the one derived from the secret key, and the
/// result fits these inputs.
pub open spec fn variant_result(
    test: Test,
    settings: ForkSettings,
    table: PrecompileTable,
    variant: PostStateResult,
    r: Result<CaseOutcome, CaseError>,
) -> bool {
    if test.transaction.selects(variant.indexes) {
        exists|transaction: Transaction|
            test.transaction.selected(variant.indexes, transaction) && #[trigger] result_fits(
                r,
                settings,
                table,
                test.transaction.gas_price@,
                test.spec_caller(),
                test.pre_state@,
                transaction,
                variant.hash,
            )
    } else {
        r == Err::<CaseOutcome, CaseError>(CaseError::BadIndexes)
    }
}

/// Whether a variant ran to an outcome whose state root is the expected one.
pub open spec fn variant_passed(
    test: Test,
    settings: ForkSettings,
    table: PrecompileTable,
    variant: PostStateResult,
) -> bool {
    exists|outcome: CaseOutcome| #[trigger]
        variant_result(test, settings, table, variant, Ok(outcome)) && outcome.passed
}

/// Whether a variant can have failed for the given reason.
pub open spec fn variant_failed(
    test: Test,
    settings: ForkSettings,
    table: PrecompileTable,
    variant: PostStateResult,
    reason: FailureReason,
) -> bool {
    match reason {
        FailureReason::NoSender => false,
        FailureReason::Case(error) => variant_result(test, settings, table, variant, Err(error)),
        FailureReason::HashMismatch { expected, calculated } => expected == variant.hash
            && calculated@ != expected@ && exists|outcome: CaseOutcome| #[trigger]
            variant_result(test, settings, table, variant, Ok(outcome)) && outcome.root
                == calculated,
    }
}

/// Whether the first `count` variants all passed.
pub open spec fn variants_passed(
    test: Test,
    settings: ForkSettings,
    table: PrecompileTable,
    variants: Seq<PostStateResult>,
    count: int,
) -> bool {
    forall|k: int| 0 <= k < count ==> variant_passed(test, settings, table, #[trigger] variants[k])
}

/// The precompile table that serves a ruleset.
pub open spec fn table_of(ruleset: Ruleset, istanbul: PrecompileTable, berlin: PrecompileTable) -> PrecompileTable {
    match ruleset {
        Ruleset::Istanbul => istanbul,
        Ruleset::Berlin => berlin,
    }
}

/// Whether every variant of each of the first `count` forks passed, as
/// far as the harness executes the fork.
pub open spec fn forks_passed(
    test: Test,
    istanbul: PrecompileTable,
    berlin: PrecompileTable,
    count: int,
) -> bool {
    forall|p: int|
        0 <= p < count && (#[trigger] test.post_states@[p]).0.supported() ==> variants_passed(
            test,
            test.post_states@[p].0.spec_settings().unwrap(),
            table_of(test.post_states@[p].0.spec_settings().unwrap().ruleset, istanbul, berlin),
            test.post_states@[p].1@,
            test.post_states@[p].1@.len() as int,
        )
}

/// Whether a report is one of a run that stopped at variant `index` of the
/// fork at position `position`: all forks before it ran through, of this
/// fork the variants before `index` passed, and the variant at `index`
/// failed for the reason given; or, where no sender can be derived, the
/// run stopped before the fork's first variant.
pub open spec fn stopped_at(
    test: Test,
    istanbul: PrecompileTable,
    berlin: PrecompileTable,
    events: Seq<Event>,
    failure: Failure,
    position: int,
) -> bool {
    let post_states = test.post_states@;
    let settings = failure.fork.spec_settings().unwrap();
    let table = table_of(settings.ruleset, istanbul, berlin);
    &&& 0 <= position < post_states.len()
    &&& post_states[position].0.supported()
    &&& failure.fork == post_states[position].0
    &&& events == all_events(post_states.take(position)) + passed_events(
        failure.fork,
        failure.index as nat,
    )
    &&& forks_passed(test, istanbul, berlin, position)
    &&& match failure.reason {
        FailureReason::NoSender => failure.index == 0 && !test.has_sender(),
        reason => {
            &&& test.has_sender()
            &&& failure.index < post_states[position].1@.len()
            &&& variants_passed(test, settings, table, post_states[position].1@, failure.index as int)
            &&& variant_failed(
                test,
                settings,
                table,
                post_states[position].1@[failure.index as int],
                reason,
            )
        },
    }
}

/// Whether some fork of the vector is one that the harness executes.
pub open spec fn has_supported_fork(post_states: Seq<(ForkSpec, Vec<PostStateResult>)>) -> bool {
    exists|k: int| 0 <= k < post_states.len() && (#[trigger] post_states[k]).0.supported()
}

/// The progress up to a fork is the progress up to the one before it and
/// then that one's.
pub proof fn lemma_all_events_step(post_states: Seq<(ForkSpec, Vec<PostStateResult>)>, k: int)
    requires
        0 <= k < post_states.len(),
    ensures
        all_events(post_states.take(k + 1)) == all_events(post_states.take(k)) + fork_events(
            post_states[k].0,
            post_states[k].1@.len(),
        ),
{
    assert(post_states.take(k + 1).drop_last() =~= post_states.take(k));
    assert(post_states.take(k + 1).last() == post_states[k]);
}

/// Resolves the transaction of one variant and runs it, with the sender
/// and the ambient context of the vector and from its pre-state. A selector
/// that points past the template's alternatives gives `BadIndexes`;
/// everything else is as `run_case` says of the selected transaction.
pub fn run_variant(
    test: &Test,
    settings: &ForkSettings,
    variant: &PostStateResult,
    precompiles: &PrecompileTable,
) -> (r: Result<CaseOutcome, CaseError>)
    requires
        test.has_sender(),
    ensures
        variant_result(*test, *settings, *precompiles, *variant, r),
{
    let vicinity = test.unwrap_to_vicinity();
    let caller = test.unwrap_caller();
    match test.transaction.select(&variant.indexes) {
        None => Err(CaseError::BadIndexes),
        Some(transaction) => {
            let r = run_case(
                settings,
                &vicinity,
                &caller,
                &test.pre_state,
                &transaction,
                &variant.hash,
                precompiles,
            );
            assert(test.transaction.selected(variant.indexes, transaction) && result_fits(
                r,
                *settings,
                *precompiles,
                test.transaction.gas_price@,
                test.spec_caller(),
                test.pre_state@,
                transaction,
                variant.hash,
            ));
            r
        },
    }
}

/// Runs the variants of one supported fork in order, each from the
/// vector's pre-state, and records each that passes. Stops at the first
/// variant that does not reach a verdict or whose state root differs, and
/// before the first where no sender can be derived.
pub fn run_fork<F: Fn(Notice)>(
    test: &Test,
    fork: ForkSpec,
    settings: &ForkSettings,
    variants: &Vec<PostStateResult>,
    precompiles: &PrecompileTable,
    events: &mut Vec<Event>,
    announce: &F,
) -> (r: Option<Failure>)
    requires
        forall|notice: Notice| #[trigger] announce.requires((notice,)),
    ensures
        r is None ==> {
            &&& test.has_sender()
            &&& final(events)@ == old(events)@ + passed_events(fork, variants@.len())
            &&& variants_passed(*test, *settings, *precompiles, variants@, variants@.len() as int)
        },
        r is Some ==> {
            let failure = r.unwrap();
            &&& failure.fork == fork
            &&& final(events)@ == old(events)@ + passed_events(fork, failure.index as nat)
            &&& match failure.reason {
                FailureReason::NoSender => failure.index == 0 && !test.has_sender(),
                reason => {
                    &&& test.has_sender()
                    &&& failure.index < variants@.len()
                    &&& variants_passed(
                        *test,
                        *settings,
                        *precompiles,
                        variants@,
                        failure.index as int,
                    )
                    &&& variant_failed(
                        *test,
                        *settings,
                        *precompiles,
                        variants@[failure.index as int],
                        reason,
                    )
                },
            }
        },
{
    if test.caller().is_none() {
        assert(old(events)@ + passed_events(fork, 0) =~= old(events)@);
        return Some(Failure { fork, index: 0, reason: FailureReason::NoSender });
    }
    let mut index: usize = 0;
    while index < variants.len()
        invariant
            index <= variants.len(),
            test.has_sender(),
            events@ == old(events)@ + passed_events(fork, index as nat),
            forall|notice: Notice| #[trigger] announce.requires((notice,)),
            variants_passed(*test, *settings, *precompiles, variants@, index as int),
        decreases variants.len() - index,
    {
        announce(Notice::Running { fork, index });
        let verdict = run_variant(test, settings, &variants[index], precompiles);
        match verdict {
            Err(error) => {
                return Some(Failure { fork, index, reason: FailureReason::Case(error) });
            },
            Ok(outcome) => {
                if !outcome.passed {
                    let reason = FailureReason::HashMismatch {
                        expected: variants[index].hash,
                        calculated: outcome.root,
                    };
                    assert(variant_result(
                        *test,
                        *settings,
                        *precompiles,
                        variants@[index as int],
                        Ok(outcome),
                    ));
                    assert(variant_failed(
                        *test,
                        *settings,
                        *precompiles,
                        variants@[index as int],
                        reason,
                    ));
                    return Some(Failure { fork, index, reason });
                }
                assert(variant_result(
                        *test,
                        *settings,
                        *precompiles,
                        variants@[index as int],
                        Ok(outcome),
                    ));
                assert(variant_passed(*test, *settings, *precompiles, variants@[index as int]));
            },
        }
        announce(Notice::Passed { fork, index });
        events.push(Event::Passed { fork, index });
        assert(passed_events(fork, (index + 1) as nat) =~= passed_events(fork, index as nat).push(
            Event::Passed { fork, index },
        ));
        assert(events@ =~= old(events)@ + passed_events(fork, (index + 1) as nat));
        index += 1;
    }
    None
}

/// Takes a test vector through all its forks, in the order listed, and
/// through all variants of each. `announce` is told of each skip, of each
/// variant before it runs and of each pass, so that a caller can show
/// progress while the run goes on. Forks that the harness does not execute
/// are skipped and recorded as such. The run stops at the first failure;
/// without one, the report lists every skip and every pass in order, and
/// every variant of every executed fork has passed.
pub fn test_run<F: Fn(Notice)>(
    test: &Test,
    istanbul: &PrecompileTable,
    berlin: &PrecompileTable,
    announce: &F,
) -> (r: RunReport)
    requires
        forall|notice: Notice| #[trigger] announce.requires((notice,)),
    ensures
        r.failure is None ==> r.events@ == all_events(test.post_states@) && forks_passed(
            *test,
            *istanbul,
            *berlin,
            test.post_states@.len() as int,
        ),
        r.failure is Some ==> exists|position: int|
            stopped_at(*test, *istanbul, *berlin, r.events@, r.failure.unwrap(), position),
        !test.has_sender() ==> (r.failure is Some <==> has_supported_fork(test.post_states@)),
{
    let mut events: Vec<Event> = Vec::new();
    let mut position: usize = 0;
    while position < test.post_states.len()
        invariant
            position <= test.post_states.len(),
            events@ == all_events(test.post_states@.take(position as int)),
            forks_passed(*test, *istanbul, *berlin, position as int),
            forall|notice: Notice| #[trigger] announce.requires((notice,)),
            !test.has_sender() ==> forall|k: int|
                0 <= k < position ==> !(#[trigger] test.post_states@[k]).0.supported(),
        decreases test.post_states.len() - position,
    {
        let fork = test.post_states[position].0;
        proof {
            lemma_all_events_step(test.post_states@, position as int);
        }
        match fork.settings() {
            None => {
                announce(Notice::Skipping { fork });
                events.push(Event::Skipped { fork });
                assert(events@ =~= all_events(test.post_states@.take(position as int))
                    + seq![Event::Skipped { fork }]);
            },
            Some(settings) => {
                let precompiles = match settings.ruleset {
                    Ruleset::Istanbul => istanbul,
                    Ruleset::Berlin => berlin,
                };
                let failure = run_fork(
                    test,
                    fork,
                    &settings,
                    &test.post_states[position].1,
                    precompiles,
                    &mut events,
                    announce,
                );
                if failure.is_some() {
                    let report = RunReport { events, failure };
                    assert(stopped_at(
                        *test,
                        *istanbul,
                        *berlin,
                        report.events@,
                        report.failure.unwrap(),
                        position as int,
                    ));
                    return report;
                }
            },
        }
        position += 1;
    }
    assert(test.post_states@.take(position as int) =~= test.post_states@);
    RunReport { events, failure: None }
}

} // verus!
